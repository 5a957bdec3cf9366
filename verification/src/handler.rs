use vstd::prelude::*;
use crate::address::{AccountMeta, Address, Venue};
use crate::error::CustomError;
use crate::record::{
    any_signer, chat_space, empty_text_has_no_bytes, has_signer, text_len, text_length, Chat, ChatRecord, ChatRecordView, ChatView,
    ContextAccount, MAX_CALLBACK_ACCOUNTS, MAX_TEXT_LEN, STATUS_AWAITING_INPUT, STATUS_PENDING,
};

verus! {

/// The accounts of `create_context`: the authenticated caller and the cell
/// of its context, empty until the first call.
#[derive(Clone, Copy, Debug)]
pub struct CreateContext {
    pub payer: Address,
    pub context_account: Option<ContextAccount>,
}

/// The accounts of `create_chat`: the authenticated caller, the venue the
/// call runs at, the caller's context and its address, the address of the
/// chat's cell and the record in it, if there is one.
#[derive(Clone, Debug)]
pub struct CreateChat {
    pub payer: Address,
    pub venue: Venue,
    pub context_key: Address,
    pub context_account: ContextAccount,
    pub chat_key: Address,
    pub chat: Option<ChatRecord>,
}

/// What the accounts of `create_chat` hold, as mathematical values.
pub struct CreateChatView {
    pub payer: Address,
    pub venue: Venue,
    pub context_key: Address,
    pub context_account: ContextAccount,
    pub chat_key: Address,
    pub chat: Option<ChatRecordView>,
}

impl View for CreateChat {
    type V = CreateChatView;

    open spec fn view(&self) -> CreateChatView {
        CreateChatView {
            payer: self.payer,
            venue: self.venue,
            context_key: self.context_key,
            context_account: self.context_account,
            chat_key: self.chat_key,
            chat: match self.chat {
                Some(record) => Some(record@),
                None => None,
            },
        }
    }
}

/// The arguments of one `create_chat` call, as mathematical values. An
/// absent account list counts as the empty list.
pub struct ChatRequest {
    pub chat_id: u64,
    pub cmk: Address,
    pub tx_id: Address,
    pub text: Option<Seq<char>>,
    pub callback_program_id: Address,
    pub callback_discriminator: [u8; 8],
    pub callback_account_metas: Seq<AccountMeta>,
}

/// The text of an optional string.
pub open spec fn text_view(text: Option<String>) -> Option<Seq<char>> {
    match text {
        Some(t) => Some(t@),
        None => None,
    }
}

/// The entries of an optional account list.
pub open spec fn metas_view(metas: Option<Vec<AccountMeta>>) -> Seq<AccountMeta> {
    match metas {
        Some(m) => m@,
        None => Seq::empty(),
    }
}

/// The status a chat takes when a request with this text is written.
pub open spec fn status_for(text: Option<Seq<char>>) -> u8 {
    if text is Some {
        STATUS_PENDING
    } else {
        STATUS_AWAITING_INPUT
    }
}

/// The stored text for an optional request text.
pub open spec fn text_or_empty(text: Option<Seq<char>>) -> Seq<char> {
    match text {
        Some(t) => t,
        None => Seq::empty(),
    }
}

/// Why `create_context` refuses, if it does: the cell holds a context of
/// another owner.
pub open spec fn create_context_error(pre: CreateContext) -> Option<CustomError> {
    match pre.context_account {
        Some(context) => if context.owner != pre.payer {
            Some(CustomError::ContextOwnerMismatch)
        } else {
            None
        },
        None => None,
    }
}

/// The context after an accepted `create_context`: a fresh one that starts
/// at id 0, or the one that was there.
pub open spec fn create_context_result(pre: CreateContext) -> ContextAccount {
    match pre.context_account {
        Some(context) => context,
        None => ContextAccount { owner: pre.payer, next_chat_id: 0 },
    }
}

/// Creates the caller's context on the first call and leaves an existing
/// one, counter included, as it is.
pub fn create_context(ctx: &mut CreateContext) -> (r: Result<(), CustomError>)
    ensures
        final(ctx).payer == old(ctx).payer,
        match r {
            Ok(()) => {
                &&& create_context_error(*old(ctx)) is None
                &&& final(ctx).context_account == Some(create_context_result(*old(ctx)))
            },
            Err(e) => {
                &&& create_context_error(*old(ctx)) == Some(e)
                &&& *final(ctx) == *old(ctx)
            },
        },
{
    match ctx.context_account {
        Some(context) => {
            if context.owner != ctx.payer {
                return Err(CustomError::ContextOwnerMismatch);
            }
            Ok(())
        },
        None => {
            ctx.context_account = Some(ContextAccount { owner: ctx.payer, next_chat_id: 0 });
            Ok(())
        },
    }
}

/// Why `create_chat` refuses, if it does. The arguments are judged first,
/// then the venue and the caller, then the id against the records.
pub open spec fn create_chat_error(pre: CreateChatView, req: ChatRequest) -> Option<CustomError> {
    if has_signer(req.callback_account_metas) {
        Some(CustomError::IllegalSignerMeta)
    } else if req.callback_account_metas.len() > MAX_CALLBACK_ACCOUNTS {
        Some(CustomError::TooManyCallbackAccounts)
    } else if req.text is Some && text_len(req.text->0) > MAX_TEXT_LEN {
        Some(CustomError::TextTooLong)
    } else if record_authority(pre.chat) != pre.venue {
        Some(CustomError::RecordDelegatedElsewhere)
    } else if pre.context_account.owner != pre.payer {
        Some(CustomError::ContextOwnerMismatch)
    } else {
        match pre.chat {
            None => if req.chat_id != pre.context_account.next_chat_id {
                Some(CustomError::SequenceMismatch)
            } else if pre.context_account.next_chat_id == u64::MAX {
                Some(CustomError::CounterOverflow)
            } else {
                None
            },
            Some(record) => if record.chat.id != req.chat_id {
                Some(CustomError::SequenceIdMismatch)
            } else if record.chat.context != pre.context_key {
                Some(CustomError::ContextMismatch)
            } else {
                None
            },
        }
    }
}

/// The venue that may change the cell: the base venue while the cell is
/// empty.
pub open spec fn record_authority(chat: Option<ChatRecordView>) -> Venue {
    match chat {
        Some(record) => record.authority,
        None => Venue::Base,
    }
}

/// The chat that an accepted `create_chat` leaves in the cell.
pub open spec fn written_chat(pre: CreateChatView, req: ChatRequest, now: i64) -> ChatView {
    match pre.chat {
        None => ChatView {
            context: pre.context_key,
            user: pre.payer,
            id: req.chat_id,
            created_at: now,
            status: status_for(req.text),
            cmk: req.cmk,
            tx_id: req.tx_id,
            callback_program_id: req.callback_program_id,
            callback_discriminator: req.callback_discriminator,
            request_text: text_or_empty(req.text),
            response_text: Seq::empty(),
            callback_account_metas: req.callback_account_metas,
        },
        Some(record) => ChatView {
            status: status_for(req.text),
            callback_program_id: req.callback_program_id,
            callback_discriminator: req.callback_discriminator,
            request_text: text_or_empty(req.text),
            callback_account_metas: req.callback_account_metas,
            ..record.chat
        },
    }
}

/// The cell size after an accepted `create_chat`: what the written chat
/// needs, and never less than the cell had.
pub open spec fn written_space(pre: CreateChatView, req: ChatRequest, now: i64) -> nat {
    let needed = written_chat(pre, req, now).space();
    match pre.chat {
        None => needed,
        Some(record) => if record.space >= needed {
            record.space
        } else {
            needed
        },
    }
}

/// The accounts after an accepted `create_chat`. Only a new chat advances
/// the context's counter.
pub open spec fn create_chat_result(pre: CreateChatView, req: ChatRequest, now: i64)
    -> CreateChatView {
    CreateChatView {
        context_account: match pre.chat {
            None => ContextAccount {
                owner: pre.context_account.owner,
                next_chat_id: (pre.context_account.next_chat_id + 1) as u64,
            },
            Some(_) => pre.context_account,
        },
        chat: Some(
            ChatRecordView {
                key: match pre.chat {
                    None => pre.chat_key,
                    Some(record) => record.key,
                },
                authority: record_authority(pre.chat),
                undelegating: match pre.chat {
                    None => false,
                    Some(record) => record.undelegating,
                },
                space: written_space(pre, req, now),
                chat: written_chat(pre, req, now),
            },
        ),
        ..pre
    }
}

/// Bytes by which the cell grows in an accepted `create_chat`; a new cell
/// grows from nothing.
pub open spec fn create_chat_growth(pre: CreateChatView, req: ChatRequest, now: i64) -> nat {
    match pre.chat {
        None => written_space(pre, req, now),
        Some(record) => (written_space(pre, req, now) - record.space) as nat,
    }
}

/// Writes a request into the chat with the given id: creates the chat if its
/// cell is empty, which takes the context's next id and advances the counter
/// by one, and rewrites the request of an existing chat otherwise. Returns
/// the number of bytes by which the cell had to grow. A refused call changes
/// nothing.
pub fn create_chat(
    ctx: &mut CreateChat,
    chat_id: u64,
    cmk: Address,
    tx_id: Address,
    text: Option<String>,
    callback_program_id: Address,
    callback_discriminator: [u8; 8],
    account_metas: Option<Vec<AccountMeta>>,
    now: i64,
) -> (r: Result<usize, CustomError>)
    requires
        old(ctx).chat is Some ==> old(ctx).chat->0@.chat.bounded(),
    ensures
        ({
            let req = ChatRequest {
                chat_id,
                cmk,
                tx_id,
                text: text_view(text),
                callback_program_id,
                callback_discriminator,
                callback_account_metas: metas_view(account_metas),
            };
            match r {
                Ok(grown) => {
                    &&& create_chat_error(old(ctx)@, req) is None
                    &&& final(ctx)@ == create_chat_result(old(ctx)@, req, now)
                    &&& grown == create_chat_growth(old(ctx)@, req, now)
                    &&& final(ctx).chat->0@.chat.wf()
                    &&& final(ctx).chat->0@.chat.space() <= final(ctx).chat->0@.space
                },
                Err(e) => {
                    &&& create_chat_error(old(ctx)@, req) == Some(e)
                    &&& final(ctx)@ == old(ctx)@
                },
            }
        }),
{
    let metas: Vec<AccountMeta> = match account_metas {
        Some(m) => m,
        None => Vec::new(),
    };
    if any_signer(&metas) {
        return Err(CustomError::IllegalSignerMeta);
    }
    if metas.len() > MAX_CALLBACK_ACCOUNTS {
        return Err(CustomError::TooManyCallbackAccounts);
    }
    let status: u8 = if text.is_some() { STATUS_PENDING } else { STATUS_AWAITING_INPUT };
    let request_text: String = match text {
        Some(t) => t,
        None => String::new(),
    };
    let request_len: usize = text_length(&request_text);
    if request_len > MAX_TEXT_LEN {
        return Err(CustomError::TextTooLong);
    }
    let authority: Venue = match &ctx.chat {
        Some(record) => record.authority,
        None => Venue::Base,
    };
    if authority != ctx.venue {
        return Err(CustomError::RecordDelegatedElsewhere);
    }
    if ctx.context_account.owner != ctx.payer {
        return Err(CustomError::ContextOwnerMismatch);
    }
    let existing: Option<ChatRecord> = ctx.chat.take();
    match existing {
        None => {
            if chat_id != ctx.context_account.next_chat_id {
                return Err(CustomError::SequenceMismatch);
            }
            if ctx.context_account.next_chat_id == u64::MAX {
                return Err(CustomError::CounterOverflow);
            }
            proof {
                empty_text_has_no_bytes();
            }
            let space: usize = chat_space(request_len, 0, metas.len());
            let chat = Chat {
                context: ctx.context_key,
                user: ctx.payer,
                id: chat_id,
                created_at: now,
                status,
                cmk,
                tx_id,
                callback_program_id,
                callback_discriminator,
                request_text,
                response_text: String::new(),
                callback_account_metas: metas,
            };
            ctx.chat = Some(
                ChatRecord {
                    key: ctx.chat_key,
                    authority: Venue::Base,
                    undelegating: false,
                    space,
                    chat,
                },
            );
            ctx.context_account.next_chat_id = ctx.context_account.next_chat_id + 1;
            Ok(space)
        },
        Some(record) => {
            if record.chat.id != chat_id {
                ctx.chat = Some(record);
                return Err(CustomError::SequenceIdMismatch);
            }
            if record.chat.context != ctx.context_key {
                ctx.chat = Some(record);
                return Err(CustomError::ContextMismatch);
            }
            let response_len: usize = text_length(&record.chat.response_text);
            let needed: usize = chat_space(request_len, response_len, metas.len());
            let space: usize = if record.space >= needed { record.space } else { needed };
            let grown: usize = space - record.space;
            let ChatRecord { key, authority, undelegating, space: _, chat: old_chat } = record;
            let chat = Chat {
                status,
                callback_program_id,
                callback_discriminator,
                request_text,
                callback_account_metas: metas,
                ..old_chat
            };
            ctx.chat = Some(ChatRecord { key, authority, undelegating, space, chat });
            Ok(grown)
        },
    }
}

} // verus!
