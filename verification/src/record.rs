use vstd::prelude::*;
use vstd::utf8::encode_utf8;
use crate::address::{AccountMeta, Address, Venue};

verus! {

/// No request has been supplied for the chat yet.
pub const STATUS_AWAITING_INPUT: u8 = 0;

/// A request is waiting for the worker.
pub const STATUS_PENDING: u8 = 1;

/// The worker has delivered its final response.
pub const STATUS_DONE: u8 = 2;

/// The request was given up.
pub const STATUS_ERROR: u8 = 3;

/// Longest request text a chat may hold, in bytes.
pub const MAX_TEXT_LEN: usize = 1024;

/// Longest response text a chat may hold, in bytes.
pub const MAX_RESPONSE_LEN: usize = 1024;

/// Most callback accounts a chat may record.
pub const MAX_CALLBACK_ACCOUNTS: usize = 16;

/// Bytes of a stored chat before its variable sections: the record tag, five
/// addresses, the id, the timestamp, the status byte and the routing tag.
pub const CHAT_HEADER_LEN: usize = 193;

/// Bytes of one stored callback account: its address and two flags.
pub const ACCOUNT_META_LEN: usize = 34;

/// Bytes of the length prefix in front of each variable section.
pub const LEN_PREFIX: usize = 4;

/// The per-owner record that numbers the owner's chats.
#[derive(Clone, Copy, Debug)]
pub struct ContextAccount {
    pub owner: Address,
    pub next_chat_id: u64,
}

/// One request and its answer.
#[derive(Clone, Debug)]
pub struct Chat {
    pub context: Address,
    pub user: Address,
    pub id: u64,
    pub created_at: i64,
    pub status: u8,
    pub cmk: Address,
    pub tx_id: Address,
    pub callback_program_id: Address,
    pub callback_discriminator: [u8; 8],
    pub request_text: String,
    pub response_text: String,
    pub callback_account_metas: Vec<AccountMeta>,
}

/// What a chat holds, as mathematical values.
pub struct ChatView {
    pub context: Address,
    pub user: Address,
    pub id: u64,
    pub created_at: i64,
    pub status: u8,
    pub cmk: Address,
    pub tx_id: Address,
    pub callback_program_id: Address,
    pub callback_discriminator: [u8; 8],
    pub request_text: Seq<char>,
    pub response_text: Seq<char>,
    pub callback_account_metas: Seq<AccountMeta>,
}

impl View for Chat {
    type V = ChatView;

    open spec fn view(&self) -> ChatView {
        ChatView {
            context: self.context,
            user: self.user,
            id: self.id,
            created_at: self.created_at,
            status: self.status,
            cmk: self.cmk,
            tx_id: self.tx_id,
            callback_program_id: self.callback_program_id,
            callback_discriminator: self.callback_discriminator,
            request_text: self.request_text@,
            response_text: self.response_text@,
            callback_account_metas: self.callback_account_metas@,
        }
    }
}

/// Length of a text as it is stored: the bytes of its UTF-8 encoding.
pub open spec fn text_len(text: Seq<char>) -> nat {
    encode_utf8(text).len()
}

/// Some entry of the list claims a signature.
pub open spec fn has_signer(metas: Seq<AccountMeta>) -> bool {
    exists|i: int| 0 <= i < metas.len() && (#[trigger] metas[i]).is_signer
}

/// Bytes a chat with sections of these sizes takes in storage.
pub open spec fn space_for(request_len: nat, response_len: nat, metas: nat) -> nat {
    CHAT_HEADER_LEN as nat + LEN_PREFIX as nat + request_len + LEN_PREFIX as nat + response_len
        + LEN_PREFIX as nat + ACCOUNT_META_LEN as nat * metas
}

impl ChatView {
    /// The chat is within the bounds of a stored record.
    pub open spec fn bounded(self) -> bool {
        &&& text_len(self.request_text) <= MAX_TEXT_LEN
        &&& text_len(self.response_text) <= MAX_RESPONSE_LEN
        &&& self.callback_account_metas.len() <= MAX_CALLBACK_ACCOUNTS
    }

    /// The chat is within the bounds of a stored record, its status is one
    /// of the four, and it names no signer.
    pub open spec fn wf(self) -> bool {
        &&& self.bounded()
        &&& self.status <= STATUS_ERROR
        &&& !has_signer(self.callback_account_metas)
    }

    /// Bytes the chat takes in storage.
    pub open spec fn space(self) -> nat {
        space_for(
            text_len(self.request_text),
            text_len(self.response_text),
            self.callback_account_metas.len(),
        )
    }
}

/// A chat in its storage cell: where the cell is, which venue may change it,
/// how many bytes the cell has, and the chat itself.
#[derive(Clone, Debug)]
pub struct ChatRecord {
    pub key: Address,
    pub authority: Venue,
    pub undelegating: bool,
    pub space: usize,
    pub chat: Chat,
}

/// What a chat record holds, as mathematical values.
pub struct ChatRecordView {
    pub key: Address,
    pub authority: Venue,
    pub undelegating: bool,
    pub space: nat,
    pub chat: ChatView,
}

impl View for ChatRecord {
    type V = ChatRecordView;

    open spec fn view(&self) -> ChatRecordView {
        ChatRecordView {
            key: self.key,
            authority: self.authority,
            undelegating: self.undelegating,
            space: self.space as nat,
            chat: self.chat@,
        }
    }
}

impl ChatRecordView {
    /// The chat is well formed and fits its cell, and only a delegated record
    /// can be on its way back.
    pub open spec fn wf(self) -> bool {
        &&& self.chat.wf()
        &&& self.chat.space() <= self.space
        &&& self.undelegating ==> self.authority == Venue::Rollup
    }
}

/// Bytes a chat with sections of these sizes takes in storage.
pub fn chat_space(request_len: usize, response_len: usize, metas: usize) -> (r: usize)
    requires
        request_len <= MAX_TEXT_LEN,
        response_len <= MAX_RESPONSE_LEN,
        metas <= MAX_CALLBACK_ACCOUNTS,
    ensures
        r == space_for(request_len as nat, response_len as nat, metas as nat),
{
    CHAT_HEADER_LEN + LEN_PREFIX + request_len + LEN_PREFIX + response_len + LEN_PREFIX
        + ACCOUNT_META_LEN * metas
}

impl Chat {
    /// Whether the chat is within the bounds of a stored record.
    pub fn is_bounded(&self) -> (r: bool)
        ensures
            r == self@.bounded(),
    {
        text_length(&self.request_text) <= MAX_TEXT_LEN && text_length(&self.response_text)
            <= MAX_RESPONSE_LEN && self.callback_account_metas.len() <= MAX_CALLBACK_ACCOUNTS
    }

    /// Whether the chat is within the bounds of a stored record, has one of
    /// the four statuses and names no signer.
    pub fn is_well_formed(&self) -> (r: bool)
        ensures
            r == self@.wf(),
    {
        self.is_bounded() && self.status <= STATUS_ERROR && !any_signer(
            &self.callback_account_metas,
        )
    }
}

impl ContextAccount {
    /// The namespace tag under which context records are addressed.
    pub fn seed() -> (r: Vec<u8>)
        ensures
            r@ == seq![99u8, 111u8, 110u8, 116u8, 101u8, 120u8, 116u8],
    {
        vec![99u8, 111u8, 110u8, 116u8, 101u8, 120u8, 116u8]
    }
}

/// The empty text takes no bytes.
pub proof fn empty_text_has_no_bytes()
    ensures
        text_len(Seq::<char>::empty()) == 0,
{
}

/// Length of a text as it is stored.
pub fn text_length(text: &String) -> (r: usize)
    ensures
        r == text_len(text@),
{
    text.as_str().as_bytes().len()
}

/// Whether some entry of the list claims a signature.
pub fn any_signer(metas: &Vec<AccountMeta>) -> (r: bool)
    ensures
        r == has_signer(metas@),
{
    let mut i: usize = 0;
    while i < metas.len()
        invariant
            i <= metas.len(),
            forall|j: int| 0 <= j < i ==> !(#[trigger] metas@[j]).is_signer,
        decreases metas.len() - i,
    {
        if metas[i].is_signer {
            return true;
        }
        i += 1;
    }
    false
}

} // verus!
