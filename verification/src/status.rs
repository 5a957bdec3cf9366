use vstd::prelude::*;
use crate::address::{Address, Venue};
use crate::addressing::{oracle, oracle_identity};
use crate::error::CustomError;
use crate::record::{
    ChatRecord, ChatRecordView, ChatView, STATUS_DONE, STATUS_ERROR, STATUS_PENDING,
};

verus! {

/// Notice that a chat's status was set.
#[derive(Clone, Copy, Debug)]
pub struct StatusChanged {
    pub chat: Address,
    pub chat_id: u64,
    pub status: u8,
}

/// The accounts of `update_status`: the authenticated caller, the venue the
/// call runs at, and the chat.
#[derive(Clone, Debug)]
pub struct UpdateChatStatus {
    pub caller: Address,
    pub venue: Venue,
    pub chat: ChatRecord,
}

/// The caller is the chat's user or the registered worker.
pub open spec fn may_read(record: ChatRecordView, caller: Address) -> bool {
    caller == record.chat.user || caller == oracle_identity()
}

/// Why `update_status` refuses, if it does. Only a pending chat can be
/// settled; a settled one opens again with a new request, not here.
pub open spec fn update_status_error(
    record: ChatRecordView,
    caller: Address,
    venue: Venue,
    new_status: u8,
) -> Option<CustomError> {
    if !may_read(record, caller) {
        Some(CustomError::Unauthorized)
    } else if record.authority != venue {
        Some(CustomError::RecordDelegatedElsewhere)
    } else if new_status != STATUS_PENDING && new_status != STATUS_DONE && new_status
        != STATUS_ERROR {
        Some(CustomError::Unauthorized)
    } else if record.chat.status == STATUS_DONE || record.chat.status == STATUS_ERROR {
        Some(CustomError::AlreadyProcessed)
    } else if record.chat.status != STATUS_PENDING {
        Some(CustomError::Unauthorized)
    } else {
        None
    }
}

/// Whether the caller is the chat's user or the registered worker.
pub fn is_reader(record: &ChatRecord, caller: &Address) -> (r: bool)
    ensures
        r == may_read(record@, *caller),
{
    *caller == record.chat.user || *caller == oracle()
}

/// Settles a pending chat as done or failed, or leaves it pending, and
/// returns the notice of it. A refused call changes nothing.
pub fn update_status(ctx: &mut UpdateChatStatus, new_status: u8) -> (r: Result<
    StatusChanged,
    CustomError,
>)
    ensures
        final(ctx).caller == old(ctx).caller,
        final(ctx).venue == old(ctx).venue,
        match r {
            Ok(notice) => {
                &&& update_status_error(old(ctx).chat@, old(ctx).caller, old(ctx).venue, new_status)
                    is None
                &&& final(ctx).chat@.chat.status == new_status
                &&& final(ctx).chat@ == (ChatRecordView {
                    chat: ChatView { status: new_status, ..old(ctx).chat@.chat },
                    ..old(ctx).chat@
                })
                &&& notice.chat == old(ctx).chat.key
                &&& notice.chat_id == old(ctx).chat.chat.id
                &&& notice.status == new_status
            },
            Err(e) => {
                &&& update_status_error(old(ctx).chat@, old(ctx).caller, old(ctx).venue, new_status)
                    == Some(e)
                &&& final(ctx).chat@ == old(ctx).chat@
            },
        },
{
    if !is_reader(&ctx.chat, &ctx.caller) {
        return Err(CustomError::Unauthorized);
    }
    if ctx.chat.authority != ctx.venue {
        return Err(CustomError::RecordDelegatedElsewhere);
    }
    if new_status != STATUS_PENDING && new_status != STATUS_DONE && new_status != STATUS_ERROR {
        return Err(CustomError::Unauthorized);
    }
    if ctx.chat.chat.status == STATUS_DONE || ctx.chat.chat.status == STATUS_ERROR {
        return Err(CustomError::AlreadyProcessed);
    }
    if ctx.chat.chat.status != STATUS_PENDING {
        return Err(CustomError::Unauthorized);
    }
    ctx.chat.chat.status = new_status;
    Ok(StatusChanged { chat: ctx.chat.key, chat_id: ctx.chat.chat.id, status: new_status })
}

} // verus!
