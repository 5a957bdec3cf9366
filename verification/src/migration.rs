use vstd::prelude::*;
use crate::address::{Address, Venue};
use crate::addressing::{chat_seeds, chat_seeds_of, seed_bytes};
use crate::error::CustomError;
use crate::record::{ChatRecord, ChatRecordView};

verus! {

/// The terms under which the rollup venue takes a record: how often it
/// commits back, and which of its operators holds the record.
#[derive(Clone, Copy, Debug)]
pub struct DelegateConfig {
    pub commit_frequency_ms: u32,
    pub validator: Option<Address>,
}

/// What the base venue is asked to do when a record is delegated: hand the
/// record with these seeds over under this configuration.
#[derive(Clone, Debug)]
pub struct DelegateRequest {
    pub seeds: Vec<Vec<u8>>,
    pub config: DelegateConfig,
}

/// What the rollup venue is asked to do when a record is called back: commit
/// the record's latest state to the base venue and release it.
#[derive(Clone, Copy, Debug)]
pub struct CommitRequest {
    pub record: Address,
}

/// What the rollup venue reports of a commit that was asked for.
#[derive(Clone, Copy, Debug, PartialEq, Eq, Structural)]
pub enum VenueEvent {
    CommitAcknowledged,
    Unreachable,
}

/// The accounts of `delegate_chat`: the authenticated caller, the chat, and
/// the address of the context it is claimed to belong to.
#[derive(Clone, Debug)]
pub struct DelegateChat {
    pub payer: Address,
    pub chat: ChatRecord,
    pub context_key: Address,
}

/// The accounts of `undelegate_chat`: the user the chat is claimed to belong
/// to, the authenticated caller, the chat, and the address of the context it
/// is claimed to belong to.
#[derive(Clone, Debug)]
pub struct UndelegateChat {
    pub user: Address,
    pub payer: Address,
    pub chat: ChatRecord,
    pub context_key: Address,
}

/// The rollup operator that delegated chats are handed to:
/// mAGicPQYBMvcYveUZA5F5UNNwyHvfYh5xkLS2Fr1mev.
pub open spec fn rollup_validator() -> Address {
    Address {
        bytes: [
            11u8, 80u8, 9u8, 208u8, 183u8, 189u8, 108u8, 200u8, 89u8, 77u8, 168u8, 76u8, 233u8,
            197u8, 132u8, 22u8, 21u8, 186u8, 202u8, 240u8, 105u8, 168u8, 157u8, 64u8, 233u8, 249u8,
            100u8, 104u8, 210u8, 41u8, 83u8, 87u8,
        ],
    }
}

/// The rollup operator that delegated chats are handed to.
pub fn validator() -> (r: Address)
    ensures
        r == rollup_validator(),
{
    Address {
        bytes: [
            11u8, 80u8, 9u8, 208u8, 183u8, 189u8, 108u8, 200u8, 89u8, 77u8, 168u8, 76u8, 233u8,
            197u8, 132u8, 22u8, 21u8, 186u8, 202u8, 240u8, 105u8, 168u8, 157u8, 64u8, 233u8, 249u8,
            100u8, 104u8, 210u8, 41u8, 83u8, 87u8,
        ],
    }
}

/// The configuration every chat is delegated under: no commits on a timer,
/// and the fixed rollup operator.
pub open spec fn chat_delegation() -> DelegateConfig {
    DelegateConfig { commit_frequency_ms: 0, validator: Some(rollup_validator()) }
}

/// Why a caller may not move the record with the given id and context, if it
/// may not: it is not the chat's user, or the chat is another one.
pub open spec fn claim_error(
    record: ChatRecordView,
    claimant: Address,
    context_key: Address,
    chat_id: u64,
) -> Option<CustomError> {
    if claimant != record.chat.user {
        Some(CustomError::Unauthorized)
    } else if record.chat.id != chat_id {
        Some(CustomError::SequenceIdMismatch)
    } else if record.chat.context != context_key {
        Some(CustomError::ContextMismatch)
    } else {
        None
    }
}

/// Why `delegate_chat` refuses, if it does. A record that is delegated
/// already is not examined again.
pub open spec fn delegate_error(
    record: ChatRecordView,
    payer: Address,
    context_key: Address,
    chat_id: u64,
) -> Option<CustomError> {
    if record.authority == Venue::Rollup {
        None
    } else {
        claim_error(record, payer, context_key, chat_id)
    }
}

/// Why `undelegate_chat` refuses, if it does.
pub open spec fn undelegate_error(
    record: ChatRecordView,
    user: Address,
    context_key: Address,
    chat_id: u64,
) -> Option<CustomError> {
    if record.authority != Venue::Rollup {
        Some(CustomError::RecordDelegatedElsewhere)
    } else {
        claim_error(record, user, context_key, chat_id)
    }
}

/// Checks that the claimant is the chat's user and that the chat is the one
/// with the given id in the given context.
pub fn check_claim(record: &ChatRecord, claimant: &Address, context_key: &Address, chat_id: u64)
    -> (r: Result<(), CustomError>)
    ensures
        match r {
            Ok(()) => claim_error(record@, *claimant, *context_key, chat_id) is None,
            Err(e) => claim_error(record@, *claimant, *context_key, chat_id) == Some(e),
        },
{
    if *claimant != record.chat.user {
        Err(CustomError::Unauthorized)
    } else if record.chat.id != chat_id {
        Err(CustomError::SequenceIdMismatch)
    } else if record.chat.context != *context_key {
        Err(CustomError::ContextMismatch)
    } else {
        Ok(())
    }
}

/// Hands a resident chat to the rollup venue and returns what the base venue
/// is to be asked. On a chat that is delegated already it does nothing and
/// asks nothing. The chat itself is never touched.
pub fn delegate_chat(ctx: &mut DelegateChat, chat_id: u64) -> (r: Result<
    Option<DelegateRequest>,
    CustomError,
>)
    ensures
        final(ctx).payer == old(ctx).payer,
        final(ctx).context_key == old(ctx).context_key,
        match r {
            Ok(request) => {
                &&& delegate_error(old(ctx).chat@, old(ctx).payer, old(ctx).context_key, chat_id)
                    is None
                &&& final(ctx).chat@ == (ChatRecordView {
                    authority: Venue::Rollup,
                    ..old(ctx).chat@
                })
                &&& request is Some <==> old(ctx).chat.authority == Venue::Base
                &&& request is Some ==> {
                    &&& seed_bytes(request->0.seeds@) == chat_seeds_of(
                        old(ctx).context_key,
                        chat_id,
                    )
                    &&& request->0.config == chat_delegation()
                }
            },
            Err(e) => {
                &&& delegate_error(old(ctx).chat@, old(ctx).payer, old(ctx).context_key, chat_id)
                    == Some(e)
                &&& final(ctx).chat@ == old(ctx).chat@
            },
        },
{
    if ctx.chat.authority == Venue::Rollup {
        return Ok(None);
    }
    match check_claim(&ctx.chat, &ctx.payer, &ctx.context_key, chat_id) {
        Err(e) => {
            return Err(e);
        },
        Ok(()) => {},
    }
    ctx.chat.authority = Venue::Rollup;
    let request = DelegateRequest {
        seeds: chat_seeds(&ctx.context_key, chat_id),
        config: DelegateConfig { commit_frequency_ms: 0, validator: Some(validator()) },
    };
    Ok(Some(request))
}

/// Begins the way back of a delegated chat: marks it as being called back and
/// returns what the rollup venue is to be asked. The chat stays with the
/// rollup venue until `complete_undelegate` sees the commit acknowledged;
/// asking again meanwhile is allowed. The chat itself is never touched.
pub fn undelegate_chat(ctx: &mut UndelegateChat, chat_id: u64) -> (r: Result<
    CommitRequest,
    CustomError,
>)
    ensures
        final(ctx).user == old(ctx).user,
        final(ctx).payer == old(ctx).payer,
        final(ctx).context_key == old(ctx).context_key,
        match r {
            Ok(request) => {
                &&& undelegate_error(old(ctx).chat@, old(ctx).user, old(ctx).context_key, chat_id)
                    is None
                &&& final(ctx).chat@ == (ChatRecordView { undelegating: true, ..old(ctx).chat@ })
                &&& request.record == old(ctx).chat.key
            },
            Err(e) => {
                &&& undelegate_error(old(ctx).chat@, old(ctx).user, old(ctx).context_key, chat_id)
                    == Some(e)
                &&& final(ctx).chat@ == old(ctx).chat@
            },
        },
{
    if ctx.chat.authority != Venue::Rollup {
        return Err(CustomError::RecordDelegatedElsewhere);
    }
    match check_claim(&ctx.chat, &ctx.user, &ctx.context_key, chat_id) {
        Err(e) => {
            return Err(e);
        },
        Ok(()) => {},
    }
    ctx.chat.undelegating = true;
    Ok(CommitRequest { record: ctx.chat.key })
}

/// The record after the rollup venue has reported on a commit: back with the
/// base venue if the record was being called back and the commit is
/// acknowledged, unchanged otherwise.
pub open spec fn after_event(record: ChatRecordView, event: VenueEvent) -> ChatRecordView {
    if record.authority == Venue::Rollup && record.undelegating && event
        == VenueEvent::CommitAcknowledged {
        ChatRecordView { authority: Venue::Base, undelegating: false, ..record }
    } else {
        record
    }
}

/// Takes the rollup venue's report on a commit and says whether the record is
/// back with the base venue because of it. The chat comes back as the rollup
/// venue left it.
pub fn complete_undelegate(record: &mut ChatRecord, event: VenueEvent) -> (released: bool)
    ensures
        final(record)@ == after_event(old(record)@, event),
        released == (old(record).authority == Venue::Rollup && old(record).undelegating && event
            == VenueEvent::CommitAcknowledged),
{
    if record.authority == Venue::Rollup && record.undelegating && event
        == VenueEvent::CommitAcknowledged {
        record.authority = Venue::Base;
        record.undelegating = false;
        true
    } else {
        false
    }
}

} // verus!
