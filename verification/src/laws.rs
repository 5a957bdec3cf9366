use vstd::prelude::*;
use crate::address::{Address, Venue};
use crate::addressing::oracle_identity;
use crate::dispatch::{
    deliver_error, delivered_record, entries_error, holds_key, DeliverResponseView,
};
use crate::error::CustomError;
use crate::handler::{
    create_chat_error, create_chat_result, ChatRequest, CreateChatView,
};
use crate::migration::{after_event, VenueEvent};
use crate::status::{may_read, update_status_error};
use crate::record::{
    has_signer, text_len, ChatRecordView, ChatView, MAX_CALLBACK_ACCOUNTS, MAX_RESPONSE_LEN, MAX_TEXT_LEN,
    STATUS_DONE,
};

verus! {

/// The arguments of a request are acceptable in themselves: no callback
/// account signs, and the list and the text are within their bounds.
pub open spec fn arguments_valid(req: ChatRequest) -> bool {
    &&& !has_signer(req.callback_account_metas)
    &&& req.callback_account_metas.len() <= MAX_CALLBACK_ACCOUNTS
    &&& (req.text is Some ==> text_len(req.text->0) <= MAX_TEXT_LEN)
}

/// A new chat is admitted only under the context's next id, and admitting it
/// gives the chat that id and moves the counter to the id after it. Any
/// other id is refused, and when the arguments, the venue and the caller are
/// in order the refusal is `SequenceMismatch`.
pub proof fn sequencing(pre: CreateChatView, req: ChatRequest, now: i64)
    requires
        pre.chat is None,
    ensures
        create_chat_error(pre, req) is None ==> {
            &&& req.chat_id == pre.context_account.next_chat_id
            &&& create_chat_result(pre, req, now).context_account.next_chat_id == req.chat_id + 1
            &&& create_chat_result(pre, req, now).chat->0.chat.id == req.chat_id
        },
        req.chat_id != pre.context_account.next_chat_id ==> create_chat_error(pre, req) is Some,
        req.chat_id != pre.context_account.next_chat_id && arguments_valid(req) && pre.venue
            == Venue::Base && pre.context_account.owner == pre.payer ==> create_chat_error(
            pre,
            req,
        ) == Some(CustomError::SequenceMismatch),
{
}

/// Two chats admitted one after the other under one context carry
/// consecutive ids.
pub proof fn consecutive_ids(
    pre: CreateChatView,
    first: ChatRequest,
    now: i64,
    next_key: Address,
    second: ChatRequest,
)
    requires
        pre.chat is None,
        create_chat_error(pre, first) is None,
        create_chat_error(
            CreateChatView { chat_key: next_key, chat: None, ..create_chat_result(pre, first, now) },
            second,
        ) is None,
    ensures
        second.chat_id == first.chat_id + 1,
{
}

/// No accepted request lowers a context's counter or changes its owner, and
/// a request for an existing chat leaves the counter where it is.
pub proof fn counter_is_monotonic(pre: CreateChatView, req: ChatRequest, now: i64)
    requires
        create_chat_error(pre, req) is None,
    ensures
        create_chat_result(pre, req, now).context_account.next_chat_id
            >= pre.context_account.next_chat_id,
        create_chat_result(pre, req, now).context_account.owner == pre.context_account.owner,
        pre.chat is Some ==> create_chat_result(pre, req, now).context_account
            == pre.context_account,
{
}

/// A request for an existing chat leaves what was fixed when the chat was
/// created: its context, its user, its id, its time of creation and its
/// keys. It leaves the response and the record's venue too.
pub proof fn request_keeps_identity(pre: CreateChatView, req: ChatRequest, now: i64)
    requires
        pre.chat is Some,
        create_chat_error(pre, req) is None,
    ensures
        ({
            let before = pre.chat->0;
            let after = create_chat_result(pre, req, now).chat->0;
            &&& after.chat.context == before.chat.context
            &&& after.chat.user == before.chat.user
            &&& after.chat.id == before.chat.id
            &&& after.chat.created_at == before.chat.created_at
            &&& after.chat.cmk == before.chat.cmk
            &&& after.chat.tx_id == before.chat.tx_id
            &&& after.chat.response_text == before.chat.response_text
            &&& after.authority == before.authority
            &&& after.space >= before.space
        }),
{
}

/// A request whose account list holds a signing entry is refused with
/// `IllegalSignerMeta`, whatever else is true of it, and no accepted request
/// leaves a signing entry in a chat.
pub proof fn signer_exclusion(pre: CreateChatView, req: ChatRequest, now: i64)
    ensures
        has_signer(req.callback_account_metas) ==> create_chat_error(pre, req) == Some(
            CustomError::IllegalSignerMeta,
        ),
        create_chat_error(pre, req) is None ==> !has_signer(
            create_chat_result(pre, req, now).chat->0.chat.callback_account_metas,
        ),
{
}

/// Making an accepted request a second time with the same arguments is
/// accepted again and leaves the accounts as the first time left them.
pub proof fn idempotent_update(pre: CreateChatView, req: ChatRequest, now: i64, later: i64)
    requires
        create_chat_error(pre, req) is None,
    ensures
        create_chat_error(create_chat_result(pre, req, now), req) is None,
        create_chat_result(create_chat_result(pre, req, now), req, later) == create_chat_result(
            pre,
            req,
            now,
        ),
{
}

/// A chat whose final response has been delivered takes no further
/// delivery: every later call on it is refused, and one that comes from the
/// worker, at the venue that holds the record, with the recorded target
/// supplied and executable, is refused with `AlreadyProcessed`.
pub proof fn no_double_delivery(
    pre: DeliverResponseView,
    signer: Option<(Address, u8)>,
    response: Seq<char>,
    again: DeliverResponseView,
    again_signer: Option<(Address, u8)>,
    again_response: Seq<char>,
)
    requires
        deliver_error(pre, signer, response) is None,
        again.chat == delivered_record(pre.chat, response, true),
    ensures
        again.chat.chat.status == STATUS_DONE,
        again.chat.chat.response_text == response,
        deliver_error(again, again_signer, again_response) is Some,
        again.caller == oracle_identity() && again.chat.authority == again.venue
            && again.program.key == again.chat.chat.callback_program_id
            && again.program.executable ==> deliver_error(again, again_signer, again_response)
            == Some(CustomError::AlreadyProcessed),
{
}

/// A delivery whose supplied accounts hold the worker's own identity is
/// never accepted, and when the caller, the venue, the target, the status
/// and the length of the response are in order the refusal is
/// `WorkerIdentityLeaked`.
pub proof fn worker_exclusion(
    pre: DeliverResponseView,
    signer: Option<(Address, u8)>,
    response: Seq<char>,
)
    requires
        holds_key(pre.remaining_accounts, oracle_identity()),
    ensures
        deliver_error(pre, signer, response) is Some,
        pre.caller == oracle_identity() && pre.chat.authority == pre.venue && pre.program.key
            == pre.chat.chat.callback_program_id && pre.program.executable
            && pre.chat.chat.status != STATUS_DONE && text_len(response) <= MAX_RESPONSE_LEN
            ==> deliver_error(pre, signer, response) == Some(CustomError::WorkerIdentityLeaked),
{
}

/// A delivery is accepted only from the worker, and only when every
/// recorded callback account is matched by a supplied one and none of them
/// signs.
pub proof fn delivery_is_guarded(
    pre: DeliverResponseView,
    signer: Option<(Address, u8)>,
    response: Seq<char>,
)
    requires
        deliver_error(pre, signer, response) is None,
    ensures
        pre.caller == oracle_identity(),
        pre.chat.chat.status != STATUS_DONE,
        !holds_key(pre.remaining_accounts, pre.caller),
        entries_error(pre.chat.chat.callback_account_metas, pre.remaining_accounts) is None,
        !has_signer(pre.chat.chat.callback_account_metas),
{
    no_error_no_signer(pre.chat.chat.callback_account_metas, pre.remaining_accounts);
}

/// A list that passes the dispatcher's checks holds no signing entry.
pub proof fn no_error_no_signer(
    metas: Seq<crate::address::AccountMeta>,
    accounts: Seq<crate::address::AccountInfo>,
)
    requires
        entries_error(metas, accounts) is None,
    ensures
        !has_signer(metas),
    decreases metas.len(),
{
    if metas.len() > 0 {
        no_error_no_signer(metas.drop_first(), accounts);
        assert forall|i: int| 0 <= i < metas.len() implies !(#[trigger] metas[i]).is_signer by {
            if i > 0 {
                assert(metas.drop_first()[i - 1] == metas[i]);
            }
        }
    }
}

/// While a record is delegated, the base venue accepts no request, no
/// delivery and no change of status for it.
pub proof fn delegated_record_is_closed_to_base(
    request: CreateChatView,
    req: ChatRequest,
    delivery: DeliverResponseView,
    signer: Option<(Address, u8)>,
    response: Seq<char>,
    caller: Address,
    new_status: u8,
)
    requires
        request.chat is Some,
        request.chat->0.authority == Venue::Rollup,
        request.venue == Venue::Base,
        delivery.chat.authority == Venue::Rollup,
        delivery.venue == Venue::Base,
    ensures
        create_chat_error(request, req) is Some,
        arguments_valid(req) ==> create_chat_error(request, req) == Some(
            CustomError::RecordDelegatedElsewhere,
        ),
        deliver_error(delivery, signer, response) is Some,
        delivery.caller == oracle_identity() ==> deliver_error(delivery, signer, response) == Some(
            CustomError::RecordDelegatedElsewhere,
        ),
        update_status_error(delivery.chat, caller, Venue::Base, new_status) is Some,
        may_read(delivery.chat, caller) ==> update_status_error(
            delivery.chat,
            caller,
            Venue::Base,
            new_status,
        ) == Some(CustomError::RecordDelegatedElsewhere),
{
}

/// A chat that holds its final response is opened again by a new request
/// only: it takes no delivery and no change of status.
pub proof fn done_is_sticky(
    delivery: DeliverResponseView,
    signer: Option<(Address, u8)>,
    response: Seq<char>,
    caller: Address,
    venue: Venue,
    new_status: u8,
)
    requires
        delivery.chat.chat.status == STATUS_DONE,
    ensures
        deliver_error(delivery, signer, response) is Some,
        update_status_error(delivery.chat, caller, venue, new_status) is Some,
{
}

/// A record that is delegated, called back and released is the record it
/// was before, chat and all.
pub proof fn there_and_back(record: ChatRecordView)
    requires
        record.authority == Venue::Base,
        !record.undelegating,
    ensures
        after_event(
            ChatRecordView { authority: Venue::Rollup, undelegating: true, ..record },
            VenueEvent::CommitAcknowledged,
        ) == record,
{
}

/// Every accepted operation leaves a well-formed record well formed, and an
/// accepted request makes a well-formed record out of an empty cell.
pub proof fn records_stay_well_formed(
    request: CreateChatView,
    req: ChatRequest,
    now: i64,
    record: ChatRecordView,
    signer: Option<(Address, u8)>,
    delivery: DeliverResponseView,
    response: Seq<char>,
    is_processed: bool,
    caller: Address,
    venue: Venue,
    new_status: u8,
    event: VenueEvent,
)
    requires
        record.wf(),
        request.chat is Some ==> request.chat->0.wf(),
        delivery.chat == record,
    ensures
        create_chat_error(request, req) is None ==> create_chat_result(
            request,
            req,
            now,
        ).chat->0.wf(),
        deliver_error(delivery, signer, response) is None ==> delivered_record(
            record,
            response,
            is_processed,
        ).wf(),
        update_status_error(record, caller, venue, new_status) is None ==> (ChatRecordView {
            chat: ChatView { status: new_status, ..record.chat },
            ..record
        }).wf(),
        record.authority == Venue::Base ==> (ChatRecordView {
            authority: Venue::Rollup,
            ..record
        }).wf(),
        record.authority == Venue::Rollup ==> (ChatRecordView { undelegating: true, ..record }).wf(),
        after_event(record, event).wf(),
{
    crate::record::empty_text_has_no_bytes();
}

/// Whatever the rollup venue reports, the chat in a record comes through
/// unchanged, and the record returns to the base venue only when a commit
/// that was asked for is acknowledged.
pub proof fn handoff_keeps_payload(record: ChatRecordView, event: VenueEvent)
    ensures
        after_event(record, event).chat == record.chat,
        after_event(record, event).space == record.space,
        after_event(record, event).authority != record.authority ==> record.undelegating && event
            == VenueEvent::CommitAcknowledged,
        event == VenueEvent::Unreachable ==> after_event(record, event) == record,
{
}

} // verus!
