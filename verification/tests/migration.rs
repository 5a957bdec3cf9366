use loyal_oracle::address::{AccountInfo, Address, Venue};
use loyal_oracle::addressing::oracle;
use loyal_oracle::dispatch::{deliver_with_signer, DeliverResponse};
use loyal_oracle::error::CustomError;
use loyal_oracle::handler::{create_chat, CreateChat};
use loyal_oracle::migration::{
    check_claim, complete_undelegate, delegate_chat, undelegate_chat, validator, DelegateChat,
    UndelegateChat, VenueEvent,
};
use loyal_oracle::record::{
    ChatRecord, ContextAccount, STATUS_DONE, STATUS_ERROR, STATUS_PENDING,
};
use loyal_oracle::status::{update_status, UpdateChatStatus};

fn m_addr(b: u8) -> Address {
    Address::new([b; 32])
}

fn m_submit(ctx: &mut CreateChat, chat_id: u64, text: &str) -> Result<usize, CustomError> {
    create_chat(
        ctx,
        chat_id,
        m_addr(7),
        m_addr(9),
        Some(text.to_string()),
        m_addr(70),
        [1, 2, 3, 4, 5, 6, 7, 8],
        None,
        1_700_000_000,
    )
}

fn m_resident() -> CreateChat {
    let mut ctx = CreateChat {
        payer: m_addr(1),
        venue: Venue::Base,
        context_key: m_addr(50),
        context_account: ContextAccount { owner: m_addr(1), next_chat_id: 0 },
        chat_key: m_addr(60),
        chat: None,
    };
    m_submit(&mut ctx, 0, "hello").unwrap();
    ctx
}

fn m_record() -> ChatRecord {
    m_resident().chat.unwrap()
}

#[test]
fn migration_scenario() {
    let mut base = m_resident();

    // the resident record is delegated
    let mut delegate =
        DelegateChat { payer: m_addr(1), chat: base.chat.take().unwrap(), context_key: m_addr(50) };
    let request = delegate_chat(&mut delegate, 0).unwrap().unwrap();
    assert_eq!(request.seeds, vec![b"chat".to_vec(), vec![50; 32], vec![0; 8]]);
    assert_eq!(request.config.commit_frequency_ms, 0);
    assert_eq!(request.config.validator, Some(validator()));
    assert_eq!(delegate.chat.authority, Venue::Rollup);
    assert_eq!(delegate.chat.chat.request_text, "hello");

    // the base venue refuses a request for it
    base.chat = Some(delegate.chat);
    assert_eq!(m_submit(&mut base, 0, "at base"), Err(CustomError::RecordDelegatedElsewhere));
    assert_eq!(base.chat.as_ref().unwrap().chat.request_text, "hello");

    // the rollup venue takes one
    let mut rollup = CreateChat { venue: Venue::Rollup, ..base.clone() };
    assert!(m_submit(&mut rollup, 0, "at the rollup").is_ok());
    assert_eq!(rollup.context_account.next_chat_id, 1);

    // the way back begins; the record stays where it is until the commit is seen
    let mut undelegate = UndelegateChat {
        user: m_addr(1),
        payer: m_addr(2),
        chat: rollup.chat.take().unwrap(),
        context_key: m_addr(50),
    };
    let commit = undelegate_chat(&mut undelegate, 0).unwrap();
    assert_eq!(commit.record, m_addr(60));
    assert_eq!(undelegate.chat.authority, Venue::Rollup);
    assert!(undelegate.chat.undelegating);
    base.chat = Some(undelegate.chat.clone());
    assert_eq!(m_submit(&mut base, 0, "too early"), Err(CustomError::RecordDelegatedElsewhere));

    // the rollup venue cannot be reached: nothing moves
    let mut record = undelegate.chat;
    assert!(!complete_undelegate(&mut record, VenueEvent::Unreachable));
    assert_eq!(record.authority, Venue::Rollup);
    assert!(record.undelegating);

    // the commit is acknowledged: the record is back, as the rollup left it
    assert!(complete_undelegate(&mut record, VenueEvent::CommitAcknowledged));
    assert_eq!(record.authority, Venue::Base);
    assert!(!record.undelegating);
    assert_eq!(record.chat.request_text, "at the rollup");
    assert_eq!(record.chat.status, STATUS_PENDING);

    // the base venue works on it again
    base.chat = Some(record);
    assert!(m_submit(&mut base, 0, "back at base").is_ok());
    assert_eq!(base.chat.as_ref().unwrap().chat.request_text, "back at base");
    let mut deliver = DeliverResponse {
        caller: oracle(),
        venue: Venue::Base,
        chat: base.chat.take().unwrap(),
        program: AccountInfo {
            key: m_addr(70),
            is_signer: false,
            is_writable: false,
            executable: true,
        },
        remaining_accounts: vec![],
    };
    let r = deliver_with_signer(&mut deliver, Some((m_addr(200), 255)), "hi".to_string(), true);
    assert!(r.is_ok());
    assert_eq!(deliver.chat.chat.status, STATUS_DONE);
}

#[test]
fn delegating_twice_is_a_no_op() {
    let mut ctx = DelegateChat { payer: m_addr(1), chat: m_record(), context_key: m_addr(50) };
    assert!(delegate_chat(&mut ctx, 0).unwrap().is_some());
    // not examined again: another caller, another id
    ctx.payer = m_addr(2);
    let again = delegate_chat(&mut ctx, 5).unwrap();
    assert!(again.is_none());
    assert_eq!(ctx.chat.authority, Venue::Rollup);
    assert_eq!(ctx.chat.chat.request_text, "hello");
}

#[test]
fn delegating_a_chat_of_another_user_is_refused() {
    let mut ctx = DelegateChat { payer: m_addr(2), chat: m_record(), context_key: m_addr(50) };
    assert_eq!(delegate_chat(&mut ctx, 0).err(), Some(CustomError::Unauthorized));
    assert_eq!(ctx.chat.authority, Venue::Base);
}

#[test]
fn delegating_under_a_wrong_id_or_context_is_refused() {
    let mut ctx = DelegateChat { payer: m_addr(1), chat: m_record(), context_key: m_addr(50) };
    assert_eq!(delegate_chat(&mut ctx, 1).err(), Some(CustomError::SequenceIdMismatch));
    ctx.context_key = m_addr(51);
    assert_eq!(delegate_chat(&mut ctx, 0).err(), Some(CustomError::ContextMismatch));
    assert_eq!(ctx.chat.authority, Venue::Base);
}

#[test]
fn delegation_names_the_seeds_of_the_chat() {
    let mut record = m_record();
    record.chat.id = 258;
    let mut ctx = DelegateChat { payer: m_addr(1), chat: record, context_key: m_addr(50) };
    let request = delegate_chat(&mut ctx, 258).unwrap().unwrap();
    assert_eq!(
        request.seeds,
        vec![b"chat".to_vec(), vec![50; 32], vec![2, 1, 0, 0, 0, 0, 0, 0]]
    );
}

#[test]
fn undelegating_a_resident_chat_is_refused() {
    let mut ctx =
        UndelegateChat { user: m_addr(1), payer: m_addr(1), chat: m_record(), context_key: m_addr(50) };
    assert_eq!(undelegate_chat(&mut ctx, 0).err(), Some(CustomError::RecordDelegatedElsewhere));
    assert!(!ctx.chat.undelegating);
}

#[test]
fn undelegating_checks_the_claim() {
    let mut record = m_record();
    record.authority = Venue::Rollup;
    let mut ctx =
        UndelegateChat { user: m_addr(2), payer: m_addr(1), chat: record, context_key: m_addr(50) };
    assert_eq!(undelegate_chat(&mut ctx, 0).err(), Some(CustomError::Unauthorized));
    ctx.user = m_addr(1);
    assert_eq!(undelegate_chat(&mut ctx, 3).err(), Some(CustomError::SequenceIdMismatch));
    ctx.context_key = m_addr(51);
    assert_eq!(undelegate_chat(&mut ctx, 0).err(), Some(CustomError::ContextMismatch));
    assert!(!ctx.chat.undelegating);
    ctx.context_key = m_addr(50);
    assert!(undelegate_chat(&mut ctx, 0).is_ok());
    // asking again while the commit is awaited is allowed
    assert!(undelegate_chat(&mut ctx, 0).is_ok());
    assert!(ctx.chat.undelegating);
}

#[test]
fn acknowledgement_nobody_asked_for_moves_nothing() {
    let mut record = m_record();
    record.authority = Venue::Rollup;
    assert!(!complete_undelegate(&mut record, VenueEvent::CommitAcknowledged));
    assert_eq!(record.authority, Venue::Rollup);
    let mut resident = m_record();
    assert!(!complete_undelegate(&mut resident, VenueEvent::CommitAcknowledged));
    assert_eq!(resident.authority, Venue::Base);
}

#[test]
fn claim_is_checked_in_order() {
    let record = m_record();
    assert_eq!(check_claim(&record, &m_addr(1), &m_addr(50), 0), Ok(()));
    assert_eq!(check_claim(&record, &m_addr(2), &m_addr(51), 1), Err(CustomError::Unauthorized));
    assert_eq!(check_claim(&record, &m_addr(1), &m_addr(51), 1), Err(CustomError::SequenceIdMismatch));
    assert_eq!(check_claim(&record, &m_addr(1), &m_addr(51), 0), Err(CustomError::ContextMismatch));
}

#[test]
fn pending_chat_is_settled_by_its_user_or_the_worker() {
    let mut ctx = UpdateChatStatus { caller: m_addr(1), venue: Venue::Base, chat: m_record() };
    let notice = update_status(&mut ctx, STATUS_ERROR).unwrap();
    assert_eq!(notice.chat, m_addr(60));
    assert_eq!(notice.chat_id, 0);
    assert_eq!(notice.status, STATUS_ERROR);
    assert_eq!(ctx.chat.chat.status, STATUS_ERROR);
    let mut ctx = UpdateChatStatus { caller: oracle(), venue: Venue::Base, chat: m_record() };
    assert_eq!(update_status(&mut ctx, STATUS_DONE).unwrap().status, STATUS_DONE);
    assert_eq!(ctx.chat.chat.status, STATUS_DONE);
    assert_eq!(ctx.chat.chat.request_text, "hello");
}

#[test]
fn status_is_not_set_by_strangers_nor_to_unknown_values() {
    let mut ctx = UpdateChatStatus { caller: m_addr(2), venue: Venue::Base, chat: m_record() };
    assert_eq!(update_status(&mut ctx, STATUS_DONE).err(), Some(CustomError::Unauthorized));
    ctx.caller = m_addr(1);
    assert_eq!(update_status(&mut ctx, 0).err(), Some(CustomError::Unauthorized));
    assert_eq!(update_status(&mut ctx, 4).err(), Some(CustomError::Unauthorized));
    assert_eq!(ctx.chat.chat.status, STATUS_PENDING);
    assert!(update_status(&mut ctx, STATUS_PENDING).is_ok());
    assert_eq!(ctx.chat.chat.status, STATUS_PENDING);
}

#[test]
fn settled_chat_is_not_settled_again() {
    let mut ctx = UpdateChatStatus { caller: m_addr(1), venue: Venue::Base, chat: m_record() };
    ctx.chat.chat.status = STATUS_DONE;
    assert_eq!(update_status(&mut ctx, STATUS_PENDING).err(), Some(CustomError::AlreadyProcessed));
    ctx.chat.chat.status = STATUS_ERROR;
    assert_eq!(update_status(&mut ctx, STATUS_DONE).err(), Some(CustomError::AlreadyProcessed));
    ctx.chat.chat.status = 0;
    assert_eq!(update_status(&mut ctx, STATUS_DONE).err(), Some(CustomError::Unauthorized));
    assert_eq!(ctx.chat.chat.status, 0);
}

#[test]
fn status_of_a_delegated_chat_is_not_set_at_base() {
    let mut ctx = UpdateChatStatus { caller: m_addr(1), venue: Venue::Base, chat: m_record() };
    ctx.chat.authority = Venue::Rollup;
    assert_eq!(
        update_status(&mut ctx, STATUS_DONE).err(),
        Some(CustomError::RecordDelegatedElsewhere)
    );
    assert_eq!(ctx.chat.chat.status, STATUS_PENDING);
    ctx.venue = Venue::Rollup;
    assert!(update_status(&mut ctx, STATUS_DONE).is_ok());
}
