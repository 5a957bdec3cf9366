use loyal_oracle::address::{AccountMeta, Address, Venue};
use loyal_oracle::error::CustomError;
use loyal_oracle::handler::{create_chat, create_context, CreateChat, CreateContext};
use loyal_oracle::record::{
    any_signer, chat_space, text_length, ChatRecord, ContextAccount, MAX_CALLBACK_ACCOUNTS,
    MAX_TEXT_LEN, STATUS_AWAITING_INPUT, STATUS_DONE, STATUS_PENDING,
};

fn h_addr(b: u8) -> Address {
    Address::new([b; 32])
}

fn h_fresh(owner: u8, next: u64) -> CreateChat {
    CreateChat {
        payer: h_addr(owner),
        venue: Venue::Base,
        context_key: h_addr(50),
        context_account: ContextAccount { owner: h_addr(owner), next_chat_id: next },
        chat_key: h_addr(60),
        chat: None,
    }
}

fn h_meta(b: u8, signer: bool, writable: bool) -> AccountMeta {
    AccountMeta { pubkey: h_addr(b), is_signer: signer, is_writable: writable }
}

fn h_submit(
    ctx: &mut CreateChat,
    chat_id: u64,
    text: Option<&str>,
    metas: Option<Vec<AccountMeta>>,
) -> Result<usize, CustomError> {
    create_chat(
        ctx,
        chat_id,
        h_addr(7),
        h_addr(9),
        text.map(|t| t.to_string()),
        h_addr(70),
        [1, 2, 3, 4, 5, 6, 7, 8],
        metas,
        1_700_000_000,
    )
}

fn h_record(ctx: &CreateChat) -> &ChatRecord {
    ctx.chat.as_ref().unwrap()
}

#[test]
fn context_starts_at_zero() {
    let mut ctx = CreateContext { payer: h_addr(1), context_account: None };
    assert_eq!(create_context(&mut ctx), Ok(()));
    let context = ctx.context_account.unwrap();
    assert_eq!(context.owner, h_addr(1));
    assert_eq!(context.next_chat_id, 0);
}

#[test]
fn context_is_not_reset_by_a_second_call() {
    let mut ctx = CreateContext {
        payer: h_addr(1),
        context_account: Some(ContextAccount { owner: h_addr(1), next_chat_id: 5 }),
    };
    assert_eq!(create_context(&mut ctx), Ok(()));
    assert_eq!(ctx.context_account.unwrap().next_chat_id, 5);
}

#[test]
fn context_of_another_owner_is_refused() {
    let mut ctx = CreateContext {
        payer: h_addr(1),
        context_account: Some(ContextAccount { owner: h_addr(2), next_chat_id: 5 }),
    };
    assert_eq!(create_context(&mut ctx), Err(CustomError::ContextOwnerMismatch));
    assert_eq!(ctx.context_account.unwrap().owner, h_addr(2));
    assert_eq!(ctx.context_account.unwrap().next_chat_id, 5);
}

#[test]
fn create_with_text_is_pending() {
    let mut ctx = h_fresh(1, 0);
    let grown = h_submit(&mut ctx, 0, Some("hello"), None).unwrap();
    assert_eq!(grown, 193 + 4 + 5 + 4 + 0 + 4);
    assert_eq!(ctx.context_account.next_chat_id, 1);
    let record = h_record(&ctx);
    assert_eq!(record.key, h_addr(60));
    assert_eq!(record.authority, Venue::Base);
    assert!(!record.undelegating);
    assert_eq!(record.space, 210);
    assert_eq!(record.chat.context, h_addr(50));
    assert_eq!(record.chat.user, h_addr(1));
    assert_eq!(record.chat.id, 0);
    assert_eq!(record.chat.created_at, 1_700_000_000);
    assert_eq!(record.chat.status, STATUS_PENDING);
    assert_eq!(record.chat.cmk, h_addr(7));
    assert_eq!(record.chat.tx_id, h_addr(9));
    assert_eq!(record.chat.callback_program_id, h_addr(70));
    assert_eq!(record.chat.callback_discriminator, [1, 2, 3, 4, 5, 6, 7, 8]);
    assert_eq!(record.chat.request_text, "hello");
    assert_eq!(record.chat.response_text, "");
    assert!(record.chat.callback_account_metas.is_empty());
}

#[test]
fn create_without_text_awaits_input() {
    let mut ctx = h_fresh(1, 3);
    assert_eq!(h_submit(&mut ctx, 3, None, None), Ok(205));
    assert_eq!(ctx.context_account.next_chat_id, 4);
    let record = h_record(&ctx);
    assert_eq!(record.chat.status, STATUS_AWAITING_INPUT);
    assert_eq!(record.chat.request_text, "");
    assert_eq!(record.chat.id, 3);
}

#[test]
fn sequence_out_of_order_is_refused() {
    let mut ctx = h_fresh(1, 0);
    assert_eq!(h_submit(&mut ctx, 0, Some("a"), None), Ok(206));
    assert_eq!(ctx.context_account.next_chat_id, 1);
    // the cell of chat 2, while chat 1 does not exist yet
    let mut skipping = CreateChat { chat_key: h_addr(62), chat: None, ..ctx.clone() };
    assert_eq!(h_submit(&mut skipping, 2, Some("c"), None), Err(CustomError::SequenceMismatch));
    assert_eq!(skipping.context_account.next_chat_id, 1);
    assert!(skipping.chat.is_none());
    // a used id is refused for a new cell too
    let mut reusing = CreateChat { chat_key: h_addr(63), chat: None, ..ctx.clone() };
    assert_eq!(h_submit(&mut reusing, 0, Some("c"), None), Err(CustomError::SequenceMismatch));
    // the next id is admitted
    let mut next = CreateChat { chat_key: h_addr(61), chat: None, ..ctx.clone() };
    assert_eq!(h_submit(&mut next, 1, Some("b"), None), Ok(206));
    assert_eq!(next.context_account.next_chat_id, 2);
    assert_eq!(h_record(&next).chat.id, 1);
}

#[test]
fn counter_overflow_is_refused() {
    let mut ctx = h_fresh(1, u64::MAX);
    assert_eq!(h_submit(&mut ctx, u64::MAX, Some("a"), None), Err(CustomError::CounterOverflow));
    assert_eq!(ctx.context_account.next_chat_id, u64::MAX);
    assert!(ctx.chat.is_none());
}

#[test]
fn last_id_before_overflow_is_admitted() {
    let mut ctx = h_fresh(1, u64::MAX - 1);
    assert!(h_submit(&mut ctx, u64::MAX - 1, Some("a"), None).is_ok());
    assert_eq!(ctx.context_account.next_chat_id, u64::MAX);
}

#[test]
fn foreign_context_is_refused() {
    let mut ctx = h_fresh(1, 0);
    ctx.payer = h_addr(2);
    assert_eq!(h_submit(&mut ctx, 0, Some("a"), None), Err(CustomError::ContextOwnerMismatch));
    assert_eq!(ctx.context_account.next_chat_id, 0);
    assert!(ctx.chat.is_none());
}

#[test]
fn update_rewrites_the_request() {
    let mut ctx = h_fresh(1, 0);
    h_submit(&mut ctx, 0, Some("hello"), Some(vec![h_meta(80, false, true)])).unwrap();
    assert_eq!(h_record(&ctx).space, 210 + 34);
    let grown = create_chat(
        &mut ctx,
        0,
        h_addr(17),
        h_addr(19),
        Some("hello again".to_string()),
        h_addr(71),
        [8, 7, 6, 5, 4, 3, 2, 1],
        Some(vec![h_meta(81, false, false), h_meta(82, false, true)]),
        1_800_000_000,
    );
    assert_eq!(grown, Ok(6 + 34));
    assert_eq!(ctx.context_account.next_chat_id, 1);
    let record = h_record(&ctx);
    assert_eq!(record.space, 210 + 34 + 6 + 34);
    assert_eq!(record.chat.request_text, "hello again");
    assert_eq!(record.chat.status, STATUS_PENDING);
    assert_eq!(record.chat.callback_program_id, h_addr(71));
    assert_eq!(record.chat.callback_discriminator, [8, 7, 6, 5, 4, 3, 2, 1]);
    assert_eq!(record.chat.callback_account_metas.len(), 2);
    assert_eq!(record.chat.callback_account_metas[1].pubkey, h_addr(82));
    assert!(record.chat.callback_account_metas[1].is_writable);
    // what was fixed at creation stays
    assert_eq!(record.chat.created_at, 1_700_000_000);
    assert_eq!(record.chat.cmk, h_addr(7));
    assert_eq!(record.chat.tx_id, h_addr(9));
    assert_eq!(record.chat.user, h_addr(1));
    assert_eq!(record.chat.context, h_addr(50));
    assert_eq!(record.chat.id, 0);
}

#[test]
fn update_without_text_clears_it() {
    let mut ctx = h_fresh(1, 0);
    h_submit(&mut ctx, 0, Some("hello"), None).unwrap();
    assert_eq!(h_submit(&mut ctx, 0, None, None), Ok(0));
    let record = h_record(&ctx);
    assert_eq!(record.chat.status, STATUS_AWAITING_INPUT);
    assert_eq!(record.chat.request_text, "");
    assert_eq!(record.space, 210);
}

#[test]
fn shorter_request_does_not_shrink_the_cell() {
    let mut ctx = h_fresh(1, 0);
    h_submit(&mut ctx, 0, Some("a long request"), None).unwrap();
    let before = h_record(&ctx).space;
    assert_eq!(h_submit(&mut ctx, 0, Some("short"), None), Ok(0));
    assert_eq!(h_record(&ctx).space, before);
}

#[test]
fn new_request_reopens_a_done_chat() {
    let mut ctx = h_fresh(1, 0);
    h_submit(&mut ctx, 0, Some("hello"), None).unwrap();
    ctx.chat.as_mut().unwrap().chat.status = STATUS_DONE;
    ctx.chat.as_mut().unwrap().chat.response_text = "hi".to_string();
    ctx.chat.as_mut().unwrap().space = 212;
    assert_eq!(h_submit(&mut ctx, 0, Some("more"), None), Ok(0));
    assert_eq!(h_record(&ctx).chat.status, STATUS_PENDING);
    assert_eq!(h_record(&ctx).chat.response_text, "hi");
}

#[test]
fn update_under_another_id_is_refused() {
    let mut ctx = h_fresh(1, 0);
    h_submit(&mut ctx, 0, Some("hello"), None).unwrap();
    assert_eq!(h_submit(&mut ctx, 1, Some("x"), None), Err(CustomError::SequenceIdMismatch));
    assert_eq!(h_record(&ctx).chat.request_text, "hello");
    assert_eq!(ctx.context_account.next_chat_id, 1);
}

#[test]
fn update_through_another_context_is_refused() {
    let mut ctx = h_fresh(1, 0);
    h_submit(&mut ctx, 0, Some("hello"), None).unwrap();
    ctx.context_key = h_addr(51);
    assert_eq!(h_submit(&mut ctx, 0, Some("x"), None), Err(CustomError::ContextMismatch));
    assert_eq!(h_record(&ctx).chat.request_text, "hello");
}

#[test]
fn text_at_the_limit_is_admitted_and_one_more_byte_is_not() {
    let at_limit = "a".repeat(MAX_TEXT_LEN);
    let mut ctx = h_fresh(1, 0);
    assert_eq!(h_submit(&mut ctx, 0, Some(&at_limit), None), Ok(205 + 1024));
    let over = "a".repeat(MAX_TEXT_LEN + 1);
    let mut ctx = h_fresh(1, 0);
    assert_eq!(h_submit(&mut ctx, 0, Some(&over), None), Err(CustomError::TextTooLong));
    assert!(ctx.chat.is_none());
    assert_eq!(ctx.context_account.next_chat_id, 0);
}

#[test]
fn text_length_counts_bytes() {
    // 512 two-byte characters fill the limit, 513 exceed it
    let fits = "\u{e9}".repeat(512);
    let mut ctx = h_fresh(1, 0);
    assert!(h_submit(&mut ctx, 0, Some(&fits), None).is_ok());
    let over = "\u{e9}".repeat(513);
    let mut ctx = h_fresh(1, 0);
    assert_eq!(h_submit(&mut ctx, 0, Some(&over), None), Err(CustomError::TextTooLong));
    assert_eq!(text_length(&"\u{e9}a".to_string()), 3);
    assert_eq!(text_length(&String::new()), 0);
}

#[test]
fn too_many_callback_accounts_are_refused() {
    let at_limit: Vec<AccountMeta> = (0..MAX_CALLBACK_ACCOUNTS).map(|i| h_meta(i as u8, false, false)).collect();
    let mut ctx = h_fresh(1, 0);
    assert_eq!(h_submit(&mut ctx, 0, None, Some(at_limit)), Ok(205 + 16 * 34));
    let over: Vec<AccountMeta> = (0..MAX_CALLBACK_ACCOUNTS + 1).map(|i| h_meta(i as u8, false, false)).collect();
    let mut ctx = h_fresh(1, 0);
    assert_eq!(h_submit(&mut ctx, 0, None, Some(over)), Err(CustomError::TooManyCallbackAccounts));
    assert!(ctx.chat.is_none());
}

#[test]
fn signing_callback_account_is_refused_on_create() {
    let mut ctx = h_fresh(1, 0);
    let metas = vec![h_meta(80, false, true), h_meta(81, true, false)];
    assert_eq!(h_submit(&mut ctx, 0, Some("a"), Some(metas)), Err(CustomError::IllegalSignerMeta));
    assert!(ctx.chat.is_none());
    assert_eq!(ctx.context_account.next_chat_id, 0);
}

#[test]
fn signing_callback_account_is_refused_on_update() {
    let mut ctx = h_fresh(1, 0);
    h_submit(&mut ctx, 0, Some("hello"), Some(vec![h_meta(80, false, true)])).unwrap();
    let metas = vec![h_meta(81, true, false)];
    assert_eq!(h_submit(&mut ctx, 0, Some("b"), Some(metas)), Err(CustomError::IllegalSignerMeta));
    let record = h_record(&ctx);
    assert_eq!(record.chat.request_text, "hello");
    assert_eq!(record.chat.callback_account_metas.len(), 1);
    assert!(!record.chat.callback_account_metas[0].is_signer);
}

#[test]
fn signing_callback_account_is_refused_before_anything_else() {
    // wrong id, wrong owner, too long a text and too long a list, all at once
    let mut ctx = h_fresh(1, 4);
    ctx.payer = h_addr(2);
    let mut metas: Vec<AccountMeta> = (0..20).map(|i| h_meta(i as u8, false, false)).collect();
    metas.push(h_meta(99, true, false));
    let over = "a".repeat(MAX_TEXT_LEN + 1);
    assert_eq!(h_submit(&mut ctx, 9, Some(&over), Some(metas)), Err(CustomError::IllegalSignerMeta));
}

#[test]
fn identical_update_is_idempotent() {
    let mut ctx = h_fresh(1, 0);
    h_submit(&mut ctx, 0, Some("hello"), None).unwrap();
    let metas = vec![h_meta(80, false, true)];
    h_submit(&mut ctx, 0, Some("again"), Some(metas.clone())).unwrap();
    let first = ctx.clone();
    assert_eq!(h_submit(&mut ctx, 0, Some("again"), Some(metas)), Ok(0));
    assert_eq!(ctx.context_account.next_chat_id, first.context_account.next_chat_id);
    let (a, b) = (h_record(&first), h_record(&ctx));
    assert_eq!(a.space, b.space);
    assert_eq!(a.authority, b.authority);
    assert_eq!(a.chat.status, b.chat.status);
    assert_eq!(a.chat.request_text, b.chat.request_text);
    assert_eq!(a.chat.response_text, b.chat.response_text);
    assert_eq!(a.chat.created_at, b.chat.created_at);
    assert_eq!(a.chat.callback_program_id, b.chat.callback_program_id);
    assert_eq!(a.chat.callback_discriminator, b.chat.callback_discriminator);
    assert_eq!(a.chat.callback_account_metas.len(), b.chat.callback_account_metas.len());
    assert_eq!(a.chat.callback_account_metas[0].pubkey, b.chat.callback_account_metas[0].pubkey);
}

#[test]
fn new_chat_at_the_rollup_venue_is_refused() {
    let mut ctx = h_fresh(1, 0);
    ctx.venue = Venue::Rollup;
    assert_eq!(h_submit(&mut ctx, 0, Some("a"), None), Err(CustomError::RecordDelegatedElsewhere));
    assert!(ctx.chat.is_none());
}

#[test]
fn chat_space_adds_the_sections() {
    assert_eq!(chat_space(0, 0, 0), 205);
    assert_eq!(chat_space(5, 2, 0), 212);
    assert_eq!(chat_space(5, 2, 3), 212 + 102);
    assert_eq!(chat_space(1024, 1024, 16), 205 + 2048 + 544);
}

#[test]
fn any_signer_finds_a_signing_entry() {
    assert!(!any_signer(&vec![]));
    assert!(!any_signer(&vec![h_meta(1, false, true), h_meta(2, false, false)]));
    assert!(any_signer(&vec![h_meta(1, false, true), h_meta(2, true, false)]));
}

#[test]
fn context_seed_is_the_word_context() {
    assert_eq!(ContextAccount::seed(), b"context".to_vec());
}
