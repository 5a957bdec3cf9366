use vstd::prelude::*;
use vstd::bytes::{spec_u32_to_le_bytes, u32_to_le_bytes};
use vstd::utf8::encode_utf8;
use crate::address::{address_equality, AccountInfo, AccountMeta, Address, Venue};
use crate::addressing::{
    capability_signer, derived_bytes, id, identity_seed, identity_seeds_of, identity_tag, oracle,
    oracle_identity, program_address, program_id, seed_bytes,
};
use crate::error::CustomError;
use crate::record::{
    chat_space, text_len, text_length, Chat, ChatRecord, ChatRecordView, ChatView,
    MAX_RESPONSE_LEN, STATUS_DONE, STATUS_PENDING,
};

verus! {

/// The accounts of `deliver_response`: the authenticated caller, the venue
/// the call runs at, the chat, the account supplied as the callback target,
/// and the further accounts the caller supplied for the callback.
#[derive(Clone, Debug)]
pub struct DeliverResponse {
    pub caller: Address,
    pub venue: Venue,
    pub chat: ChatRecord,
    pub program: AccountInfo,
    pub remaining_accounts: Vec<AccountInfo>,
}

/// What the accounts of `deliver_response` hold, as mathematical values.
pub struct DeliverResponseView {
    pub caller: Address,
    pub venue: Venue,
    pub chat: ChatRecordView,
    pub program: AccountInfo,
    pub remaining_accounts: Seq<AccountInfo>,
}

impl View for DeliverResponse {
    type V = DeliverResponseView;

    open spec fn view(&self) -> DeliverResponseView {
        DeliverResponseView {
            caller: self.caller,
            venue: self.venue,
            chat: self.chat@,
            program: self.program,
            remaining_accounts: self.remaining_accounts@,
        }
    }
}

/// An outbound call that the dispatcher has authorized. Only the dispatcher
/// makes one: its single signer is the capability signer, and everything
/// else in it comes from a chat that passed the dispatcher's checks.
#[derive(Debug)]
pub struct AuthorizedCall {
    program_id: Address,
    accounts: Vec<AccountMeta>,
    data: Vec<u8>,
    signer_seeds: Vec<Vec<u8>>,
}

/// What an authorized call holds, as mathematical values.
pub struct AuthorizedCallView {
    pub program_id: Address,
    pub accounts: Seq<AccountMeta>,
    pub data: Seq<u8>,
    pub signer_seeds: Seq<Seq<u8>>,
}

impl View for AuthorizedCall {
    type V = AuthorizedCallView;

    closed spec fn view(&self) -> AuthorizedCallView {
        AuthorizedCallView {
            program_id: self.program_id,
            accounts: self.accounts@,
            data: self.data@,
            signer_seeds: seed_bytes(self.signer_seeds@),
        }
    }
}

impl AuthorizedCall {
    /// The program to call.
    pub fn program_id(&self) -> (r: Address)
        ensures
            r == self@.program_id,
    {
        self.program_id
    }

    /// The accounts of the call, in order.
    pub fn accounts(&self) -> (r: &Vec<AccountMeta>)
        ensures
            r@ == self@.accounts,
    {
        &self.accounts
    }

    /// The bytes handed to the callee.
    pub fn data(&self) -> (r: &Vec<u8>)
        ensures
            r@ == self@.data,
    {
        &self.data
    }

    /// The seeds that authorize the call's one signer.
    pub fn signer_seeds(&self) -> (r: &Vec<Vec<u8>>)
        ensures
            seed_bytes(r@) == self@.signer_seeds,
    {
        &self.signer_seeds
    }
}

/// Some supplied account lives at the given address.
pub open spec fn holds_key(accounts: Seq<AccountInfo>, key: Address) -> bool {
    exists|i: int| 0 <= i < accounts.len() && (#[trigger] accounts[i]).key == key
}

/// The account at `i` is the first supplied account at the given address.
pub open spec fn is_first_match(accounts: Seq<AccountInfo>, key: Address, i: int) -> bool {
    &&& 0 <= i < accounts.len()
    &&& accounts[i].key == key
    &&& forall|j: int| 0 <= j < i ==> (#[trigger] accounts[j]).key != key
}

/// The supplied account that a recorded address resolves to: the first one
/// at that address.
pub open spec fn resolve(accounts: Seq<AccountInfo>, key: Address) -> AccountInfo {
    accounts[choose|i: int| is_first_match(accounts, key, i)]
}

/// Why one recorded callback account cannot go into the call, if it cannot.
pub open spec fn entry_error(meta: AccountMeta, accounts: Seq<AccountInfo>) -> Option<
    CustomError,
> {
    if meta.is_signer {
        Some(CustomError::IllegalSignerMeta)
    } else if !holds_key(accounts, meta.pubkey) {
        Some(CustomError::MissingAuxiliaryResource)
    } else if meta.is_writable && !resolve(accounts, meta.pubkey).is_writable {
        Some(CustomError::WritabilityMismatch)
    } else {
        None
    }
}

/// The error of the first recorded callback account that cannot go into the
/// call, if there is one.
pub open spec fn entries_error(metas: Seq<AccountMeta>, accounts: Seq<AccountInfo>) -> Option<
    CustomError,
>
    decreases metas.len(),
{
    if metas.len() == 0 {
        None
    } else {
        match entry_error(metas[0], accounts) {
            Some(e) => Some(e),
            None => entries_error(metas.drop_first(), accounts),
        }
    }
}

/// Why `deliver_response` refuses, if it does, given the capability signer
/// that was derived. The conditions stand in the order in which they are tried.
pub open spec fn deliver_error(
    pre: DeliverResponseView,
    signer: Option<(Address, u8)>,
    response: Seq<char>,
) -> Option<CustomError> {
    if pre.caller != oracle_identity() {
        Some(CustomError::Unauthorized)
    } else if pre.chat.authority != pre.venue {
        Some(CustomError::RecordDelegatedElsewhere)
    } else if pre.program.key != pre.chat.chat.callback_program_id || !pre.program.executable {
        Some(CustomError::TargetNotExecutable)
    } else if pre.chat.chat.status == STATUS_DONE {
        Some(CustomError::AlreadyProcessed)
    } else if text_len(response) > MAX_RESPONSE_LEN {
        Some(CustomError::ResponseTooLong)
    } else if holds_key(pre.remaining_accounts, pre.caller) {
        Some(CustomError::WorkerIdentityLeaked)
    } else if entries_error(pre.chat.chat.callback_account_metas, pre.remaining_accounts) is Some {
        entries_error(pre.chat.chat.callback_account_metas, pre.remaining_accounts)
    } else if signer is None {
        Some(CustomError::Unauthorized)
    } else {
        None
    }
}

/// The chat after an accepted delivery.
pub open spec fn delivered_chat(chat: ChatView, response: Seq<char>, is_processed: bool)
    -> ChatView {
    ChatView {
        response_text: response,
        status: if is_processed {
            STATUS_DONE
        } else {
            STATUS_PENDING
        },
        ..chat
    }
}

/// The record after an accepted delivery: the response is written, and the
/// cell has grown to hold it where it had to.
pub open spec fn delivered_record(record: ChatRecordView, response: Seq<char>, is_processed: bool)
    -> ChatRecordView {
    let chat = delivered_chat(record.chat, response, is_processed);
    ChatRecordView {
        space: if record.space >= chat.space() {
            record.space
        } else {
            chat.space()
        },
        chat,
        ..record
    }
}

/// The recorded callback accounts as they go into the call: none signs.
pub open spec fn relayed(metas: Seq<AccountMeta>) -> Seq<AccountMeta> {
    Seq::new(
        metas.len(),
        |i: int| AccountMeta { pubkey: metas[i].pubkey, is_signer: false, is_writable: metas[i].is_writable },
    )
}

/// The bytes handed to the callee: the routing tag, then the response with
/// its length in front, as four bytes, lowest first.
pub open spec fn call_data(tag: [u8; 8], response: Seq<char>) -> Seq<u8> {
    tag@ + spec_u32_to_le_bytes(text_len(response) as u32) + encode_utf8(response)
}

/// The call that an accepted delivery authorizes: to the recorded target,
/// with the capability signer as its first and only signing account, then
/// the recorded accounts in their order.
pub open spec fn callback_call(chat: ChatView, signer: (Address, u8), response: Seq<char>)
    -> AuthorizedCallView {
    AuthorizedCallView {
        program_id: chat.callback_program_id,
        accounts: seq![AccountMeta { pubkey: signer.0, is_signer: true, is_writable: false }]
            + relayed(chat.callback_account_metas),
        data: call_data(chat.callback_discriminator, response),
        signer_seeds: seq![identity_tag(), seq![signer.1]],
    }
}

/// The address with the given bytes.
pub open spec fn address_from(bytes: Seq<u8>) -> Address {
    choose|a: Address| a@ == bytes
}

/// The capability signer of a program, as the address system derives it.
pub open spec fn signer_of(program: Address) -> Option<(Address, u8)> {
    match program_address(identity_seeds_of(), program@) {
        Some((bytes, bump)) => Some((address_from(bytes), bump)),
        None => None,
    }
}

/// The index of the first supplied account at the given address.
pub fn find_account(accounts: &Vec<AccountInfo>, key: &Address) -> (r: Option<usize>)
    ensures
        match r {
            Some(i) => is_first_match(accounts@, *key, i as int),
            None => !holds_key(accounts@, *key),
        },
{
    let mut i: usize = 0;
    while i < accounts.len()
        invariant
            i <= accounts.len(),
            forall|j: int| 0 <= j < i ==> (#[trigger] accounts@[j]).key != *key,
        decreases accounts.len() - i,
    {
        if accounts[i].key == *key {
            return Some(i);
        }
        i += 1;
    }
    None
}

/// Checks one recorded callback account against the supplied accounts.
pub fn check_entry(meta: &AccountMeta, accounts: &Vec<AccountInfo>) -> (r: Result<
    (),
    CustomError,
>)
    ensures
        match r {
            Ok(()) => entry_error(*meta, accounts@) is None,
            Err(e) => entry_error(*meta, accounts@) == Some(e),
        },
{
    if meta.is_signer {
        return Err(CustomError::IllegalSignerMeta);
    }
    match find_account(accounts, &meta.pubkey) {
        None => Err(CustomError::MissingAuxiliaryResource),
        Some(i) => {
            proof {
                let k = choose|k: int| is_first_match(accounts@, meta.pubkey, k);
                assert(is_first_match(accounts@, meta.pubkey, i as int));
                assert(k == i) by {
                    if k < i {
                        assert(accounts@[k].key != meta.pubkey);
                    }
                    if i < k {
                        assert(accounts@[i as int].key != meta.pubkey);
                    }
                }
            }
            if meta.is_writable && !accounts[i].is_writable {
                Err(CustomError::WritabilityMismatch)
            } else {
                Ok(())
            }
        },
    }
}

/// Checks every recorded callback account, in order, and returns them as
/// they go into the call.
pub fn relay_accounts(metas: &Vec<AccountMeta>, accounts: &Vec<AccountInfo>) -> (r: Result<
    Vec<AccountMeta>,
    CustomError,
>)
    ensures
        match r {
            Ok(out) => entries_error(metas@, accounts@) is None && out@ == relayed(metas@),
            Err(e) => entries_error(metas@, accounts@) == Some(e),
        },
{
    let mut out: Vec<AccountMeta> = Vec::new();
    let mut i: usize = 0;
    assert(metas@.subrange(0, metas@.len() as int) =~= metas@);
    while i < metas.len()
        invariant
            i <= metas.len(),
            entries_error(metas@, accounts@) == entries_error(
                metas@.subrange(i as int, metas@.len() as int),
                accounts@,
            ),
            out@.len() == i,
            forall|j: int| 0 <= j < i ==> out@[j] == relayed(metas@)[j],
        decreases metas.len() - i,
    {
        let ghost rest = metas@.subrange(i as int, metas@.len() as int);
        assert(rest[0] == metas@[i as int]);
        assert(rest.drop_first() =~= metas@.subrange(i + 1, metas@.len() as int));
        match check_entry(&metas[i], accounts) {
            Err(e) => {
                return Err(e);
            },
            Ok(()) => {},
        }
        out.push(
            AccountMeta { pubkey: metas[i].pubkey, is_signer: false, is_writable: metas[i].is_writable },
        );
        i += 1;
    }
    assert(out@ =~= relayed(metas@));
    Ok(out)
}

/// The bytes handed to the callee for a response.
pub fn encode_call(tag: &[u8; 8], response: &String) -> (r: Vec<u8>)
    requires
        text_len(response@) <= MAX_RESPONSE_LEN,
    ensures
        r@ == call_data(*tag, response@),
{
    let mut data: Vec<u8> = Vec::new();
    let mut i: usize = 0;
    while i < 8
        invariant
            i <= 8,
            data@ == tag@.subrange(0, i as int),
        decreases 8 - i,
    {
        data.push(tag[i]);
        assert(data@ =~= tag@.subrange(0, i + 1));
        i += 1;
    }
    assert(data@ =~= tag@);
    let bytes = response.as_str().as_bytes();
    let len = u32_to_le_bytes(bytes.len() as u32);
    data.extend_from_slice(len.as_slice());
    data.extend_from_slice(bytes);
    data
}

/// Delivers the worker's response with the capability signer already
/// derived: checks the call, writes the response and the new status into the
/// chat, and returns the authorized callback together with the number of
/// bytes by which the cell had to grow. A refused call changes nothing.
pub fn deliver_with_signer(
    ctx: &mut DeliverResponse,
    signer: Option<(Address, u8)>,
    response: String,
    is_processed: bool,
) -> (r: Result<(AuthorizedCall, usize), CustomError>)
    requires
        old(ctx).chat@.chat.bounded(),
    ensures
        match r {
            Ok((call, grown)) => {
                &&& deliver_error(old(ctx)@, signer, response@) is None
                &&& final(ctx)@ == (DeliverResponseView {
                    chat: delivered_record(old(ctx)@.chat, response@, is_processed),
                    ..old(ctx)@
                })
                &&& call@ == callback_call(old(ctx)@.chat.chat, signer->0, response@)
                &&& grown == final(ctx)@.chat.space - old(ctx)@.chat.space
            },
            Err(e) => {
                &&& deliver_error(old(ctx)@, signer, response@) == Some(e)
                &&& final(ctx)@ == old(ctx)@
            },
        },
{
    if ctx.caller != oracle() {
        return Err(CustomError::Unauthorized);
    }
    if ctx.chat.authority != ctx.venue {
        return Err(CustomError::RecordDelegatedElsewhere);
    }
    if ctx.program.key != ctx.chat.chat.callback_program_id || !ctx.program.executable {
        return Err(CustomError::TargetNotExecutable);
    }
    if ctx.chat.chat.status == STATUS_DONE {
        return Err(CustomError::AlreadyProcessed);
    }
    let response_len: usize = text_length(&response);
    if response_len > MAX_RESPONSE_LEN {
        return Err(CustomError::ResponseTooLong);
    }
    if find_account(&ctx.remaining_accounts, &ctx.caller).is_some() {
        return Err(CustomError::WorkerIdentityLeaked);
    }
    let relayed_accounts = match relay_accounts(
        &ctx.chat.chat.callback_account_metas,
        &ctx.remaining_accounts,
    ) {
        Err(e) => {
            return Err(e);
        },
        Ok(out) => out,
    };
    let (signer_key, bump) = match signer {
        None => {
            return Err(CustomError::Unauthorized);
        },
        Some(found) => found,
    };
    let mut accounts: Vec<AccountMeta> = Vec::new();
    accounts.push(AccountMeta { pubkey: signer_key, is_signer: true, is_writable: false });
    let mut relayed_accounts = relayed_accounts;
    accounts.append(&mut relayed_accounts);
    let data = encode_call(&ctx.chat.chat.callback_discriminator, &response);
    let mut signer_seeds: Vec<Vec<u8>> = Vec::new();
    signer_seeds.push(identity_seed());
    let bump_seed: Vec<u8> = vec![bump];
    assert(bump_seed@ =~= seq![bump]);
    signer_seeds.push(bump_seed);
    let call = AuthorizedCall {
        program_id: ctx.chat.chat.callback_program_id,
        accounts,
        data,
        signer_seeds,
    };
    let request_len: usize = text_length(&ctx.chat.chat.request_text);
    let needed: usize = chat_space(
        request_len,
        response_len,
        ctx.chat.chat.callback_account_metas.len(),
    );
    let grown: usize = if ctx.chat.space >= needed { 0 } else { needed - ctx.chat.space };
    if ctx.chat.space < needed {
        ctx.chat.space = needed;
    }
    ctx.chat.chat.response_text = response;
    ctx.chat.chat.status = if is_processed { STATUS_DONE } else { STATUS_PENDING };
    proof {
        assert(call@.accounts =~= callback_call(old(ctx)@.chat.chat, signer->0, response@).accounts);
        assert(call@.signer_seeds =~= seq![identity_tag(), seq![bump]]);
    }
    Ok((call, grown))
}

/// Delivers the worker's response: derives the program's capability signer
/// and goes on as `deliver_with_signer` does.
pub fn deliver_response(ctx: &mut DeliverResponse, response: String, is_processed: bool) -> (r:
    Result<(AuthorizedCall, usize), CustomError>)
    requires
        old(ctx).chat@.chat.bounded(),
    ensures
        match r {
            Ok((call, grown)) => {
                &&& deliver_error(old(ctx)@, signer_of(program_id()), response@) is None
                &&& final(ctx)@ == (DeliverResponseView {
                    chat: delivered_record(old(ctx)@.chat, response@, is_processed),
                    ..old(ctx)@
                })
                &&& call@ == callback_call(
                    old(ctx)@.chat.chat,
                    signer_of(program_id())->0,
                    response@,
                )
                &&& grown == final(ctx)@.chat.space - old(ctx)@.chat.space
            },
            Err(e) => {
                &&& deliver_error(old(ctx)@, signer_of(program_id()), response@) == Some(e)
                &&& final(ctx)@ == old(ctx)@
            },
        },
{
    let program = id();
    let signer = capability_signer(&program);
    proof {
        derived_signer_is_signer_of(program, signer);
    }
    deliver_with_signer(ctx, signer, response, is_processed)
}

/// A derivation that gave the bytes the address system defines gave the
/// program's capability signer.
pub proof fn derived_signer_is_signer_of(program: Address, found: Option<(Address, u8)>)
    requires
        derived_bytes(found) == program_address(identity_seeds_of(), program@),
    ensures
        found == signer_of(program),
{
    match found {
        Some((address, bump)) => {
            let chosen = address_from(address@);
            assert(chosen@ == address@);
            address_equality(chosen, address);
        },
        None => {},
    }
}

} // verus!
