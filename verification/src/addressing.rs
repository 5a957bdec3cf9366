use vstd::prelude::*;
use vstd::bytes::{spec_u64_to_le_bytes, u64_to_le_bytes};
use anchor_lang::prelude::Pubkey;
use crate::address::Address;
use crate::record::ContextAccount;

verus! {

/// The derived address and bump seed that the ledger's address system
/// assigns to a list of seeds under a program, if it assigns one.
pub uninterp spec fn program_address(seeds: Seq<Seq<u8>>, program_id: Seq<u8>) -> Option<
    (Seq<u8>, u8),
>;

/// The bytes of each seed of a list.
pub open spec fn seed_bytes(seeds: Seq<Vec<u8>>) -> Seq<Seq<u8>> {
    Seq::new(seeds.len(), |i: int| seeds[i]@)
}

/// The address a derivation gave, as bytes.
pub open spec fn derived_bytes(found: Option<(Address, u8)>) -> Option<(Seq<u8>, u8)> {
    match found {
        Some((address, bump)) => Some((address@, bump)),
        None => None,
    }
}

/// Calls `Pubkey::try_find_program_address` of anchor_lang. Trusted: the
/// result is the derivation that the ledger's address system defines for
/// these seeds and this program, a function of the two alone.
#[verifier::external_body]
fn try_find_program_address(seeds: &Vec<Vec<u8>>, program_id: &Address) -> (r: Option<
    (Address, u8),
>)
    ensures
        derived_bytes(r) == program_address(seed_bytes(seeds@), program_id@),
{
    let parts: Vec<&[u8]> = seeds.iter().map(|s| s.as_slice()).collect();
    let program = Pubkey::new_from_array(program_id.bytes);
    let found = Pubkey::try_find_program_address(&parts, &program);
    found.map(|(key, bump)| (Address { bytes: key.to_bytes() }, bump))
}

/// The program that owns the records: 9Sg7UG96gVEPChRdT5Y6DKeaiMV5eTYm1phsWArna98t.
pub fn id() -> (r: Address)
    ensures
        r == program_id(),
{
    Address {
        bytes: [
            125u8, 113u8, 61u8, 60u8, 231u8, 68u8, 249u8, 191u8, 65u8, 156u8, 172u8, 217u8, 75u8,
            33u8, 103u8, 114u8, 217u8, 14u8, 55u8, 76u8, 86u8, 25u8, 212u8, 121u8, 20u8, 216u8,
            148u8, 201u8, 129u8, 118u8, 192u8, 65u8,
        ],
    }
}

/// The program that owns the records.
pub open spec fn program_id() -> Address {
    Address {
        bytes: [
            125u8, 113u8, 61u8, 60u8, 231u8, 68u8, 249u8, 191u8, 65u8, 156u8, 172u8, 217u8, 75u8,
            33u8, 103u8, 114u8, 217u8, 14u8, 55u8, 76u8, 86u8, 25u8, 212u8, 121u8, 20u8, 216u8,
            148u8, 201u8, 129u8, 118u8, 192u8, 65u8,
        ],
    }
}

/// The registered worker: 62JLkPeE4oG65LRB3W3m52RVicmYq3xFHdv7TecCsPj5.
pub open spec fn oracle_identity() -> Address {
    Address {
        bytes: [
            74u8, 159u8, 159u8, 84u8, 232u8, 114u8, 102u8, 109u8, 124u8, 61u8, 141u8, 214u8, 224u8,
            109u8, 230u8, 126u8, 197u8, 248u8, 149u8, 60u8, 12u8, 100u8, 97u8, 253u8, 89u8, 53u8,
            83u8, 212u8, 141u8, 72u8, 251u8, 64u8,
        ],
    }
}

/// The registered worker.
pub fn oracle() -> (r: Address)
    ensures
        r == oracle_identity(),
{
    Address {
        bytes: [
            74u8, 159u8, 159u8, 84u8, 232u8, 114u8, 102u8, 109u8, 124u8, 61u8, 141u8, 214u8, 224u8,
            109u8, 230u8, 126u8, 197u8, 248u8, 149u8, 60u8, 12u8, 100u8, 97u8, 253u8, 89u8, 53u8,
            83u8, 212u8, 141u8, 72u8, 251u8, 64u8,
        ],
    }
}

/// The namespace tag of chat records: the bytes of "chat".
pub open spec fn chat_tag() -> Seq<u8> {
    seq![99u8, 104u8, 97u8, 116u8]
}

/// The namespace tag of context records: the bytes of "context".
pub open spec fn context_tag() -> Seq<u8> {
    seq![99u8, 111u8, 110u8, 116u8, 101u8, 120u8, 116u8]
}

/// The namespace tag of the capability signer: the bytes of "identity".
pub open spec fn identity_tag() -> Seq<u8> {
    seq![105u8, 100u8, 101u8, 110u8, 116u8, 105u8, 116u8, 121u8]
}

/// The namespace tag of chat records.
pub fn chat_seed() -> (r: Vec<u8>)
    ensures
        r@ == chat_tag(),
{
    vec![99u8, 104u8, 97u8, 116u8]
}

/// The namespace tag of the capability signer.
pub fn identity_seed() -> (r: Vec<u8>)
    ensures
        r@ == identity_tag(),
{
    vec![105u8, 100u8, 101u8, 110u8, 116u8, 105u8, 116u8, 121u8]
}

/// The seeds of an owner's context: the tag, then the owner.
pub open spec fn context_seeds_of(owner: Address) -> Seq<Seq<u8>> {
    seq![context_tag(), owner@]
}

/// The seeds of a chat: the tag, the context's address, and the id as eight
/// bytes, lowest first.
pub open spec fn chat_seeds_of(context_key: Address, chat_id: u64) -> Seq<Seq<u8>> {
    seq![chat_tag(), context_key@, spec_u64_to_le_bytes(chat_id)]
}

/// The seeds of the capability signer: the tag alone.
pub open spec fn identity_seeds_of() -> Seq<Seq<u8>> {
    seq![identity_tag()]
}

/// The seeds of an owner's context.
pub fn context_seeds(owner: &Address) -> (r: Vec<Vec<u8>>)
    ensures
        seed_bytes(r@) == context_seeds_of(*owner),
{
    let mut seeds: Vec<Vec<u8>> = Vec::new();
    seeds.push(ContextAccount::seed());
    seeds.push(owner.to_bytes());
    assert(seed_bytes(seeds@) =~= context_seeds_of(*owner));
    seeds
}

/// The seeds of a chat.
pub fn chat_seeds(context_key: &Address, chat_id: u64) -> (r: Vec<Vec<u8>>)
    ensures
        seed_bytes(r@) == chat_seeds_of(*context_key, chat_id),
{
    let mut seeds: Vec<Vec<u8>> = Vec::new();
    seeds.push(chat_seed());
    seeds.push(context_key.to_bytes());
    seeds.push(u64_to_le_bytes(chat_id));
    assert(seed_bytes(seeds@) =~= chat_seeds_of(*context_key, chat_id));
    seeds
}

/// The seeds of the capability signer.
pub fn identity_seeds() -> (r: Vec<Vec<u8>>)
    ensures
        seed_bytes(r@) == identity_seeds_of(),
{
    let mut seeds: Vec<Vec<u8>> = Vec::new();
    seeds.push(identity_seed());
    assert(seed_bytes(seeds@) =~= identity_seeds_of());
    seeds
}

/// Where the context of an owner lives under a program.
pub fn context_address(owner: &Address, program: &Address) -> (r: Option<(Address, u8)>)
    ensures
        derived_bytes(r) == program_address(context_seeds_of(*owner), program@),
{
    let seeds = context_seeds(owner);
    try_find_program_address(&seeds, program)
}

/// Where the chat with the given id of a context lives under a program.
pub fn chat_address(context_key: &Address, chat_id: u64, program: &Address) -> (r: Option<
    (Address, u8),
>)
    ensures
        derived_bytes(r) == program_address(chat_seeds_of(*context_key, chat_id), program@),
{
    let seeds = chat_seeds(context_key, chat_id);
    try_find_program_address(&seeds, program)
}

/// The capability signer of a program: an address that only the program
/// itself can sign for, and the bump seed that completes its seeds.
pub fn capability_signer(program: &Address) -> (r: Option<(Address, u8)>)
    ensures
        derived_bytes(r) == program_address(identity_seeds_of(), program@),
{
    let seeds = identity_seeds();
    try_find_program_address(&seeds, program)
}

} // verus!
