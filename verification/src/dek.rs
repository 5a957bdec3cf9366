use vstd::prelude::*;
use hkdf::Hkdf;
use sha2::Sha256;
use crate::address::Address;
use crate::error::CustomError;
use crate::record::ChatRecord;
use crate::status::{is_reader, may_read};

verus! {

/// The error with which hkdf refuses an output length.
#[verifier::external_type_specification]
#[verifier::external_body]
pub struct ExInvalidLength(hkdf::InvalidLength);

/// The 32 bytes of output key material that HKDF with SHA-256 and no salt
/// derives from the input key material and the info.
pub uninterp spec fn hkdf_sha256(ikm: Seq<u8>, info: Seq<u8>) -> Seq<u8>;

/// Calls `Hkdf::<Sha256>::new` without a salt and `expand` on its result,
/// for 32 bytes of output. Trusted: the output is a function of the key
/// material and the info alone, and `expand` refuses only outputs longer
/// than 255 hash lengths, so it delivers here.
#[verifier::external_body]
fn hkdf_expand(ikm: &Vec<u8>, info: &Vec<u8>) -> (r: Result<[u8; 32], hkdf::InvalidLength>)
    ensures
        r is Ok,
        r->Ok_0@ == hkdf_sha256(ikm@, info@),
{
    let kdf = Hkdf::<Sha256>::new(None, ikm.as_slice());
    let mut okm = [0u8; 32];
    kdf.expand(info.as_slice(), &mut okm).map(|_| okm)
}

/// The data encryption key of a chat, handed to a caller allowed to read it.
#[derive(Clone, Copy, Debug)]
pub struct DekResponse {
    pub chat: Address,
    pub chat_id: u64,
    pub dek: [u8; 32],
}

/// The accounts of `get_dek`: the authenticated caller and the chat.
#[derive(Clone, Debug)]
pub struct GetDek {
    pub caller: Address,
    pub chat: ChatRecord,
}

/// The bytes of "file:".
pub open spec fn file_tag() -> Seq<u8> {
    seq![102u8, 105u8, 108u8, 101u8, 58u8]
}

/// The info under which a chat's key is derived: "file:", then the chat's
/// transaction id.
pub open spec fn dek_info(tx_id: Address) -> Seq<u8> {
    file_tag() + tx_id@
}

/// The info under which a chat's key is derived.
pub fn key_info(tx_id: &Address) -> (r: Vec<u8>)
    ensures
        r@ == dek_info(*tx_id),
{
    let mut info: Vec<u8> = vec![102u8, 105u8, 108u8, 101u8, 58u8];
    let mut id_bytes = tx_id.to_bytes();
    info.append(&mut id_bytes);
    info
}

/// Turns the outcome of the key derivation into the answer for the caller.
pub fn dek_response(record: &ChatRecord, okm: Result<[u8; 32], hkdf::InvalidLength>) -> (r:
    Result<DekResponse, CustomError>)
    ensures
        match okm {
            Ok(dek) => r == Ok::<DekResponse, CustomError>(
                DekResponse { chat: record.key, chat_id: record.chat.id, dek },
            ),
            Err(_) => r == Err::<DekResponse, CustomError>(CustomError::HkdfExpandFailed),
        },
{
    match okm {
        Ok(dek) => Ok(DekResponse { chat: record.key, chat_id: record.chat.id, dek }),
        Err(_) => Err(CustomError::HkdfExpandFailed),
    }
}

/// Derives the data encryption key of a chat from the chat's master key and
/// transaction id, for the chat's user or the registered worker.
pub fn get_dek(ctx: &GetDek) -> (r: Result<DekResponse, CustomError>)
    ensures
        match r {
            Ok(answer) => {
                &&& may_read(ctx.chat@, ctx.caller)
                &&& answer.chat == ctx.chat.key
                &&& answer.chat_id == ctx.chat.chat.id
                &&& answer.dek@ == hkdf_sha256(ctx.chat.chat.cmk@, dek_info(ctx.chat.chat.tx_id))
            },
            Err(e) => e == CustomError::Unauthorized && !may_read(ctx.chat@, ctx.caller),
        },
{
    if !is_reader(&ctx.chat, &ctx.caller) {
        return Err(CustomError::Unauthorized);
    }
    let ikm = ctx.chat.chat.cmk.to_bytes();
    let info = key_info(&ctx.chat.chat.tx_id);
    let okm = hkdf_expand(&ikm, &info);
    dek_response(&ctx.chat, okm)
}

} // verus!
