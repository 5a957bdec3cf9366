use vstd::prelude::*;
use vstd::bytes::{
    lemma_auto_spec_u32_to_from_le_bytes, lemma_auto_spec_u64_to_from_le_bytes,
    spec_u32_to_le_bytes, spec_u64_to_le_bytes, u32_from_le_bytes, u64_from_le_bytes,
};
use vstd::slice::{slice_subrange, slice_to_vec};
use vstd::utf8::{encode_utf8, encode_utf8_decode_utf8, encode_utf8_valid_utf8, valid_utf8};
use crate::address::{address_equality, AccountMeta, Address};
use crate::layout::{
    chat_bytes, chat_record_tag, context_bytes, context_record_tag, flag_byte, i64_bits,
    meta_bytes, metas_bytes, stored_at_front, stored_meta, stored_parts, stored_sizes,
    CONTEXT_SPACE,
};
use crate::record::{
    text_len, Chat, ChatView, ContextAccount, MAX_CALLBACK_ACCOUNTS, MAX_RESPONSE_LEN,
    MAX_TEXT_LEN,
};

verus! {

/// Calls `String::from_utf8` of std. Trusted: std gives back the text whose
/// UTF-8 encoding is the input, and refuses exactly the inputs that are not
/// UTF-8.
#[verifier::external_body]
fn string_from_utf8(bytes: Vec<u8>) -> (r: Option<String>)
    ensures
        match r {
            Some(text) => encode_utf8(text@) == bytes@,
            None => !valid_utf8(bytes@),
        },
{
    String::from_utf8(bytes).ok()
}

/// The signed number with the same 64 bits as an unsigned one.
pub fn from_bits(u: u64) -> (r: i64)
    ensures
        i64_bits(r) == u,
{
    if u < 0x8000_0000_0000_0000u64 {
        u as i64
    } else {
        ((u - 0x8000_0000_0000_0000u64) as i64) + i64::MIN
    }
}

fn take_address(bytes: &[u8], at: usize) -> (r: Address)
    requires
        at + 32 <= bytes@.len() <= usize::MAX,
    ensures
        r@ == bytes@.subrange(at as int, at + 32),
{
    let mut raw = [0u8; 32];
    let mut i: usize = 0;
    while i < 32
        invariant
            i <= 32,
            at + 32 <= bytes@.len() <= usize::MAX,
            forall|j: int| 0 <= j < i ==> raw@[j] == bytes@[at + j],
        decreases 32 - i,
    {
        raw[i] = bytes[at + i];
        i += 1;
    }
    let r = Address { bytes: raw };
    assert(r@ =~= bytes@.subrange(at as int, at + 32));
    r
}

fn take_tag(bytes: &[u8], at: usize) -> (r: [u8; 8])
    requires
        at + 8 <= bytes@.len() <= usize::MAX,
    ensures
        r@ == bytes@.subrange(at as int, at + 8),
{
    let mut raw = [0u8; 8];
    let mut i: usize = 0;
    while i < 8
        invariant
            i <= 8,
            at + 8 <= bytes@.len() <= usize::MAX,
            forall|j: int| 0 <= j < i ==> raw@[j] == bytes@[at + j],
        decreases 8 - i,
    {
        raw[i] = bytes[at + i];
        i += 1;
    }
    assert(raw@ =~= bytes@.subrange(at as int, at + 8));
    raw
}

fn take_u64(bytes: &[u8], at: usize) -> (r: u64)
    requires
        at + 8 <= bytes@.len() <= usize::MAX,
    ensures
        spec_u64_to_le_bytes(r) == bytes@.subrange(at as int, at + 8),
{
    proof {
        lemma_auto_spec_u64_to_from_le_bytes();
    }
    u64_from_le_bytes(slice_subrange(bytes, at, at + 8))
}

fn take_u32(bytes: &[u8], at: usize) -> (r: u32)
    requires
        at + 4 <= bytes@.len() <= usize::MAX,
    ensures
        spec_u32_to_le_bytes(r) == bytes@.subrange(at as int, at + 4),
{
    proof {
        lemma_auto_spec_u32_to_from_le_bytes();
    }
    u32_from_le_bytes(slice_subrange(bytes, at, at + 4))
}

fn take_flag(bytes: &[u8], at: usize) -> (r: Option<bool>)
    requires
        at < bytes@.len(),
    ensures
        match r {
            Some(flag) => flag_byte(flag) == bytes@[at as int],
            None => bytes@[at as int] > 1,
        },
{
    let byte = bytes[at];
    if byte == 0 {
        Some(false)
    } else if byte == 1 {
        Some(true)
    } else {
        None
    }
}

fn take_text(bytes: &[u8], at: usize, len: usize) -> (r: Option<String>)
    requires
        at + len <= bytes@.len() <= usize::MAX,
    ensures
        match r {
            Some(text) => encode_utf8(text@) == bytes@.subrange(at as int, at + len),
            None => !valid_utf8(bytes@.subrange(at as int, at + len)),
        },
{
    string_from_utf8(slice_to_vec(slice_subrange(bytes, at, at + len)))
}

/// One of the two flags of the stored callback account `i` is not a flag.
spec fn bad_flag(bytes: Seq<u8>, at: int, i: int) -> bool {
    bytes[at + 34 * i + 32] > 1 || bytes[at + 34 * i + 33] > 1
}

fn take_metas(bytes: &[u8], at: usize, count: usize) -> (r: Option<Vec<AccountMeta>>)
    requires
        count <= MAX_CALLBACK_ACCOUNTS,
        at + 34 * count <= bytes@.len() <= usize::MAX,
    ensures
        match r {
            Some(metas) => metas@.len() == count && metas_bytes(metas@) == bytes@.subrange(
                at as int,
                at + 34 * count,
            ),
            None => exists|i: int| 0 <= i < count && #[trigger] bad_flag(bytes@, at as int, i),
        },
{
    let mut metas: Vec<AccountMeta> = Vec::new();
    let mut i: usize = 0;
    assert(metas_bytes(metas@) =~= bytes@.subrange(at as int, at + 0));
    while i < count
        invariant
            i <= count,
            count <= MAX_CALLBACK_ACCOUNTS,
            at + 34 * count <= bytes@.len() <= usize::MAX,
            metas@.len() == i,
            metas_bytes(metas@) == bytes@.subrange(at as int, at + 34 * i),
        decreases count - i,
    {
        let start: usize = at + 34 * i;
        let pubkey = take_address(bytes, start);
        let is_signer = match take_flag(bytes, start + 32) {
            Some(flag) => flag,
            None => {
                assert(bad_flag(bytes@, at as int, i as int));
                return None;
            },
        };
        let is_writable = match take_flag(bytes, start + 33) {
            Some(flag) => flag,
            None => {
                assert(bad_flag(bytes@, at as int, i as int));
                return None;
            },
        };
        let meta = AccountMeta { pubkey, is_signer, is_writable };
        let ghost before = metas@;
        metas.push(meta);
        proof {
            assert(metas@.drop_last() =~= before);
            assert(metas@.last() == meta);
            assert(meta_bytes(meta) =~= bytes@.subrange(start as int, start + 34));
            assert(metas_bytes(metas@) =~= bytes@.subrange(at as int, at + 34 * (i + 1)));
        }
        i += 1;
    }
    Some(metas)
}

/// The lengths written in the bytes, as far as they have been read.
spec fn lengths_read(bytes: Seq<u8>, n: u32, m: Option<u32>, k: Option<u32>) -> bool {
    &&& bytes.len() >= 205
    &&& spec_u32_to_le_bytes(n) == bytes.subrange(193, 197)
    &&& m is Some ==> {
        &&& bytes.len() >= 205 + n
        &&& spec_u32_to_le_bytes(m->0) == bytes.subrange(197 + n, 201 + n)
    }
    &&& k is Some ==> {
        &&& m is Some
        &&& bytes.len() >= 205 + n + m->0
        &&& spec_u32_to_le_bytes(k->0) == bytes.subrange(201 + n + m->0, 205 + n + m->0)
    }
}

/// A chat stored at the front of the bytes has the lengths that are written
/// in the bytes.
proof fn lengths_agree(c: ChatView, bytes: Seq<u8>, n: u32, m: Option<u32>, k: Option<u32>)
    requires
        c.bounded(),
        stored_at_front(c, bytes),
        lengths_read(bytes, n, m, k),
    ensures
        text_len(c.request_text) == n,
        m is Some ==> text_len(c.response_text) == m->0,
        k is Some ==> c.callback_account_metas.len() == k->0,
        bytes.len() >= 205 + text_len(c.request_text) + text_len(c.response_text) + 34
            * c.callback_account_metas.len(),
{
    lemma_auto_spec_u32_to_from_le_bytes();
    stored_parts(c, bytes);
    assert(text_len(c.request_text) as u32 == n);
    if m is Some {
        assert(text_len(c.response_text) as u32 == m->0);
        if k is Some {
            assert(c.callback_account_metas.len() as u32 == k->0);
        }
    }
}

/// Bytes that are too short, or do not begin with the tag of a chat, begin
/// with no stored chat.
proof fn no_chat_without_tag(bytes: Seq<u8>)
    requires
        bytes.len() < 205 || bytes.subrange(0, 8) != chat_record_tag(),
    ensures
        forall|c: ChatView| c.bounded() ==> !stored_at_front(c, bytes),
{
    assert forall|c: ChatView| c.bounded() implies !stored_at_front(c, bytes) by {
        if stored_at_front(c, bytes) {
            stored_parts(c, bytes);
        }
    }
}

/// Bytes in which a length is written that is over its bound, or that
/// reaches past their end, begin with no stored chat.
proof fn no_chat_with_length(bytes: Seq<u8>, n: u32, m: Option<u32>, k: Option<u32>)
    requires
        lengths_read(bytes, n, m, k),
        ({
            ||| n > MAX_TEXT_LEN
            ||| bytes.len() < 205 + n
            ||| m is Some && (m->0 > MAX_RESPONSE_LEN || bytes.len() < 205 + n + m->0)
            ||| k is Some && (k->0 > MAX_CALLBACK_ACCOUNTS || bytes.len() < 205 + n + m->0 + 34
                * k->0)
        }),
    ensures
        forall|c: ChatView| c.bounded() ==> !stored_at_front(c, bytes),
{
    assert forall|c: ChatView| c.bounded() implies !stored_at_front(c, bytes) by {
        if stored_at_front(c, bytes) {
            lengths_agree(c, bytes, n, m, k);
        }
    }
}

/// Bytes whose request or response is not UTF-8 begin with no stored chat.
proof fn no_chat_with_text(bytes: Seq<u8>, n: u32, m: Option<u32>)
    requires
        lengths_read(bytes, n, m, None),
        bytes.len() >= 205 + n,
        m is Some ==> bytes.len() >= 205 + n + m->0,
        match m {
            None => !valid_utf8(bytes.subrange(197, 197 + n)),
            Some(m) => !valid_utf8(bytes.subrange(201 + n, 201 + n + m)),
        },
    ensures
        forall|c: ChatView| c.bounded() ==> !stored_at_front(c, bytes),
{
    assert forall|c: ChatView| c.bounded() implies !stored_at_front(c, bytes) by {
        if stored_at_front(c, bytes) {
            lengths_agree(c, bytes, n, m, None);
            stored_parts(c, bytes);
            encode_utf8_valid_utf8(c.request_text);
            encode_utf8_valid_utf8(c.response_text);
        }
    }
}

/// Bytes in which a flag of a callback account is neither 0 nor 1 begin with
/// no stored chat.
proof fn no_chat_with_flag(bytes: Seq<u8>, n: u32, m: u32, k: u32, i: int)
    requires
        lengths_read(bytes, n, Some(m), Some(k)),
        bytes.len() >= 205 + n + m + 34 * k,
        0 <= i < k,
        bad_flag(bytes, 205 + n + m, i),
    ensures
        forall|c: ChatView| c.bounded() ==> !stored_at_front(c, bytes),
{
    assert forall|c: ChatView| c.bounded() implies !stored_at_front(c, bytes) by {
        if stored_at_front(c, bytes) {
            lengths_agree(c, bytes, n, Some(m), Some(k));
            stored_parts(c, bytes);
            stored_meta(c.callback_account_metas, i);
            let base = 205 + n + m;
            let part = bytes.subrange(base, base + 34 * k);
            assert(part[34 * i + 32] == bytes[base + 34 * i + 32]);
            assert(part[34 * i + 33] == bytes[base + 34 * i + 33]);
        }
    }
}

/// Bytes whose parts are those of a chat begin with that chat as it is
/// stored.
proof fn chat_is_stored(c: ChatView, bytes: Seq<u8>)
    requires
        ({
            let n = text_len(c.request_text) as int;
            let m = text_len(c.response_text) as int;
            let k = c.callback_account_metas.len() as int;
            &&& c.bounded()
            &&& bytes.len() >= 205 + n + m + 34 * k
            &&& bytes.subrange(0, 8) == chat_record_tag()
            &&& bytes.subrange(8, 40) == c.context@
            &&& bytes.subrange(40, 72) == c.user@
            &&& bytes.subrange(72, 80) == spec_u64_to_le_bytes(c.id)
            &&& bytes.subrange(80, 88) == spec_u64_to_le_bytes(i64_bits(c.created_at))
            &&& bytes[88] == c.status
            &&& bytes.subrange(89, 121) == c.cmk@
            &&& bytes.subrange(121, 153) == c.tx_id@
            &&& bytes.subrange(153, 185) == c.callback_program_id@
            &&& bytes.subrange(185, 193) == c.callback_discriminator@
            &&& bytes.subrange(193, 197) == spec_u32_to_le_bytes(n as u32)
            &&& bytes.subrange(197, 197 + n) == encode_utf8(c.request_text)
            &&& bytes.subrange(197 + n, 201 + n) == spec_u32_to_le_bytes(m as u32)
            &&& bytes.subrange(201 + n, 201 + n + m) == encode_utf8(c.response_text)
            &&& bytes.subrange(201 + n + m, 205 + n + m) == spec_u32_to_le_bytes(k as u32)
            &&& bytes.subrange(205 + n + m, 205 + n + m + 34 * k) == metas_bytes(
                c.callback_account_metas,
            )
        }),
    ensures
        stored_at_front(c, bytes),
{
    stored_sizes(c, ContextAccount { owner: c.user, next_chat_id: 0 });
    let n = text_len(c.request_text) as int;
    let m = text_len(c.response_text) as int;
    let k = c.callback_account_metas.len() as int;
    let all = chat_bytes(c);
    let front = bytes.subrange(0, all.len() as int);
    assert(all.len() == 205 + n + m + 34 * k);
    assert(seq![c.status] =~= bytes.subrange(88, 89));
    assert(front =~= bytes.subrange(0, 8) + bytes.subrange(8, 40) + bytes.subrange(40, 72)
        + bytes.subrange(72, 80) + bytes.subrange(80, 88) + bytes.subrange(88, 89)
        + bytes.subrange(89, 121) + bytes.subrange(121, 153) + bytes.subrange(153, 185)
        + bytes.subrange(185, 193) + (bytes.subrange(193, 197) + bytes.subrange(197, 197 + n)) + (
    bytes.subrange(197 + n, 201 + n) + bytes.subrange(201 + n, 201 + n + m)) + bytes.subrange(
        201 + n + m,
        205 + n + m,
    ) + bytes.subrange(205 + n + m, 205 + n + m + 34 * k));
}

/// Reads the chat stored at the front of the bytes. There is one to read
/// exactly when the bytes begin with a chat within the bounds of a stored
/// record; what lies behind it does not matter.
pub fn decode_chat(bytes: &[u8]) -> (r: Option<Chat>)
    ensures
        match r {
            Some(chat) => chat@.bounded() && stored_at_front(chat@, bytes@),
            None => forall|c: ChatView| c.bounded() ==> !stored_at_front(c, bytes@),
        },
{
    let total: usize = bytes.len();
    if total < 205 {
        proof {
            no_chat_without_tag(bytes@);
        }
        return None;
    }
    let tag = take_tag(bytes, 0);
    if tag[0] != 170 || tag[1] != 4 || tag[2] != 71 || tag[3] != 128 || tag[4] != 185 || tag[5]
        != 103 || tag[6] != 250 || tag[7] != 177 {
        proof {
            assert(tag@ != chat_record_tag());
            no_chat_without_tag(bytes@);
        }
        return None;
    }
    assert(tag@ =~= chat_record_tag());
    let context = take_address(bytes, 8);
    let user = take_address(bytes, 40);
    let id = take_u64(bytes, 72);
    let created_at = from_bits(take_u64(bytes, 80));
    let status = bytes[88];
    let cmk = take_address(bytes, 89);
    let tx_id = take_address(bytes, 121);
    let callback_program_id = take_address(bytes, 153);
    let callback_discriminator = take_tag(bytes, 185);

    let n32 = take_u32(bytes, 193);
    if n32 > 1024 || total - 205 < n32 as usize {
        proof {
            no_chat_with_length(bytes@, n32, None, None);
        }
        return None;
    }
    let n: usize = n32 as usize;
    let request_text = match take_text(bytes, 197, n) {
        Some(text) => text,
        None => {
            proof {
                no_chat_with_text(bytes@, n32, None);
            }
            return None;
        },
    };
    let m32 = take_u32(bytes, 197 + n);
    if m32 > 1024 || total - 205 - n < m32 as usize {
        proof {
            no_chat_with_length(bytes@, n32, Some(m32), None);
        }
        return None;
    }
    let m: usize = m32 as usize;
    let response_text = match take_text(bytes, 201 + n, m) {
        Some(text) => text,
        None => {
            proof {
                no_chat_with_text(bytes@, n32, Some(m32));
            }
            return None;
        },
    };
    let k32 = take_u32(bytes, 201 + n + m);
    if k32 > 16 || total - 205 - n - m < 34 * (k32 as usize) {
        proof {
            no_chat_with_length(bytes@, n32, Some(m32), Some(k32));
        }
        return None;
    }
    let k: usize = k32 as usize;
    let base: usize = 205 + n + m;
    let callback_account_metas = match take_metas(bytes, base, k) {
        Some(metas) => metas,
        None => {
            proof {
                let i = choose|i: int| 0 <= i < k && #[trigger] bad_flag(bytes@, base as int, i);
                no_chat_with_flag(bytes@, n32, m32, k32, i);
            }
            return None;
        },
    };
    let chat = Chat {
        context,
        user,
        id,
        created_at,
        status,
        cmk,
        tx_id,
        callback_program_id,
        callback_discriminator,
        request_text,
        response_text,
        callback_account_metas,
    };
    proof {
        assert(text_len(chat@.request_text) == n);
        assert(text_len(chat@.response_text) == m);
        chat_is_stored(chat@, bytes@);
    }
    Some(chat)
}

/// Reads the context stored at the front of the bytes. There is one to read
/// exactly when the bytes begin with a stored context.
pub fn decode_context(bytes: &[u8]) -> (r: Option<ContextAccount>)
    ensures
        match r {
            Some(context) => bytes@.len() >= CONTEXT_SPACE && bytes@.subrange(
                0,
                CONTEXT_SPACE as int,
            ) == context_bytes(context),
            None => forall|c: ContextAccount|
                !(bytes@.len() >= CONTEXT_SPACE && bytes@.subrange(0, CONTEXT_SPACE as int)
                    == context_bytes(c)),
        },
{
    proof {
        lemma_auto_spec_u64_to_from_le_bytes();
    }
    if bytes.len() < 48 {
        return None;
    }
    let tag = take_tag(bytes, 0);
    if tag[0] != 75 || tag[1] != 176 || tag[2] != 185 || tag[3] != 173 || tag[4] != 144 || tag[5]
        != 35 || tag[6] != 90 || tag[7] != 109 {
        assert forall|c: ContextAccount|
            !(bytes@.subrange(0, CONTEXT_SPACE as int) == #[trigger] context_bytes(c)) by {
            if bytes@.subrange(0, CONTEXT_SPACE as int) == context_bytes(c) {
                assert(bytes@.subrange(0, 8) =~= context_bytes(c).subrange(0, 8));
                assert(context_bytes(c).subrange(0, 8) =~= context_record_tag());
                assert(tag@ == context_record_tag());
            }
        }
        return None;
    }
    assert(tag@ =~= context_record_tag());
    let owner = take_address(bytes, 8);
    let next_chat_id = take_u64(bytes, 40);
    let context = ContextAccount { owner, next_chat_id };
    assert(context_bytes(context) =~= bytes@.subrange(0, CONTEXT_SPACE as int));
    Some(context)
}

/// Bytes begin with at most one stored chat.
pub proof fn stored_chat_is_unique(a: ChatView, c: ChatView, bytes: Seq<u8>)
    requires
        a.bounded(),
        c.bounded(),
        stored_at_front(a, bytes),
        stored_at_front(c, bytes),
    ensures
        a == c,
{
    lemma_auto_spec_u32_to_from_le_bytes();
    lemma_auto_spec_u64_to_from_le_bytes();
    stored_parts(a, bytes);
    stored_parts(c, bytes);
    let n = text_len(a.request_text) as u32;
    let m = text_len(a.response_text) as u32;
    let k = a.callback_account_metas.len() as u32;
    assert(lengths_read(bytes, n, Some(m), Some(k)));
    lengths_agree(c, bytes, n, Some(m), Some(k));
    address_equality(a.context, c.context);
    address_equality(a.user, c.user);
    address_equality(a.cmk, c.cmk);
    address_equality(a.tx_id, c.tx_id);
    address_equality(a.callback_program_id, c.callback_program_id);
    assert(a.id == c.id);
    assert(i64_bits(a.created_at) == i64_bits(c.created_at));
    assert(a.created_at == c.created_at);
    assert(a.callback_discriminator =~= c.callback_discriminator);
    encode_utf8_decode_utf8(a.request_text);
    encode_utf8_decode_utf8(c.request_text);
    encode_utf8_decode_utf8(a.response_text);
    encode_utf8_decode_utf8(c.response_text);
    assert(a.request_text == c.request_text);
    assert(a.response_text == c.response_text);
    assert forall|i: int| 0 <= i < k implies a.callback_account_metas[i]
        == c.callback_account_metas[i] by {
        stored_meta(a.callback_account_metas, i);
        stored_meta(c.callback_account_metas, i);
        address_equality(a.callback_account_metas[i].pubkey, c.callback_account_metas[i].pubkey);
    }
    assert(a.callback_account_metas =~= c.callback_account_metas);
}

/// What is read back from the bytes of a stored chat, whatever follows
/// them, is that chat: the bytes begin with it, and with no other.
pub proof fn stored_chat_reads_back(chat: ChatView, rest: Seq<u8>, read: ChatView)
    requires
        chat.bounded(),
        read.bounded(),
        stored_at_front(read, chat_bytes(chat) + rest),
    ensures
        stored_at_front(chat, chat_bytes(chat) + rest),
        read == chat,
{
    let bytes = chat_bytes(chat) + rest;
    assert(bytes.subrange(0, chat_bytes(chat).len() as int) =~= chat_bytes(chat));
    stored_chat_is_unique(read, chat, bytes);
}

} // verus!
