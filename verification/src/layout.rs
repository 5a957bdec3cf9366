use vstd::prelude::*;
use vstd::bytes::{
    lemma_auto_spec_u32_to_from_le_bytes, lemma_auto_spec_u64_to_from_le_bytes,
    spec_u32_to_le_bytes, spec_u64_to_le_bytes, u32_to_le_bytes, u64_to_le_bytes,
};
use vstd::utf8::encode_utf8;
use crate::address::{AccountMeta, Address};
use crate::record::{
    text_len, Chat, ChatView, ContextAccount, ACCOUNT_META_LEN, CHAT_HEADER_LEN,
    MAX_CALLBACK_ACCOUNTS, MAX_RESPONSE_LEN, MAX_TEXT_LEN,
};

verus! {

/// The eight bytes in front of every stored chat.
pub open spec fn chat_record_tag() -> Seq<u8> {
    seq![170u8, 4u8, 71u8, 128u8, 185u8, 103u8, 250u8, 177u8]
}

/// The eight bytes in front of every stored context.
pub open spec fn context_record_tag() -> Seq<u8> {
    seq![75u8, 176u8, 185u8, 173u8, 144u8, 35u8, 90u8, 109u8]
}

/// Bytes of a stored context: its tag, the owner and the counter.
pub const CONTEXT_SPACE: usize = 48;

/// A flag as one byte.
pub open spec fn flag_byte(flag: bool) -> u8 {
    if flag {
        1
    } else {
        0
    }
}

/// A signed number as the unsigned number with the same 64 bits.
pub open spec fn i64_bits(x: i64) -> u64 {
    if x >= 0 {
        x as u64
    } else {
        (x + 0x1_0000_0000_0000_0000) as u64
    }
}

/// One callback account as it is stored: its address, then its two flags.
pub open spec fn meta_bytes(meta: AccountMeta) -> Seq<u8> {
    meta.pubkey@ + seq![flag_byte(meta.is_signer), flag_byte(meta.is_writable)]
}

/// The callback accounts as they are stored: one after the other.
pub open spec fn metas_bytes(metas: Seq<AccountMeta>) -> Seq<u8>
    decreases metas.len(),
{
    if metas.len() == 0 {
        Seq::empty()
    } else {
        metas_bytes(metas.drop_last()) + meta_bytes(metas.last())
    }
}

/// A text as it is stored: the number of its bytes as four bytes, lowest
/// first, then the bytes.
pub open spec fn text_bytes(text: Seq<char>) -> Seq<u8> {
    spec_u32_to_le_bytes(text_len(text) as u32) + encode_utf8(text)
}

/// The fixed part of a stored chat: the tag, then the fields in their order,
/// numbers lowest byte first.
pub open spec fn header_bytes(chat: ChatView) -> Seq<u8> {
    chat_record_tag() + chat.context@ + chat.user@ + spec_u64_to_le_bytes(chat.id)
        + spec_u64_to_le_bytes(i64_bits(chat.created_at)) + seq![chat.status] + chat.cmk@
        + chat.tx_id@ + chat.callback_program_id@ + chat.callback_discriminator@
}

/// A chat as it is stored: the fixed part, then the request, the response
/// and the callback accounts, each with its length in front.
pub open spec fn chat_bytes(chat: ChatView) -> Seq<u8> {
    header_bytes(chat) + text_bytes(chat.request_text) + text_bytes(chat.response_text)
        + spec_u32_to_le_bytes(chat.callback_account_metas.len() as u32) + metas_bytes(
        chat.callback_account_metas,
    )
}

/// A context as it is stored: the tag, the owner, then the counter, lowest
/// byte first.
pub open spec fn context_bytes(context: ContextAccount) -> Seq<u8> {
    context_record_tag() + context.owner@ + spec_u64_to_le_bytes(context.next_chat_id)
}

/// The stored callback accounts take 34 bytes each.
pub proof fn metas_bytes_len(metas: Seq<AccountMeta>)
    ensures
        metas_bytes(metas).len() == ACCOUNT_META_LEN * metas.len(),
    decreases metas.len(),
{
    if metas.len() > 0 {
        metas_bytes_len(metas.drop_last());
    }
}

/// A stored chat takes exactly the space that is reckoned for it, and a
/// stored context takes 48 bytes.
pub proof fn stored_sizes(chat: ChatView, context: ContextAccount)
    ensures
        header_bytes(chat).len() == CHAT_HEADER_LEN,
        chat.bounded() ==> chat_bytes(chat).len() == chat.space(),
        context_bytes(context).len() == CONTEXT_SPACE,
{
    lemma_auto_spec_u32_to_from_le_bytes();
    lemma_auto_spec_u64_to_from_le_bytes();
    metas_bytes_len(chat.callback_account_metas);
}

/// The unsigned number with the same 64 bits as a signed one.
pub fn bits_of(x: i64) -> (r: u64)
    ensures
        r == i64_bits(x),
{
    if x >= 0 {
        x as u64
    } else {
        ((x + i64::MAX + 1) as u64) + 0x8000_0000_0000_0000u64
    }
}

fn put_address(out: &mut Vec<u8>, address: &Address)
    ensures
        final(out)@ == old(out)@ + address@,
{
    let mut bytes = address.to_bytes();
    out.append(&mut bytes);
}

fn put_u64(out: &mut Vec<u8>, x: u64)
    ensures
        final(out)@ == old(out)@ + spec_u64_to_le_bytes(x),
{
    let mut bytes = u64_to_le_bytes(x);
    out.append(&mut bytes);
}

fn put_len(out: &mut Vec<u8>, len: usize)
    requires
        len <= u32::MAX,
    ensures
        final(out)@ == old(out)@ + spec_u32_to_le_bytes(len as u32),
{
    let mut bytes = u32_to_le_bytes(len as u32);
    out.append(&mut bytes);
}

fn put_text(out: &mut Vec<u8>, text: &String)
    requires
        text_len(text@) <= u32::MAX,
    ensures
        final(out)@ == old(out)@ + text_bytes(text@),
{
    let bytes = text.as_str().as_bytes();
    put_len(out, bytes.len());
    out.extend_from_slice(bytes);
    assert(out@ =~= old(out)@ + text_bytes(text@));
}

fn put_flag(out: &mut Vec<u8>, flag: bool)
    ensures
        final(out)@ == old(out)@.push(flag_byte(flag)),
{
    if flag {
        out.push(1u8);
    } else {
        out.push(0u8);
    }
}

fn put_metas(out: &mut Vec<u8>, metas: &Vec<AccountMeta>)
    ensures
        final(out)@ == old(out)@ + metas_bytes(metas@),
{
    let mut i: usize = 0;
    assert(metas@.subrange(0, 0) =~= Seq::<AccountMeta>::empty());
    assert(out@ =~= old(out)@ + metas_bytes(metas@.subrange(0, 0)));
    while i < metas.len()
        invariant
            i <= metas.len(),
            out@ == old(out)@ + metas_bytes(metas@.subrange(0, i as int)),
        decreases metas.len() - i,
    {
        let ghost before = out@;
        put_address(out, &metas[i].pubkey);
        put_flag(out, metas[i].is_signer);
        put_flag(out, metas[i].is_writable);
        proof {
            let done = metas@.subrange(0, i + 1);
            assert(done.drop_last() =~= metas@.subrange(0, i as int));
            assert(done.last() == metas@[i as int]);
            assert(out@ =~= before + meta_bytes(metas@[i as int]));
            assert(out@ =~= old(out)@ + metas_bytes(done));
        }
        i += 1;
    }
    assert(metas@.subrange(0, metas@.len() as int) =~= metas@);
}

/// The bytes of a chat as it is stored.
pub fn encode_chat(chat: &Chat) -> (r: Vec<u8>)
    requires
        chat@.bounded(),
    ensures
        r@ == chat_bytes(chat@),
        r@.len() == chat@.space(),
{
    let mut out: Vec<u8> = vec![170u8, 4u8, 71u8, 128u8, 185u8, 103u8, 250u8, 177u8];
    assert(out@ =~= chat_record_tag());
    put_address(&mut out, &chat.context);
    put_address(&mut out, &chat.user);
    put_u64(&mut out, chat.id);
    put_u64(&mut out, bits_of(chat.created_at));
    out.push(chat.status);
    put_address(&mut out, &chat.cmk);
    put_address(&mut out, &chat.tx_id);
    put_address(&mut out, &chat.callback_program_id);
    let mut i: usize = 0;
    let ghost fixed = out@;
    while i < 8
        invariant
            i <= 8,
            out@ == fixed + chat.callback_discriminator@.subrange(0, i as int),
        decreases 8 - i,
    {
        out.push(chat.callback_discriminator[i]);
        assert(out@ =~= fixed + chat.callback_discriminator@.subrange(0, i + 1));
        i += 1;
    }
    assert(chat.callback_discriminator@.subrange(0, 8) =~= chat.callback_discriminator@);
    assert(out@ =~= header_bytes(chat@));
    put_text(&mut out, &chat.request_text);
    put_text(&mut out, &chat.response_text);
    put_len(&mut out, chat.callback_account_metas.len());
    put_metas(&mut out, &chat.callback_account_metas);
    proof {
        stored_sizes(chat@, ContextAccount { owner: chat.user, next_chat_id: 0 });
    }
    out
}

/// The bytes of a context as it is stored.
pub fn encode_context(context: &ContextAccount) -> (r: Vec<u8>)
    ensures
        r@ == context_bytes(*context),
        r@.len() == CONTEXT_SPACE,
{
    let mut out: Vec<u8> = vec![75u8, 176u8, 185u8, 173u8, 144u8, 35u8, 90u8, 109u8];
    assert(out@ =~= context_record_tag());
    put_address(&mut out, &context.owner);
    put_u64(&mut out, context.next_chat_id);
    proof {
        lemma_auto_spec_u64_to_from_le_bytes();
    }
    out
}

/// The bytes begin with the chat as it is stored.
pub open spec fn stored_at_front(chat: ChatView, bytes: Seq<u8>) -> bool {
    &&& chat_bytes(chat).len() <= bytes.len()
    &&& bytes.subrange(0, chat_bytes(chat).len() as int) == chat_bytes(chat)
}

/// Where each part of a stored chat lies in bytes that begin with it.
pub proof fn stored_parts(chat: ChatView, bytes: Seq<u8>)
    requires
        chat.bounded(),
        stored_at_front(chat, bytes),
    ensures
        ({
            let n = text_len(chat.request_text) as int;
            let m = text_len(chat.response_text) as int;
            let k = chat.callback_account_metas.len() as int;
            &&& bytes.len() >= 205 + n + m + 34 * k
            &&& bytes.subrange(0, 8) == chat_record_tag()
            &&& bytes.subrange(8, 40) == chat.context@
            &&& bytes.subrange(40, 72) == chat.user@
            &&& bytes.subrange(72, 80) == spec_u64_to_le_bytes(chat.id)
            &&& bytes.subrange(80, 88) == spec_u64_to_le_bytes(i64_bits(chat.created_at))
            &&& bytes[88] == chat.status
            &&& bytes.subrange(89, 121) == chat.cmk@
            &&& bytes.subrange(121, 153) == chat.tx_id@
            &&& bytes.subrange(153, 185) == chat.callback_program_id@
            &&& bytes.subrange(185, 193) == chat.callback_discriminator@
            &&& bytes.subrange(193, 197) == spec_u32_to_le_bytes(n as u32)
            &&& bytes.subrange(197, 197 + n) == encode_utf8(chat.request_text)
            &&& bytes.subrange(197 + n, 201 + n) == spec_u32_to_le_bytes(m as u32)
            &&& bytes.subrange(201 + n, 201 + n + m) == encode_utf8(chat.response_text)
            &&& bytes.subrange(201 + n + m, 205 + n + m) == spec_u32_to_le_bytes(k as u32)
            &&& bytes.subrange(205 + n + m, 205 + n + m + 34 * k) == metas_bytes(
                chat.callback_account_metas,
            )
        }),
{
    lemma_auto_spec_u32_to_from_le_bytes();
    lemma_auto_spec_u64_to_from_le_bytes();
    metas_bytes_len(chat.callback_account_metas);
    let n = text_len(chat.request_text) as int;
    let m = text_len(chat.response_text) as int;
    let k = chat.callback_account_metas.len() as int;
    let all = chat_bytes(chat);
    let head = header_bytes(chat);
    assert(head.len() == 193);
    assert(all.len() == 205 + n + m + 34 * k);
    assert forall|a: int, b: int| 0 <= a <= b <= all.len() implies #[trigger] bytes.subrange(a, b)
        == all.subrange(a, b) by {
        assert(bytes.subrange(a, b) =~= bytes.subrange(0, all.len() as int).subrange(a, b));
    }
    assert(all.subrange(0, 193) =~= head);
    assert(all.subrange(0, 8) =~= chat_record_tag());
    assert(all.subrange(8, 40) =~= chat.context@);
    assert(all.subrange(40, 72) =~= chat.user@);
    assert(all.subrange(72, 80) =~= spec_u64_to_le_bytes(chat.id));
    assert(all.subrange(80, 88) =~= spec_u64_to_le_bytes(i64_bits(chat.created_at)));
    assert(all[88] == chat.status);
    assert(bytes[88] == bytes.subrange(88, 89)[0]);
    assert(all.subrange(89, 121) =~= chat.cmk@);
    assert(all.subrange(121, 153) =~= chat.tx_id@);
    assert(all.subrange(153, 185) =~= chat.callback_program_id@);
    assert(all.subrange(185, 193) =~= chat.callback_discriminator@);
    assert(all.subrange(193, 197) =~= spec_u32_to_le_bytes(n as u32));
    assert(all.subrange(197, 197 + n) =~= encode_utf8(chat.request_text));
    assert(all.subrange(197 + n, 201 + n) =~= spec_u32_to_le_bytes(m as u32));
    assert(all.subrange(201 + n, 201 + n + m) =~= encode_utf8(chat.response_text));
    assert(all.subrange(201 + n + m, 205 + n + m) =~= spec_u32_to_le_bytes(k as u32));
    assert(all.subrange(205 + n + m, 205 + n + m + 34 * k) =~= metas_bytes(
        chat.callback_account_metas,
    ));
}

/// Where each callback account lies among the stored ones.
pub proof fn stored_meta(metas: Seq<AccountMeta>, i: int)
    requires
        0 <= i < metas.len(),
    ensures
        metas_bytes(metas).len() == 34 * metas.len(),
        metas_bytes(metas).subrange(34 * i, 34 * i + 32) == metas[i].pubkey@,
        metas_bytes(metas)[34 * i + 32] == flag_byte(metas[i].is_signer),
        metas_bytes(metas)[34 * i + 33] == flag_byte(metas[i].is_writable),
    decreases metas.len(),
{
    metas_bytes_len(metas);
    metas_bytes_len(metas.drop_last());
    let all = metas_bytes(metas);
    let front = metas_bytes(metas.drop_last());
    if i == metas.len() - 1 {
        assert(all.subrange(34 * i, 34 * i + 32) =~= metas[i].pubkey@);
    } else {
        stored_meta(metas.drop_last(), i);
        assert(metas.drop_last()[i] == metas[i]);
        assert(all.subrange(34 * i, 34 * i + 32) =~= front.subrange(34 * i, 34 * i + 32));
    }
}

} // verus!
