use vstd::prelude::*;
use crate::hashing::{keccak256, keccak256_digest};

verus! {

/// Bytes in one word of encoded call data.
pub const WORD_LEN: usize = 32;

/// The big-endian form of `value` in `width` bytes; what does not fit is cut
/// off at the high end.
pub open spec fn be_bytes(value: nat, width: nat) -> Seq<u8>
    decreases width,
{
    if width == 0 {
        Seq::empty()
    } else {
        be_bytes(value / 256, (width - 1) as nat).push((value % 256) as u8)
    }
}

/// An unsigned integer as one word.
pub open spec fn word(value: nat) -> Seq<u8> {
    be_bytes(value, WORD_LEN as nat)
}

/// How many zero bytes bring `len` bytes up to whole words.
pub open spec fn padding_len(len: nat) -> nat {
    ((WORD_LEN - len % (WORD_LEN as nat)) % (WORD_LEN as int)) as nat
}

/// `data`, filled up with zero bytes to whole words.
pub open spec fn padded(data: Seq<u8>) -> Seq<u8> {
    data + Seq::new(padding_len(data.len()), |i: int| 0u8)
}

/// The selector of a function: the first four bytes of the Keccak-256 digest
/// of its signature.
pub open spec fn selector(signature: Seq<char>) -> Seq<u8> {
    keccak256(vstd::utf8::encode_utf8(signature)).subrange(0, 4)
}

/// The call data of `requestTask(uint256 cycleCount)`.
pub open spec fn request_task_calldata(cycle_count: nat) -> Seq<u8> {
    selector("requestTask(uint256)"@) + word(cycle_count)
}

/// The call data of `slash(bytes32 taskId, bytes32 publicInputsHash, bytes
/// proof)`: the two fixed words, the offset of the dynamic argument, then
/// its length and its padded bytes.
pub open spec fn slash_calldata(
    task_id: Seq<u8>,
    public_inputs_hash: Seq<u8>,
    proof: Seq<u8>,
) -> Seq<u8> {
    selector("slash(bytes32,bytes32,bytes)"@) + task_id + public_inputs_hash + word(96) + word(
        proof.len(),
    ) + padded(proof)
}

/// Appends the bytes of `data` to `out`.
fn append(out: &mut Vec<u8>, data: &[u8])
    ensures
        final(out)@ == old(out)@ + data@,
{
    let mut i: usize = 0;
    while i < data.len()
        invariant
            i <= data@.len(),
            out@ == old(out)@ + data@.subrange(0, i as int),
        decreases data@.len() - i,
    {
        out.push(data[i]);
        assert(data@.subrange(0, i as int + 1) =~= data@.subrange(0, i as int).push(data@[i as int]));
        i += 1;
    }
    assert(data@.subrange(0, i as int) =~= data@);
}

/// Appends the selector of `signature` to `out`.
fn append_selector(out: &mut Vec<u8>, signature: &str)
    ensures
        final(out)@ == old(out)@ + selector(signature@),
{
    let digest = keccak256_digest(signature.as_bytes());
    let mut i: usize = 0;
    while i < 4
        invariant
            i <= 4,
            digest@.len() == 32,
            out@ == old(out)@ + digest@.subrange(0, i as int),
        decreases 4 - i,
    {
        out.push(digest[i]);
        assert(digest@.subrange(0, i as int + 1) =~= digest@.subrange(0, i as int).push(
            digest@[i as int],
        ));
        i += 1;
    }
}

/// Appends `value` as one big-endian word to `out`.
fn append_word(out: &mut Vec<u8>, value: u128)
    ensures
        final(out)@ == old(out)@ + word(value as nat),
{
    let mut digits: Vec<u8> = Vec::new();
    let mut rest: u128 = value;
    let mut i: usize = 0;
    // Least significant byte first.
    while i < WORD_LEN
        invariant
            i <= WORD_LEN,
            digits@.len() == i,
            forall|w: nat|
                w >= i ==> #[trigger] be_bytes(value as nat, w) == be_bytes(
                    rest as nat,
                    (w - i) as nat,
                ) + digits@.reverse(),
        decreases WORD_LEN - i,
    {
        let low: u8 = (rest % 256) as u8;
        proof {
            let before = digits@;
            let after = before.push(low);
            assert forall|w: nat| w >= i + 1 implies #[trigger] be_bytes(value as nat, w)
                == be_bytes((rest / 256) as nat, (w - (i + 1)) as nat) + after.reverse() by {
                assert(be_bytes(rest as nat, (w - i) as nat) == be_bytes(
                    (rest / 256) as nat,
                    (w - i - 1) as nat,
                ).push(low));
                assert(after.reverse() =~= seq![low] + before.reverse());
                assert(be_bytes((rest / 256) as nat, (w - i - 1) as nat).push(low)
                    + before.reverse() =~= be_bytes((rest / 256) as nat, (w - i - 1) as nat) + (
                seq![low] + before.reverse()));
            }
        }
        digits.push(low);
        rest = rest / 256;
        i += 1;
    }
    assert(word(value as nat) == be_bytes(rest as nat, 0) + digits@.reverse());
    assert(word(value as nat) =~= digits@.reverse());
    let mut k: usize = WORD_LEN;
    while k > 0
        invariant
            k <= WORD_LEN,
            digits@.len() == WORD_LEN,
            out@ == old(out)@ + digits@.reverse().subrange(0, WORD_LEN - k),
        decreases k,
    {
        k -= 1;
        out.push(digits[k]);
        assert(digits@.reverse().subrange(0, WORD_LEN - k) =~= digits@.reverse().subrange(
            0,
            WORD_LEN - k - 1,
        ).push(digits@[k as int]));
    }
    assert(digits@.reverse().subrange(0, WORD_LEN as int) =~= digits@.reverse());
}

/// Call data for `requestTask(uint256 cycleCount)`.
pub fn encode_request_task(cycle_count: u128) -> (calldata: Vec<u8>)
    ensures
        calldata@ == request_task_calldata(cycle_count as nat),
{
    let mut out: Vec<u8> = Vec::new();
    append_selector(&mut out, "requestTask(uint256)");
    append_word(&mut out, cycle_count);
    assert(out@ =~= request_task_calldata(cycle_count as nat));
    out
}

/// Call data for `slash(bytes32 taskId, bytes32 publicInputsHash, bytes
/// proof)`.
pub fn encode_slash(task_id: &[u8; 32], public_inputs_hash: &[u8; 32], proof: &[u8]) -> (calldata:
    Vec<u8>)
    ensures
        calldata@ == slash_calldata(task_id@, public_inputs_hash@, proof@),
{
    let mut out: Vec<u8> = Vec::new();
    append_selector(&mut out, "slash(bytes32,bytes32,bytes)");
    append(&mut out, task_id.as_slice());
    append(&mut out, public_inputs_hash.as_slice());
    append_word(&mut out, 96);
    append_word(&mut out, proof.len() as u128);
    append(&mut out, proof);
    let fill: usize = (WORD_LEN - proof.len() % WORD_LEN) % WORD_LEN;
    let ghost unpadded = out@;
    let mut i: usize = 0;
    while i < fill
        invariant
            i <= fill,
            out@ == unpadded + Seq::new(i as nat, |j: int| 0u8),
        decreases fill - i,
    {
        out.push(0);
        assert(Seq::new((i + 1) as nat, |j: int| 0u8) =~= Seq::new(i as nat, |j: int| 0u8).push(0u8));
        i += 1;
    }
    assert(out@ =~= slash_calldata(task_id@, public_inputs_hash@, proof@));
    out
}

/// Padding brings any length up to whole words, and adds less than one
/// word.
pub proof fn law_padded_is_whole_words(data: Seq<u8>)
    ensures
        padded(data).len() % (WORD_LEN as nat) == 0,
        data.len() <= padded(data).len() < data.len() + WORD_LEN,
        padded(data).subrange(0, data.len() as int) == data,
{
    assert(padded(data).subrange(0, data.len() as int) =~= data);
}

} // verus!
