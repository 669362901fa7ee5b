use vstd::prelude::*;

verus! {

/// The lowercase hexadecimal digit for a value below 16.
pub open spec fn hex_digit(n: int) -> char {
    if n == 0 {
        '0'
    } else if n == 1 {
        '1'
    } else if n == 2 {
        '2'
    } else if n == 3 {
        '3'
    } else if n == 4 {
        '4'
    } else if n == 5 {
        '5'
    } else if n == 6 {
        '6'
    } else if n == 7 {
        '7'
    } else if n == 8 {
        '8'
    } else if n == 9 {
        '9'
    } else if n == 10 {
        'a'
    } else if n == 11 {
        'b'
    } else if n == 12 {
        'c'
    } else if n == 13 {
        'd'
    } else if n == 14 {
        'e'
    } else {
        'f'
    }
}

/// The value of a hexadecimal digit, in either case; `None` for any other
/// character.
pub open spec fn hex_value(c: char) -> Option<int> {
    if c == '0' {
        Some(0)
    } else if c == '1' {
        Some(1)
    } else if c == '2' {
        Some(2)
    } else if c == '3' {
        Some(3)
    } else if c == '4' {
        Some(4)
    } else if c == '5' {
        Some(5)
    } else if c == '6' {
        Some(6)
    } else if c == '7' {
        Some(7)
    } else if c == '8' {
        Some(8)
    } else if c == '9' {
        Some(9)
    } else if c == 'a' || c == 'A' {
        Some(10)
    } else if c == 'b' || c == 'B' {
        Some(11)
    } else if c == 'c' || c == 'C' {
        Some(12)
    } else if c == 'd' || c == 'D' {
        Some(13)
    } else if c == 'e' || c == 'E' {
        Some(14)
    } else if c == 'f' || c == 'F' {
        Some(15)
    } else {
        None
    }
}

/// The lowercase hexadecimal text of a byte sequence: two digits per byte,
/// the high half first.
pub open spec fn hex_encode(data: Seq<u8>) -> Seq<char> {
    Seq::new(
        2 * data.len(),
        |i: int|
            if i % 2 == 0 {
                hex_digit(data[i / 2] as int / 16)
            } else {
                hex_digit(data[i / 2] as int % 16)
            },
    )
}

/// The lowercase hexadecimal text of a byte sequence behind the prefix `0x`.
pub open spec fn hex_encode_prefixed(data: Seq<u8>) -> Seq<char> {
    seq!['0', 'x'] + hex_encode(data)
}

/// The text without a leading `0x` or `0X`.
pub open spec fn strip_prefix(text: Seq<char>) -> Seq<char> {
    if text.len() >= 2 && text[0] == '0' && (text[1] == 'x' || text[1] == 'X') {
        text.subrange(2, text.len() as int)
    } else {
        text
    }
}

/// An even number of hexadecimal digits and nothing else.
pub open spec fn is_hex_digits(body: Seq<char>) -> bool {
    &&& body.len() % 2 == 0
    &&& forall|i: int| 0 <= i < body.len() ==> (#[trigger] hex_value(body[i])).is_some()
}

/// The bytes that an even run of hexadecimal digits stands for.
pub open spec fn hex_bytes(body: Seq<char>) -> Seq<u8> {
    Seq::new(
        body.len() / 2,
        |i: int| (16 * hex_value(body[2 * i]).unwrap() + hex_value(body[2 * i + 1]).unwrap()) as u8,
    )
}

/// The bytes that a hexadecimal text stands for: an optional `0x` prefix, then
/// an even number of digits in either case. `None` for any other text.
pub open spec fn hex_decode(text: Seq<char>) -> Option<Seq<u8>> {
    let body = strip_prefix(text);
    if is_hex_digits(body) {
        Some(hex_bytes(body))
    } else {
        None
    }
}

/// Calls `ethers::utils::hex::encode`, which is `const_hex::encode`. Trusted:
/// the result has two lowercase hexadecimal digits per input byte, high half
/// first, and no prefix.
#[verifier::external_body]
fn encode_with_crate(data: &[u8]) -> (text: String)
    ensures
        text@ == hex_encode(data@),
{
    ethers::utils::hex::encode(data)
}

/// The error of `const_hex`'s decoding functions, carried through unread.
#[verifier::external_type_specification]
#[verifier::external_body]
pub struct ExFromHexError(ethers::utils::hex::FromHexError);

/// Calls `ethers::utils::hex::decode`, which is `const_hex::decode`. Trusted:
/// the call succeeds exactly on texts made of an optional `0x` or `0X` prefix
/// and an even number of hexadecimal digits in either case, and then returns
/// the bytes those digits stand for.
#[verifier::external_body]
fn decode_with_crate(text: &str) -> (bytes: Result<Vec<u8>, ethers::utils::hex::FromHexError>)
    ensures
        match bytes {
            Ok(b) => hex_decode(text@) == Some(b@),
            Err(_) => hex_decode(text@).is_none(),
        },
{
    ethers::utils::hex::decode(text)
}

/// Calls `ethers::utils::hex::encode_prefixed`, which is
/// `const_hex::encode_prefixed`. Trusted: the result is `0x` followed by two
/// lowercase hexadecimal digits per input byte, high half first.
#[verifier::external_body]
fn encode_prefixed_with_crate(data: &[u8]) -> (text: String)
    ensures
        text@ == hex_encode_prefixed(data@),
{
    ethers::utils::hex::encode_prefixed(data)
}

/// Lowercase hexadecimal text of `data`, as it is stored in a finalized record.
pub fn encode(data: &[u8]) -> (text: String)
    ensures
        text@ == hex_encode(data@),
        hex_decode(text@) == Some(data@),
{
    proof {
        law_decode_inverts_encode(data@);
    }
    encode_with_crate(data)
}

/// Lowercase hexadecimal text of `data` behind the prefix `0x`, as addresses
/// and ids are written on the wire.
pub fn encode_prefixed(data: &[u8]) -> (text: String)
    ensures
        text@ == hex_encode_prefixed(data@),
        hex_decode(text@) == Some(data@),
{
    proof {
        law_decode_inverts_encode(data@);
        let text = hex_encode_prefixed(data@);
        assert(text[0] == '0' && text[1] == 'x');
        assert(strip_prefix(text) =~= hex_encode(data@));
        if hex_encode(data@).len() >= 2 {
            lemma_digit_value(data@[0] as int % 16);
            assert(hex_encode(data@)[1] == hex_digit(data@[0] as int % 16));
        }
        assert(strip_prefix(hex_encode(data@)) == hex_encode(data@));
    }
    encode_prefixed_with_crate(data)
}

/// The bytes of a hexadecimal text, or `None` where the text is not an
/// optional `0x` prefix followed by an even number of hexadecimal digits.
pub fn decode(text: &str) -> (bytes: Option<Vec<u8>>)
    ensures
        match bytes {
            Some(b) => hex_decode(text@) == Some(b@),
            None => hex_decode(text@).is_none(),
        },
{
    match decode_with_crate(text) {
        Ok(bytes) => Some(bytes),
        Err(_) => None,
    }
}

/// Every digit that encoding writes is read back as the value it was written
/// for, and is neither `x` nor `X`.
pub proof fn lemma_digit_value(n: int)
    requires
        0 <= n < 16,
    ensures
        hex_value(hex_digit(n)) == Some(n),
        hex_digit(n) != 'x',
        hex_digit(n) != 'X',
{
}

/// Decoding the encoding of a byte sequence gives the sequence back.
pub proof fn law_decode_inverts_encode(data: Seq<u8>)
    ensures
        hex_decode(hex_encode(data)) == Some(data),
{
    let text = hex_encode(data);
    if text.len() >= 2 {
        lemma_digit_value(data[0] as int % 16);
        assert(text[1] == hex_digit(data[0] as int % 16));
    }
    assert(strip_prefix(text) == text);
    assert forall|i: int| 0 <= i < text.len() implies (#[trigger] hex_value(text[i])).is_some() by {
        lemma_digit_value(data[i / 2] as int / 16);
        lemma_digit_value(data[i / 2] as int % 16);
    }
    assert(is_hex_digits(text));
    assert forall|i: int| 0 <= i < data.len() implies #[trigger] hex_bytes(text)[i] == data[i] by {
        lemma_digit_value(data[i] as int / 16);
        lemma_digit_value(data[i] as int % 16);
        assert(text[2 * i] == hex_digit(data[(2 * i) / 2] as int / 16));
        assert(text[2 * i + 1] == hex_digit(data[(2 * i + 1) / 2] as int % 16));
    }
    assert(hex_bytes(text) =~= data);
}

/// Two byte sequences with the same hexadecimal text are the same sequence.
pub proof fn law_encoding_is_injective(a: Seq<u8>, b: Seq<u8>)
    requires
        hex_encode(a) == hex_encode(b),
    ensures
        a == b,
{
    law_decode_inverts_encode(a);
    law_decode_inverts_encode(b);
}

} // verus!
