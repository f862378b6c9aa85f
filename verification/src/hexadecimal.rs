//! Hexadecimal notation of byte strings.

use vstd::prelude::*;

verus! {

/// The lower-case hexadecimal digit of a value below sixteen.
pub open spec fn hex_digit(v: int) -> char {
    if v < 10 {
        (48 + v) as u8 as char
    } else {
        (87 + v) as u8 as char
    }
}

/// The value of a hexadecimal digit of either case.
pub open spec fn digit_value(c: char) -> Option<int> {
    if '0' <= c <= '9' {
        Some(c as int - 48)
    } else if 'a' <= c <= 'f' {
        Some(c as int - 87)
    } else if 'A' <= c <= 'F' {
        Some(c as int - 55)
    } else {
        None
    }
}

/// Two lower-case digits for each byte, the high half first.
pub open spec fn hex_text(bytes: Seq<u8>) -> Seq<char> {
    Seq::new(
        2 * bytes.len(),
        |i: int| hex_digit(if i % 2 == 0 { bytes[i / 2] / 16 } else { bytes[i / 2] % 16 } as int),
    )
}

/// Whether a text is made of pairs of hexadecimal digits.
pub open spec fn is_hex(text: Seq<char>) -> bool {
    &&& text.len() % 2 == 0
    &&& forall|i: int| 0 <= i < text.len() ==> digit_value(#[trigger] text[i]) is Some
}

/// The bytes that pairs of hexadecimal digits stand for.
pub open spec fn hex_bytes(text: Seq<char>) -> Seq<u8> {
    Seq::new(
        text.len() / 2,
        |i: int| (16 * digit_value(text[2 * i])->0 + digit_value(text[2 * i + 1])->0) as u8,
    )
}

/// What the decoder says of a text that is not hexadecimal: a function of the text alone, which
/// names the first fault (an odd number of digits, or a character and its position).
pub uninterp spec fn hex_fault(text: Seq<char>) -> Seq<char>;

/// `hex::encode`: two lower-case digits for each byte.
#[verifier::external_body]
pub(crate) fn encode(bytes: &[u8]) -> (r: String)
    ensures
        r@ == hex_text(bytes@),
{
    hex::encode(bytes)
}

/// `hex::decode`, with its error as text: a text of pairs of digits, in either case, gives their
/// bytes, and every other text is an error. The wording of the error is only said to be a
/// function of the text.
#[verifier::external_body]
pub(crate) fn decode(text: &str) -> (r: Result<Vec<u8>, String>)
    ensures
        r is Ok <==> is_hex(text@),
        r matches Ok(bytes) ==> bytes@ == hex_bytes(text@),
        r matches Err(fault) ==> fault@ == hex_fault(text@),
{
    hex::decode(text).map_err(|e| e.to_string())
}

/// Bytes as hexadecimal text with the prefix `0x`.
pub fn hex_0x(bytes: &[u8]) -> (r: String)
    ensures
        r@ == hex_0x_text(bytes@),
{
    crate::text::joined("0x", encode(bytes).as_str())
}

/// The prefix `0x` and two lower-case digits for each byte.
pub open spec fn hex_0x_text(bytes: Seq<u8>) -> Seq<char> {
    "0x"@ + hex_text(bytes)
}

/// Hexadecimal text stands for exactly the bytes it was made from.
pub proof fn law_hex_round_trip(bytes: Seq<u8>)
    ensures
        is_hex(hex_text(bytes)),
        hex_bytes(hex_text(bytes)) == bytes,
{
    let text = hex_text(bytes);
    assert forall|i: int| 0 <= i < text.len() implies digit_value(#[trigger] text[i]) is Some by {}
    assert forall|i: int| 0 <= i < bytes.len() implies hex_bytes(text)[i] == bytes[i] by {
        assert(text[2 * i] == hex_digit(bytes[i] as int / 16));
        assert(text[2 * i + 1] == hex_digit(bytes[i] as int % 16));
    }
    assert(hex_bytes(text) =~= bytes);
}

/// Different bytes never share their prefixed hexadecimal text.
pub proof fn law_hex_0x_injective(a: Seq<u8>, b: Seq<u8>)
    requires
        hex_0x_text(a) == hex_0x_text(b),
    ensures
        a == b,
{
    law_hex_round_trip(a);
    law_hex_round_trip(b);
    reveal_strlit("0x");
    assert(hex_text(a) =~= hex_0x_text(a).skip(2));
    assert(hex_text(b) =~= hex_0x_text(b).skip(2));
}

/// Whether a text spells bytes: `0x`, and for each byte the digits of its high and of its low half
/// out of the sixteen lower-case ones.
#[verifier::opaque]
pub open spec fn spells(text: Seq<char>, bytes: Seq<u8>) -> bool {
    &&& text.len() == 2 + 2 * bytes.len()
    &&& text[0] == '0'
    &&& text[1] == 'x'
    &&& forall|i: int|
        0 <= i < bytes.len() ==> text[2 + 2 * i] == "0123456789abcdef"@[#[trigger] bytes[i] as int
            / 16] && text[3 + 2 * i] == "0123456789abcdef"@[bytes[i] as int % 16]
}

proof fn lemma_hex_digit(v: int)
    requires
        0 <= v < 16,
    ensures
        hex_digit(v) == "0123456789abcdef"@[v],
{
    reveal_strlit("0123456789abcdef");
    assert(v == 0 || v == 1 || v == 2 || v == 3 || v == 4 || v == 5 || v == 6 || v == 7 || v == 8
        || v == 9 || v == 10 || v == 11 || v == 12 || v == 13 || v == 14 || v == 15);
}

/// [`hex_0x`] spells its bytes, and what it spells is what the text decodes to behind the prefix.
pub proof fn law_hex_0x_spells(bytes: &[u8], r: String)
    requires
        call_ensures(hex_0x, (bytes,), r),
    ensures
        spells(r@, bytes@),
        is_hex(r@.skip(2)),
        hex_bytes(r@.skip(2)) == bytes@,
{
    lemma_text_spells(bytes@);
}

/// The prefixed hexadecimal text of bytes spells them and decodes to them.
pub proof fn lemma_text_spells(bytes: Seq<u8>)
    ensures
        spells(hex_0x_text(bytes), bytes),
        is_hex(hex_0x_text(bytes).skip(2)),
        hex_bytes(hex_0x_text(bytes).skip(2)) == bytes,
{
    reveal(spells);
    let text = hex_0x_text(bytes);
    reveal_strlit("0x");
    assert(is_hex(text.skip(2)) && hex_bytes(text.skip(2)) == bytes) by {
        law_hex_round_trip(bytes);
        assert(text.skip(2) =~= hex_text(bytes));
    }
    assert(text.len() == 2 + 2 * bytes.len() && text[0] == '0' && text[1] == 'x');
    assert forall|i: int| 0 <= i < bytes.len() implies text[2 + 2 * i]
        == "0123456789abcdef"@[#[trigger] bytes[i] as int / 16] && text[3 + 2 * i]
        == "0123456789abcdef"@[bytes[i] as int % 16] by {
        lemma_pair_spelled(bytes, i);
    }
}

/// Where the digits of the byte at `i` stand.
proof fn lemma_pair_spelled(bytes: Seq<u8>, i: int)
    requires
        0 <= i < bytes.len(),
    ensures
        hex_0x_text(bytes)[2 + 2 * i] == "0123456789abcdef"@[bytes[i] as int / 16],
        hex_0x_text(bytes)[3 + 2 * i] == "0123456789abcdef"@[bytes[i] as int % 16],
{
    reveal_strlit("0x");
    lemma_hex_digit(bytes[i] as int / 16);
    lemma_hex_digit(bytes[i] as int % 16);
    let text = hex_text(bytes);
    assert(hex_0x_text(bytes)[2 + 2 * i] == text[2 * i]);
    assert(hex_0x_text(bytes)[3 + 2 * i] == text[2 * i + 1]);
    assert((2 * i) / 2 == i && (2 * i) % 2 == 0);
    assert((2 * i + 1) / 2 == i && (2 * i + 1) % 2 == 1);
}

/// Bytes are spelled in one way only.
pub proof fn lemma_spelling_unique(a: Seq<char>, b: Seq<char>, bytes: Seq<u8>)
    requires
        spells(a, bytes),
        spells(b, bytes),
    ensures
        a == b,
{
    reveal(spells);
    assert forall|k: int| 0 <= k < a.len() implies a[k] == b[k] by {
        if k >= 2 {
            let i = (k - 2) / 2;
            let digits = "0123456789abcdef"@;
            assert(a[2 + 2 * i] == digits[bytes[i] as int / 16]);
            assert(b[2 + 2 * i] == digits[bytes[i] as int / 16]);
            assert(a[3 + 2 * i] == digits[bytes[i] as int % 16]);
            assert(b[3 + 2 * i] == digits[bytes[i] as int % 16]);
            assert(k == 2 + 2 * i || k == 3 + 2 * i);
        }
    }
    assert(a =~= b);
}

} // verus!
