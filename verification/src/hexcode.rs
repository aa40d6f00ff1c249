//! Hexadecimal text of bytes, through the `hex` crate.

use vstd::prelude::*;

verus! {

/// The sixteen lower-case hex digit characters, indexed by their value.
pub open spec fn lower_hex_digits() -> Seq<char> {
    seq!['0', '1', '2', '3', '4', '5', '6', '7', '8', '9', 'a', 'b', 'c', 'd', 'e', 'f']
}

/// Whether `c` is a hex digit of either case.
pub open spec fn is_hex_digit(c: char) -> bool {
    ||| '0' <= c <= '9'
    ||| 'a' <= c <= 'f'
    ||| 'A' <= c <= 'F'
}

/// The value of the hex digit `c`.
pub open spec fn hex_digit_value(c: char) -> int {
    if '0' <= c <= '9' {
        c as int - '0' as int
    } else if 'a' <= c <= 'f' {
        c as int - 'a' as int + 10
    } else {
        c as int - 'A' as int + 10
    }
}

/// Whether every character of `s` is a hex digit.
pub open spec fn all_hex_digits(s: Seq<char>) -> bool {
    forall|i: int| 0 <= i < s.len() ==> is_hex_digit(#[trigger] s[i])
}

/// The lower-case hex text of `bytes`: two digits per byte, high half first.
pub open spec fn hex_text(bytes: Seq<u8>) -> Seq<char> {
    Seq::new(
        2 * bytes.len(),
        |i: int|
            if i % 2 == 0 {
                lower_hex_digits()[(bytes[i / 2] / 16) as int]
            } else {
                lower_hex_digits()[(bytes[i / 2] % 16) as int]
            },
    )
}

/// Whether `s` is text that `hex::decode` accepts: an even number of hex digits.
pub open spec fn is_hex_text(s: Seq<char>) -> bool {
    s.len() % 2 == 0 && all_hex_digits(s)
}

/// The bytes that the hex text `s` stands for, two digits per byte.
pub open spec fn hex_bytes(s: Seq<char>) -> Seq<u8> {
    Seq::new(
        s.len() / 2,
        |i: int| (16 * hex_digit_value(s[2 * i]) + hex_digit_value(s[2 * i + 1])) as u8,
    )
}

/// Calls `hex::encode`, which writes each byte as two lower-case hex digits,
/// high half first.
#[verifier::external_body]
pub(crate) fn hex_encode(bytes: &[u8]) -> (r: String)
    ensures
        r@ == hex_text(bytes@),
{
    hex::encode(bytes)
}

/// Calls `hex::decode` on the bytes of `s`, keeping the decoded bytes and
/// dropping the error's detail. The crate refuses input of odd length or with
/// a byte that is not a hex digit of either case; a character outside ASCII is
/// never a hex digit, so the condition can be read over characters.
#[verifier::external_body]
pub(crate) fn hex_decode(s: &str) -> (r: Option<Vec<u8>>)
    ensures
        r is Some <==> is_hex_text(s@),
        r matches Some(v) ==> v@ == hex_bytes(s@),
{
    hex::decode(s).ok()
}

proof fn lemma_hex_digit(v: int)
    requires
        0 <= v < 16,
    ensures
        is_hex_digit(lower_hex_digits()[v]),
        hex_digit_value(lower_hex_digits()[v]) == v,
{
    let d = lower_hex_digits();
    assert(d[0] == '0' && d[1] == '1' && d[2] == '2' && d[3] == '3');
    assert(d[4] == '4' && d[5] == '5' && d[6] == '6' && d[7] == '7');
    assert(d[8] == '8' && d[9] == '9' && d[10] == 'a' && d[11] == 'b');
    assert(d[12] == 'c' && d[13] == 'd' && d[14] == 'e' && d[15] == 'f');
}

/// Hex text read back gives the bytes it was written from.
pub proof fn lemma_hex_round_trip(bytes: Seq<u8>)
    ensures
        is_hex_text(hex_text(bytes)),
        hex_bytes(hex_text(bytes)) == bytes,
{
    let t = hex_text(bytes);
    assert forall|i: int| 0 <= i < t.len() implies is_hex_digit(#[trigger] t[i]) by {
        let b = bytes[i / 2];
        lemma_hex_digit((b / 16) as int);
        lemma_hex_digit((b % 16) as int);
    }
    assert forall|j: int| 0 <= j < bytes.len() implies #[trigger] hex_bytes(t)[j] == bytes[j] by {
        let b = bytes[j];
        assert((2 * j) / 2 == j);
        assert((2 * j + 1) / 2 == j);
        assert((2 * j) % 2 == 0);
        assert((2 * j + 1) % 2 == 1);
        lemma_hex_digit((b / 16) as int);
        lemma_hex_digit((b % 16) as int);
        assert(16 * (b / 16) + b % 16 == b);
    }
    assert(hex_bytes(t) =~= bytes);
}

} // verus!
