//! Decimal text of ports, reading a port back, and whitespace trimming.

use vstd::prelude::*;

verus! {

/// The ten decimal digit characters, indexed by their value.
pub open spec fn decimal_digits() -> Seq<char> {
    seq!['0', '1', '2', '3', '4', '5', '6', '7', '8', '9']
}

/// Whether `c` is an ASCII decimal digit.
pub open spec fn is_decimal_digit(c: char) -> bool {
    '0' <= c <= '9'
}

/// The value of the ASCII decimal digit `c`.
pub open spec fn decimal_digit_value(c: char) -> nat {
    (c as int - '0' as int) as nat
}

/// The shortest decimal rendering of `n`, without sign or leading zeros.
pub open spec fn decimal(n: nat) -> Seq<char>
    decreases n,
{
    if n < 10 {
        seq![decimal_digits()[n as int]]
    } else {
        decimal(n / 10) + seq![decimal_digits()[(n % 10) as int]]
    }
}

/// The number that a sequence of decimal digits denotes (most significant first).
pub open spec fn digits_value(s: Seq<char>) -> nat
    decreases s.len(),
{
    if s.len() == 0 {
        0
    } else {
        digits_value(s.drop_last()) * 10 + decimal_digit_value(s.last())
    }
}

/// Whether every character of `s` is an ASCII decimal digit.
pub open spec fn all_decimal_digits(s: Seq<char>) -> bool {
    forall|i: int| 0 <= i < s.len() ==> is_decimal_digit(#[trigger] s[i])
}

/// How `u16`'s `FromStr` reads text: an optional `+`, then one or more ASCII
/// digits whose value fits in 16 bits; anything else is refused.
pub open spec fn parse_u16_text(s: Seq<char>) -> Option<u16> {
    let body = if s.len() > 0 && s[0] == '+' { s.drop_first() } else { s };
    if body.len() > 0 && all_decimal_digits(body) && digits_value(body) <= 65535 {
        Some(digits_value(body) as u16)
    } else {
        None
    }
}

proof fn lemma_digit_char(k: nat)
    requires
        k < 10,
    ensures
        is_decimal_digit(decimal_digits()[k as int]),
        decimal_digit_value(decimal_digits()[k as int]) == k,
{
    assert(decimal_digits()[0] == '0');
    assert(decimal_digits()[1] == '1');
    assert(decimal_digits()[2] == '2');
    assert(decimal_digits()[3] == '3');
    assert(decimal_digits()[4] == '4');
    assert(decimal_digits()[5] == '5');
    assert(decimal_digits()[6] == '6');
    assert(decimal_digits()[7] == '7');
    assert(decimal_digits()[8] == '8');
    assert(decimal_digits()[9] == '9');
}

/// Decimal text is a nonempty run of digits that denotes the number it renders.
pub proof fn lemma_decimal_facts(n: nat)
    ensures
        decimal(n).len() > 0,
        all_decimal_digits(decimal(n)),
        digits_value(decimal(n)) == n,
    decreases n,
{
    if n < 10 {
        lemma_digit_char(n);
        assert(decimal(n).drop_last() =~= Seq::<char>::empty());
        assert(digits_value(decimal(n).drop_last()) == 0);
    } else {
        lemma_decimal_facts(n / 10);
        lemma_digit_char(n % 10);
        let d = decimal(n);
        assert(d.drop_last() =~= decimal(n / 10));
        assert(d.last() == decimal_digits()[(n % 10) as int]);
        assert(digits_value(d) == digits_value(decimal(n / 10)) * 10 + (n % 10));
        assert((n / 10) * 10 + n % 10 == n);
    }
}

/// Reading back the decimal text of a port gives the same port.
pub proof fn lemma_port_text_parses_back(port: u16)
    ensures
        parse_u16_text(decimal(port as nat)) == Some(port),
{
    lemma_decimal_facts(port as nat);
    let d = decimal(port as nat);
    assert(is_decimal_digit(d[0]));
}

fn digit_text(d: u16) -> (s: &'static str)
    requires
        d < 10,
    ensures
        s@ == seq![decimal_digits()[d as int]],
{
    let digits = "0123456789";
    proof {
        reveal_strlit("0123456789");
    }
    assert(digits@ =~= decimal_digits());
    let s = digits.substring_char(d as usize, d as usize + 1);
    assert(s@ =~= seq![decimal_digits()[d as int]]);
    s
}

fn append_decimal(out: &mut String, n: u16)
    ensures
        final(out)@ == old(out)@ + decimal(n as nat),
    decreases n,
{
    if n >= 10 {
        append_decimal(out, n / 10);
    }
    out.append(digit_text(n % 10));
    assert(final(out)@ =~= old(out)@ + decimal(n as nat));
}

/// The decimal text of a port number, as it appears in links and addresses.
pub fn port_text(port: u16) -> (s: String)
    ensures
        s@ == decimal(port as nat),
{
    let mut s = String::new();
    append_decimal(&mut s, port);
    assert(s@ =~= decimal(port as nat));
    s
}

/// Whether `c` has the Unicode `White_Space` property, the whitespace that
/// `str::trim` removes.
pub open spec fn is_unicode_whitespace(c: char) -> bool {
    let u = c as u32;
    ||| 0x09 <= u <= 0x0D
    ||| u == 0x20
    ||| u == 0x85
    ||| u == 0xA0
    ||| u == 0x1680
    ||| 0x2000 <= u <= 0x200A
    ||| u == 0x2028
    ||| u == 0x2029
    ||| u == 0x202F
    ||| u == 0x205F
    ||| u == 0x3000
}

/// `s` without its leading whitespace.
pub open spec fn trim_start_text(s: Seq<char>) -> Seq<char>
    decreases s.len(),
{
    if s.len() > 0 && is_unicode_whitespace(s[0]) {
        trim_start_text(s.drop_first())
    } else {
        s
    }
}

/// `s` without its trailing whitespace.
pub open spec fn trim_end_text(s: Seq<char>) -> Seq<char>
    decreases s.len(),
{
    if s.len() > 0 && is_unicode_whitespace(s.last()) {
        trim_end_text(s.drop_last())
    } else {
        s
    }
}

/// `s` without leading and trailing whitespace.
pub open spec fn trimmed(s: Seq<char>) -> Seq<char> {
    trim_end_text(trim_start_text(s))
}

/// Decimal text has no whitespace to trim.
pub proof fn lemma_decimal_is_trimmed(n: nat)
    ensures
        trimmed(decimal(n)) == decimal(n),
{
    lemma_decimal_facts(n);
    let d = decimal(n);
    assert(is_decimal_digit(d[0]));
    assert(is_decimal_digit(d.last()));
}

/// Whether every character of `s` is whitespace.
pub open spec fn all_whitespace(s: Seq<char>) -> bool {
    forall|i: int| 0 <= i < s.len() ==> is_unicode_whitespace(#[trigger] s[i])
}

proof fn lemma_trim_start_skips_whitespace(pre: Seq<char>, s: Seq<char>)
    requires
        all_whitespace(pre),
    ensures
        trim_start_text(pre + s) == trim_start_text(s),
    decreases pre.len(),
{
    if pre.len() > 0 {
        assert((pre + s)[0] == pre[0]);
        assert((pre + s).drop_first() =~= pre.drop_first() + s);
        lemma_trim_start_skips_whitespace(pre.drop_first(), s);
    } else {
        assert(pre + s =~= s);
    }
}

proof fn lemma_trim_end_skips_whitespace(s: Seq<char>, post: Seq<char>)
    requires
        all_whitespace(post),
    ensures
        trim_end_text(s + post) == trim_end_text(s),
    decreases post.len(),
{
    if post.len() > 0 {
        assert((s + post).last() == post.last());
        assert((s + post).drop_last() =~= s + post.drop_last());
        lemma_trim_end_skips_whitespace(s, post.drop_last());
    } else {
        assert(s + post =~= s);
    }
}

proof fn lemma_trim_start_of_whitespace(s: Seq<char>)
    requires
        all_whitespace(s),
    ensures
        trim_start_text(s).len() == 0,
    decreases s.len(),
{
    if s.len() > 0 {
        lemma_trim_start_of_whitespace(s.drop_first());
    }
}

proof fn lemma_trim_start_then_whitespace(s: Seq<char>, post: Seq<char>)
    requires
        all_whitespace(post),
    ensures
        trim_start_text(s + post) == if trim_start_text(s).len() > 0 {
            trim_start_text(s) + post
        } else {
            Seq::<char>::empty()
        },
    decreases s.len(),
{
    if s.len() == 0 {
        assert(s + post =~= post);
        lemma_trim_start_of_whitespace(post);
    } else {
        assert((s + post)[0] == s[0]);
        if is_unicode_whitespace(s[0]) {
            assert((s + post).drop_first() =~= s.drop_first() + post);
            lemma_trim_start_then_whitespace(s.drop_first(), post);
        }
    }
}

/// Whitespace around a text does not change what remains after trimming.
pub proof fn lemma_trimmed_ignores_surrounding_whitespace(pre: Seq<char>, s: Seq<char>, post: Seq<char>)
    requires
        all_whitespace(pre),
        all_whitespace(post),
    ensures
        trimmed(pre + s + post) == trimmed(s),
{
    assert(pre + s + post =~= pre + (s + post));
    lemma_trim_start_skips_whitespace(pre, s + post);
    lemma_trim_start_then_whitespace(s, post);
    if trim_start_text(s).len() > 0 {
        lemma_trim_end_skips_whitespace(trim_start_text(s), post);
    }
}

proof fn lemma_trim_start_shape(s: Seq<char>)
    ensures
        trim_start_text(s).len() > 0 ==> !is_unicode_whitespace(trim_start_text(s)[0]),
    decreases s.len(),
{
    if s.len() > 0 && is_unicode_whitespace(s[0]) {
        lemma_trim_start_shape(s.drop_first());
    }
}

proof fn lemma_trim_end_shape(s: Seq<char>)
    ensures
        trim_end_text(s).len() <= s.len(),
        trim_end_text(s) == s.take(trim_end_text(s).len() as int),
        trim_end_text(s).len() > 0 ==> !is_unicode_whitespace(trim_end_text(s).last()),
    decreases s.len(),
{
    if s.len() > 0 && is_unicode_whitespace(s.last()) {
        lemma_trim_end_shape(s.drop_last());
        let r = trim_end_text(s.drop_last());
        assert(s.drop_last().take(r.len() as int) =~= s.take(r.len() as int));
    } else {
        assert(s.take(s.len() as int) =~= s);
    }
}

/// Trimming twice is trimming once.
pub proof fn lemma_trimmed_idempotent(s: Seq<char>)
    ensures
        trimmed(trimmed(s)) == trimmed(s),
{
    let u = trim_start_text(s);
    let v = trim_end_text(u);
    lemma_trim_start_shape(s);
    lemma_trim_end_shape(u);
    if v.len() > 0 {
        assert(v[0] == u[0]);
        assert(trim_start_text(v) == v);
        assert(trim_end_text(v) == v);
    } else {
        assert(trim_start_text(v) == v);
        assert(trim_end_text(v) == v);
    }
}

/// Calls `str::trim`, which the standard library documents as removing the
/// leading and trailing characters with the Unicode `White_Space` property.
#[verifier::external_body]
pub(crate) fn trim(s: &str) -> (r: &str)
    ensures
        r@ == trimmed(s@),
{
    s.trim()
}

/// Calls `u16`'s `FromStr` (`str::parse::<u16>`), keeping only whether and
/// what it read; the standard library documents the accepted form as an
/// optional `+` followed by decimal digits whose value fits the type.
#[verifier::external_body]
pub(crate) fn parse_u16(s: &str) -> (r: Option<u16>)
    ensures
        r == parse_u16_text(s@),
{
    s.parse::<u16>().ok()
}

} // verus!
