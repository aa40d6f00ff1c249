//! MTProto proxy secrets: 16 bytes written as 32 hex digits.

use rand::RngCore;
use vstd::prelude::*;

use crate::hexcode::{all_hex_digits, hex_decode, hex_encode, hex_text, is_hex_digit, lemma_hex_round_trip};

verus! {

/// Whether `s` is a usable secret: exactly 32 hex digits (either case).
pub open spec fn is_valid_secret(s: Seq<char>) -> bool {
    s.len() == 32 && all_hex_digits(s)
}

/// Whether `s` is the hex text of some 16 bytes, as a freshly made secret is.
pub open spec fn is_generated_secret(s: Seq<char>) -> bool {
    exists|b: Seq<u8>| b.len() == 16 && s == hex_text(b)
}

/// A valid secret is hex text that decodes to exactly 16 bytes, that is,
/// 32 hex digits.
pub fn valid_secret(s: &str) -> (ok: bool)
    ensures
        ok == is_valid_secret(s@),
{
    match hex_decode(s) {
        Some(bytes) => bytes.len() == 16,
        None => false,
    }
}

/// Draws 16 bytes from the operating system's random source with
/// `rand::rngs::OsRng` and `RngCore::try_fill_bytes`, which reports a failure
/// of that source as an error (`None` here) rather than panicking. Any 16
/// bytes may come back.
#[verifier::external_body]
pub(crate) fn random_secret_bytes() -> (r: Option<[u8; 16]>) {
    let mut buf = [0u8; 16];
    match rand::rngs::OsRng.try_fill_bytes(&mut buf) {
        Ok(()) => Some(buf),
        Err(_) => None,
    }
}

/// The secret made from the given 16 bytes: their lower-case hex text.
pub fn secret_from_bytes(bytes: &[u8; 16]) -> (s: String)
    ensures
        s@ == hex_text(bytes@),
        is_valid_secret(s@),
        is_generated_secret(s@),
{
    let s = hex_encode(bytes.as_slice());
    proof {
        lemma_hex_round_trip(bytes@);
    }
    s
}

/// A fresh random secret of 32 lower-case hex digits, or `None` when the
/// operating system's random source fails.
pub fn gen_secret() -> (r: Option<String>)
    ensures
        r matches Some(s) ==> is_valid_secret(s@) && is_generated_secret(s@),
{
    match random_secret_bytes() {
        Some(bytes) => Some(secret_from_bytes(&bytes)),
        None => None,
    }
}

/// The secret a start runs with, given the caller's secret and what the
/// random source yielded (`None`: nothing was drawn, or the draw failed): the
/// caller's secret when valid, otherwise the hex text of the drawn bytes.
pub open spec fn resolved_secret(given: Seq<char>, draw: Option<[u8; 16]>) -> Option<Seq<char>> {
    if is_valid_secret(given) {
        Some(given)
    } else {
        match draw {
            Some(bytes) => Some(hex_text(bytes@)),
            None => None,
        }
    }
}

/// Resolves the secret from the caller's secret and the outcome of a draw
/// from the random source.
pub fn resolve_secret_with(given: &str, draw: Option<[u8; 16]>) -> (r: Option<String>)
    ensures
        r is Some <==> resolved_secret(given@, draw) is Some,
        r matches Some(s) ==> resolved_secret(given@, draw) == Some(s@),
        r is None <==> (!is_valid_secret(given@) && draw is None),
{
    if valid_secret(given) {
        Some(given.to_owned())
    } else {
        match draw {
            Some(bytes) => Some(secret_from_bytes(&bytes)),
            None => None,
        }
    }
}

/// The secret a proxy runs with: the caller's if it is valid, otherwise a
/// freshly generated one (`None` when no random bytes could be drawn). The
/// random source is asked only when the caller's secret is not valid.
pub fn resolve_secret(given: &str) -> (r: Option<String>)
    ensures
        is_valid_secret(given@) ==> (r matches Some(s) && s@ == given@),
        !is_valid_secret(given@) ==> (r matches Some(s) ==> is_generated_secret(s@)),
        r matches Some(s) ==> is_valid_secret(s@),
        r matches Some(s) ==> exists|draw: Option<[u8; 16]>| resolved_secret(given@, draw) == Some(s@),
{
    let draw = if valid_secret(given) {
        None
    } else {
        random_secret_bytes()
    };
    let r = resolve_secret_with(given, draw);
    proof {
        lemma_resolved_secret_is_valid(given@, draw);
        if r is Some && !is_valid_secret(given@) {
            let b = draw->0;
            assert(b@.len() == 16 && r->0@ == hex_text(b@));
        }
    }
    r
}

/// A resolved secret is always a valid one.
pub proof fn lemma_resolved_secret_is_valid(given: Seq<char>, draw: Option<[u8; 16]>)
    ensures
        resolved_secret(given, draw) matches Some(s) ==> is_valid_secret(s),
{
    if let Some(bytes) = draw {
        lemma_hex_round_trip(bytes@);
    }
}

/// A start is refused only when a secret had to be minted and the random
/// source gave nothing: a valid secret, or any successful draw, always yields
/// a secret.
pub proof fn lemma_resolution_fails_only_without_draw(given: Seq<char>, draw: Option<[u8; 16]>)
    ensures
        resolved_secret(given, draw) is None <==> (!is_valid_secret(given) && draw is None),
{
}

/// A valid caller secret is kept whatever the random source does.
pub proof fn lemma_valid_secret_is_kept(given: Seq<char>, draw: Option<[u8; 16]>)
    requires
        is_valid_secret(given),
    ensures
        resolved_secret(given, draw) == Some(given),
{
}

/// What an invalid caller secret says does not matter: any two invalid
/// secrets resolve alike for the same draw.
pub proof fn lemma_invalid_secrets_resolve_alike(
    given1: Seq<char>,
    given2: Seq<char>,
    draw: Option<[u8; 16]>,
)
    requires
        !is_valid_secret(given1),
        !is_valid_secret(given2),
    ensures
        resolved_secret(given1, draw) == resolved_secret(given2, draw),
{
}

/// Different draws give different secrets: the secret determines the bytes
/// it was minted from.
pub proof fn lemma_distinct_draws_distinct_secrets(bytes1: Seq<u8>, bytes2: Seq<u8>)
    requires
        bytes1 != bytes2,
    ensures
        hex_text(bytes1) != hex_text(bytes2),
{
    lemma_hex_round_trip(bytes1);
    lemma_hex_round_trip(bytes2);
}

} // verus!
