//! Digests of text: the primitives that identity keys and password
//! representations are derived from.

use std::collections::hash_map::DefaultHasher;
use std::hash::{Hash, Hasher};
use vstd::prelude::*;
use vstd::std_specs::hash::DefaultHasherAdditionalSpecFns;
use vstd::string::{StrSliceExecFns, StringExecFns};

verus! {

/// The MD5 digest of the UTF-8 bytes of `text`, written as lowercase
/// hexadecimal. The algorithm is not modelled; this only gives the digest a
/// name, so that equal texts are known to have equal digests.
pub uninterp spec fn md5_hex(text: Seq<char>) -> Seq<char>;

/// Trusted: `md5::compute` on the bytes of `text`, formatted with the
/// digest's `LowerHex` impl, which writes each of the 16 digest bytes as two
/// lowercase hexadecimal characters. The contract names the result and states
/// its length; neither is proved here.
#[verifier::external_body]
pub(crate) fn md5_hex_of(text: &str) -> (hex: String)
    ensures
        hex@ == md5_hex(text@),
        hex@.len() == 32,
{
    format!("{:x}", md5::compute(text))
}

/// The writes that hashing `text` makes to a hasher. They depend on the text
/// alone; which bytes they are is left open.
pub uninterp spec fn text_writes(text: Seq<char>) -> Seq<Seq<u8>>;

/// Trusted: `<str as Hash>::hash` into a `DefaultHasher`. The contract says
/// that the hasher has received, after whatever it held, the writes that
/// belong to `text`, and nothing else.
#[verifier::external_body]
fn feed_text(state: &mut DefaultHasher, text: &str)
    ensures
        final(state)@ == old(state)@ + text_writes(text@),
{
    text.hash(state);
}

/// The 64-bit digest that a fresh `DefaultHasher` gives for `text`.
pub open spec fn sip_digest(text: Seq<char>) -> u64 {
    DefaultHasher::spec_finish(text_writes(text))
}

/// Hashes `text` with a fresh `DefaultHasher`, which has fixed keys: the
/// digest is the same in every process.
pub fn sip_digest_of(text: &str) -> (digest: u64)
    ensures
        digest == sip_digest(text@),
{
    let mut state = DefaultHasher::new();
    feed_text(&mut state, text);
    assert(state@ =~= text_writes(text@));
    state.finish()
}

/// The character that stands for the decimal digit `d`.
pub open spec fn digit(d: int) -> char
    recommends
        0 <= d < 10,
{
    "0123456789"@[d]
}

/// The decimal numeral of `n`: no sign, no leading zero, `"0"` for zero.
pub open spec fn decimal(n: nat) -> Seq<char>
    decreases n,
{
    if n < 10 {
        seq![digit(n as int)]
    } else {
        decimal(n / 10).push(digit((n % 10) as int))
    }
}

fn digit_text(d: u64) -> (text: &'static str)
    requires
        d < 10,
    ensures
        text@ == seq![digit(d as int)],
{
    proof {
        reveal_strlit("0123456789");
    }
    let at = d as usize;
    let text = "0123456789".substring_char(at, at + 1);
    assert(text@ =~= seq![digit(d as int)]);
    text
}

/// Writes `n` as a decimal numeral.
pub fn to_decimal(n: u64) -> (text: String)
    ensures
        text@ == decimal(n as nat),
    decreases n,
{
    if n < 10 {
        String::from_str(digit_text(n))
    } else {
        let mut text = to_decimal(n / 10);
        text.append(digit_text(n % 10));
        text
    }
}

/// The last `width` decimal digits of `n`, the most significant first, with
/// zeros in front where `n` has fewer: a numeral of exactly `width`
/// characters.
pub open spec fn fixed_decimal(n: nat, width: nat) -> Seq<char>
    decreases width,
{
    if width == 0 {
        Seq::empty()
    } else {
        fixed_decimal(n / 10, (width - 1) as nat).push(digit((n % 10) as int))
    }
}

/// A numeral of fixed width has that many characters, whatever the number.
pub proof fn lemma_fixed_decimal_len(n: nat, width: nat)
    ensures
        fixed_decimal(n, width).len() == width,
    decreases width,
{
    if width > 0 {
        lemma_fixed_decimal_len(n / 10, (width - 1) as nat);
    }
}

/// Where the plain numeral of `n` fits into `width` characters, the numeral
/// of fixed width is the plain one behind as many zeros as fill the width.
pub proof fn lemma_fixed_decimal_pads(n: nat, width: nat)
    requires
        decimal(n).len() <= width,
    ensures
        fixed_decimal(n, width) == Seq::new(
            (width - decimal(n).len()) as nat,
            |i: int| digit(0),
        ) + decimal(n),
    decreases width,
{
    let zeros = Seq::new((width - decimal(n).len()) as nat, |i: int| digit(0));
    if n < 10 {
        lemma_fixed_decimal_of_zero((width - 1) as nat);
        assert(n / 10 == 0);
        assert(fixed_decimal(n, width) =~= zeros + decimal(n));
    } else {
        lemma_fixed_decimal_pads(n / 10, (width - 1) as nat);
        assert(fixed_decimal(n, width) =~= zeros + decimal(n));
    }
}

/// Ten to the power of `k`.
pub open spec fn pow10(k: nat) -> nat
    decreases k,
{
    if k == 0 {
        1
    } else {
        10 * pow10((k - 1) as nat)
    }
}

/// A number below ten to the `k` has a plain numeral of at most `k`
/// characters.
pub proof fn lemma_decimal_len(n: nat, k: nat)
    requires
        k >= 1,
        n < pow10(k),
    ensures
        1 <= decimal(n).len() <= k,
    decreases k,
{
    if n >= 10 {
        assert(pow10(1) == 10) by {
            reveal_with_fuel(pow10, 2);
        }
        assert(k >= 2);
        assert(n / 10 < pow10((k - 1) as nat));
        lemma_decimal_len(n / 10, (k - 1) as nat);
    }
}

/// Twenty characters hold the plain numeral of every 64-bit number, so
/// that at this width no digit is lost: the numeral of fixed width is the
/// plain one with zeros in front.
pub proof fn lemma_fixed_decimal_of_u64(n: u64)
    ensures
        decimal(n as nat).len() <= 20,
        fixed_decimal(n as nat, 20) == Seq::new(
            (20 - decimal(n as nat).len()) as nat,
            |i: int| digit(0),
        ) + decimal(n as nat),
{
    assert(pow10(20) == 100000000000000000000) by {
        reveal_with_fuel(pow10, 21);
    }
    lemma_decimal_len(n as nat, 20);
    lemma_fixed_decimal_pads(n as nat, 20);
}

/// Zero, at any width, is written with zeros only.
proof fn lemma_fixed_decimal_of_zero(width: nat)
    ensures
        fixed_decimal(0, width) == Seq::new(width, |i: int| digit(0)),
    decreases width,
{
    if width > 0 {
        lemma_fixed_decimal_of_zero((width - 1) as nat);
        assert(0nat / 10 == 0 && 0nat % 10 == 0);
    }
    assert(fixed_decimal(0, width) =~= Seq::new(width, |i: int| digit(0)));
}

/// Writes `n` as a numeral of exactly `width` decimal digits.
pub fn to_fixed_decimal(n: u64, width: usize) -> (text: String)
    ensures
        text@ == fixed_decimal(n as nat, width as nat),
        text@.len() == width,
    decreases width,
{
    proof {
        lemma_fixed_decimal_len(n as nat, width as nat);
    }
    if width == 0 {
        String::new()
    } else {
        let mut text = to_fixed_decimal(n / 10, width - 1);
        text.append(digit_text(n % 10));
        text
    }
}

} // verus!
