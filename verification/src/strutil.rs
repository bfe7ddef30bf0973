use vstd::prelude::*;
use vstd::string::StrSliceExecFns;

verus! {

/// A `u32` is a Unicode scalar value exactly when it avoids the surrogate
/// range and stays at or below the largest code point.
pub open spec fn valid_scalar(n: u32) -> bool {
    n < 0xD800 || (0xE000 <= n && n <= 0x10FFFF)
}

/// Relies on `char::from_u32`: it returns `Some` exactly for Unicode scalar
/// values, and the returned character has the given code.
#[verifier::external_body]
pub fn char_from_u32(n: u32) -> (r: Option<char>)
    ensures
        r is Some <==> valid_scalar(n),
        r is Some ==> r.unwrap() as u32 == n,
{
    char::from_u32(n)
}

/// Relies on `core::iter::Iterator::collect`: collecting the characters of a
/// vector yields the string with exactly those characters.
#[verifier::external_body]
pub fn string_from_chars(v: &Vec<char>) -> (r: String)
    ensures
        r@ == v@,
{
    v.iter().collect()
}

/// ASCII lowercase of one character; everything outside `A`..`Z` is kept.
pub open spec fn lower_char(c: char) -> char {
    if 65 <= c as u32 && c as u32 <= 90 {
        ((c as u32 + 32) as u32) as char
    } else {
        c
    }
}

/// ASCII lowercase of a character sequence.
pub open spec fn lower(s: Seq<char>) -> Seq<char> {
    s.map_values(|c: char| lower_char(c))
}

/// Executable ASCII lowercase of one character.
pub fn to_lower_char(c: char) -> (r: char)
    ensures
        r == lower_char(c),
{
    let u = c as u32;
    if 65 <= u && u <= 90 {
        match char_from_u32(u + 32) {
            Some(l) => {
                proof {
                    vstd::utf8::char_u32_cast(l, (u + 32) as u32);
                }
                l
            },
            None => {
                proof {
                    assert(valid_scalar((u + 32) as u32));
                    assert(false);
                }
                c
            },
        }
    } else {
        c
    }
}

/// The characters of a string, in order.
pub fn chars_of(s: &str) -> (r: Vec<char>)
    ensures
        r@ == s@,
{
    let n = s.unicode_len();
    let mut r: Vec<char> = Vec::new();
    let mut i: usize = 0;
    while i < n
        invariant
            n == s@.len(),
            i <= n,
            r@ == s@.subrange(0, i as int),
        decreases n - i,
    {
        r.push(s.get_char(i));
        i += 1;
        proof {
            assert(r@ =~= s@.subrange(0, i as int));
        }
    }
    proof {
        assert(r@ =~= s@);
    }
    r
}

/// The output alphabet of the numeral re-basing helper: decimal digits,
/// lowercase, uppercase, `+`, `/` — truncated to the output base in use.
pub open spec fn alphabet() -> Seq<char> {
    "0123456789abcdefghijklmnopqrstuvwxyzABCDEFGHIJKLMNOPQRSTUVWXYZ+/"@
}

/// The alphabet character at index `i`.
pub fn alphabet_char(i: usize) -> (r: char)
    requires
        i < 64,
    ensures
        r == alphabet()[i as int],
{
    let s = "0123456789abcdefghijklmnopqrstuvwxyzABCDEFGHIJKLMNOPQRSTUVWXYZ+/";
    proof {
        reveal_strlit("0123456789abcdefghijklmnopqrstuvwxyzABCDEFGHIJKLMNOPQRSTUVWXYZ+/");
    }
    s.get_char(i)
}

/// The value a character contributes to a numeral: its decimal digit
/// value, or 0 for any character that is not a decimal digit.
pub open spec fn digit_val(c: char) -> nat {
    if 48 <= c as u32 && c as u32 <= 57 {
        (c as u32 - 48) as nat
    } else {
        0
    }
}

/// Executable digit value.
pub fn digit_val_exec(c: char) -> (r: u32)
    ensures
        r as nat == digit_val(c),
{
    let u = c as u32;
    if 48 <= u && u <= 57 {
        u - 48
    } else {
        0
    }
}

/// The place-value reading of `s` in base `base`: digits read left to
/// right, least significant last; non-digits count as 0.
pub open spec fn numeral_value(s: Seq<char>, base: nat) -> nat
    decreases s.len(),
{
    if s.len() == 0 {
        0
    } else {
        numeral_value(s.drop_last(), base) * base + digit_val(s.last())
    }
}

/// In any base at least 1, the value of a prefix never exceeds the value
/// of the whole numeral.
pub proof fn lemma_numeral_prefix_le(s: Seq<char>, i: int, base: nat)
    requires
        base >= 1,
        0 <= i <= s.len(),
    ensures
        numeral_value(s.take(i), base) <= numeral_value(s, base),
    decreases s.len() - i,
{
    if i == s.len() {
        assert(s.take(i) =~= s);
    } else {
        assert(s.take(i + 1).drop_last() =~= s.take(i));
        assert(numeral_value(s.take(i + 1), base) == numeral_value(s.take(i), base) * base
            + digit_val(s.take(i + 1).last()));
        assert(numeral_value(s.take(i), base) * base >= numeral_value(s.take(i), base) * 1)
            by (nonlinear_arith)
            requires
                base >= 1,
        ;
        lemma_numeral_prefix_le(s, i + 1, base);
    }
}

/// Reads the characters of `v` as a numeral in base `base` and returns its
/// value, or `None` when the value does not fit the engine's 32-bit domain.
pub fn checked_numeral(v: &Vec<char>, base: u32) -> (r: Option<u32>)
    ensures
        r is Some <==> numeral_value(v@, base as nat) <= u32::MAX,
        r is Some ==> r.unwrap() as nat == numeral_value(v@, base as nat),
{
    let mut acc: u128 = 0;
    let mut i: usize = 0;
    while i < v.len()
        invariant
            i <= v@.len(),
            acc as nat == numeral_value(v@.take(i as int), base as nat),
            acc <= u32::MAX,
        decreases v@.len() - i,
    {
        let d = digit_val_exec(v[i]);
        proof {
            assert(acc * (base as u128) <= 0xFFFF_FFFFu128 * 0xFFFF_FFFFu128)
                by (nonlinear_arith)
                requires
                    acc <= 0xFFFF_FFFFu128,
                    base <= 0xFFFF_FFFFu32,
            ;
        }
        let nacc: u128 = acc * (base as u128) + (d as u128);
        proof {
            assert(v@.take(i + 1).drop_last() =~= v@.take(i as int));
            assert(v@.take(i + 1).last() == v@[i as int]);
        }
        if nacc > 0xFFFF_FFFFu128 {
            proof {
                if base == 0 {
                    assert(acc * (base as u128) == 0) by (nonlinear_arith)
                        requires
                            base == 0u32,
                    ;
                    assert(false);
                }
                lemma_numeral_prefix_le(v@, i + 1, base as nat);
            }
            return None;
        }
        acc = nacc;
        i += 1;
    }
    proof {
        assert(v@.take(v@.len() as int) =~= v@);
    }
    Some(acc as u32)
}

/// The base-`base` rendering of `n` over the output alphabet, most
/// significant digit first; 0 renders as the empty string here.
pub open spec fn rebase(n: nat, base: nat) -> Seq<char>
    recommends
        2 <= base <= 64,
    decreases n,
    via rebase_decreases
{
    if n == 0 || base < 2 {
        Seq::empty()
    } else {
        rebase(n / base, base) + seq![alphabet()[(n % base) as int]]
    }
}

#[via_fn]
proof fn rebase_decreases(n: nat, base: nat) {
    if n != 0 && base >= 2 {
        vstd::arithmetic::div_mod::lemma_div_is_strictly_smaller(n as int, base as int);
    }
}

/// The base-`base` rendering of `n`, where 0 renders as `"0"`.
pub open spec fn rebase_or_zero(n: nat, base: nat) -> Seq<char> {
    if n == 0 {
        seq![alphabet()[0]]
    } else {
        rebase(n, base)
    }
}

/// The decimal rendering of `n`.
pub open spec fn dec_rep(n: nat) -> Seq<char> {
    rebase_or_zero(n, 10)
}

/// Renders `n` in base `base` over the output alphabet.
pub fn rebase_exec(n: u32, base: usize) -> (r: Vec<char>)
    requires
        2 <= base <= 64,
    ensures
        r@ == rebase_or_zero(n as nat, base as nat),
{
    let mut out: Vec<char> = Vec::new();
    if n == 0 {
        out.push(alphabet_char(0));
        return out;
    }
    let mut acc: u32 = n;
    while acc > 0
        invariant
            2 <= base <= 64,
            rebase(n as nat, base as nat) == rebase(acc as nat, base as nat) + out@,
        decreases acc,
    {
        let idx: usize = (acc % (base as u32)) as usize;
        out.insert(0, alphabet_char(idx));
        proof {
            assert(rebase(acc as nat, base as nat) == rebase((acc as nat) / (base as nat),
                base as nat) + seq![alphabet()[((acc as nat) % (base as nat)) as int]]);
        }
        acc = acc / (base as u32);
    }
    proof {
        assert(rebase(0, base as nat) + out@ =~= out@);
    }
    out
}

/// The decimal digits of `n`, as characters.
pub fn dec_digits(n: u64) -> (r: Vec<char>)
    ensures
        r@ == dec_rep(n as nat),
{
    let mut out: Vec<char> = Vec::new();
    if n == 0 {
        out.push(alphabet_char(0));
        return out;
    }
    let mut acc: u64 = n;
    while acc > 0
        invariant
            rebase(n as nat, 10) == rebase(acc as nat, 10) + out@,
        decreases acc,
    {
        let idx: usize = (acc % 10) as usize;
        out.insert(0, alphabet_char(idx));
        proof {
            assert(rebase(acc as nat, 10) == rebase((acc as nat) / 10, 10) + seq![alphabet()[((
            acc as nat) % 10) as int]]);
        }
        acc = acc / 10;
    }
    proof {
        assert(rebase(0, 10) + out@ =~= out@);
    }
    out
}

/// The decimal digits of a wide value, as characters.
pub fn dec_digits_u128(n: u128) -> (r: Vec<char>)
    ensures
        r@ == dec_rep(n as nat),
{
    let mut out: Vec<char> = Vec::new();
    if n == 0 {
        out.push(alphabet_char(0));
        return out;
    }
    let mut acc: u128 = n;
    while acc > 0
        invariant
            rebase(n as nat, 10) == rebase(acc as nat, 10) + out@,
        decreases acc,
    {
        let idx: usize = (acc % 10) as usize;
        out.insert(0, alphabet_char(idx));
        proof {
            assert(rebase(acc as nat, 10) == rebase((acc as nat) / 10, 10) + seq![alphabet()[((
            acc as nat) % 10) as int]]);
        }
        acc = acc / 10;
    }
    proof {
        assert(rebase(0, 10) + out@ =~= out@);
    }
    out
}

/// The decimal rendering of `n` as a string.
pub fn u64_to_dec(n: u64) -> (r: String)
    ensures
        r@ == dec_rep(n as nat),
{
    let v = dec_digits(n);
    string_from_chars(&v)
}

/// Reads an all-digit sequence as a decimal number, or `None` when the
/// value exceeds `u64::MAX`.
pub fn parse_u64_digits(v: &Vec<char>) -> (r: Option<u64>)
    ensures
        r is Some <==> numeral_value(v@, 10) <= u64::MAX,
        r is Some ==> r.unwrap() as nat == numeral_value(v@, 10),
{
    let mut acc: u128 = 0;
    let mut i: usize = 0;
    while i < v.len()
        invariant
            i <= v@.len(),
            acc as nat == numeral_value(v@.take(i as int), 10),
            acc <= u64::MAX,
        decreases v@.len() - i,
    {
        let d = digit_val_exec(v[i]);
        let nacc: u128 = acc * 10 + (d as u128);
        proof {
            assert(v@.take(i + 1).drop_last() =~= v@.take(i as int));
            assert(v@.take(i + 1).last() == v@[i as int]);
        }
        if nacc > u64::MAX as u128 {
            proof {
                lemma_numeral_prefix_le(v@, i + 1, 10);
            }
            return None;
        }
        acc = nacc;
        i += 1;
    }
    proof {
        assert(v@.take(v@.len() as int) =~= v@);
    }
    Some(acc as u64)
}

/// Whether the ASCII-lowercased view of `s` equals `lit` exactly.
pub fn eq_lower(s: &str, lit: &str) -> (r: bool)
    ensures
        r == (lower(s@) == lit@),
{
    let n = s.unicode_len();
    let m = lit.unicode_len();
    if n != m {
        proof {
            assert(lower(s@).len() == s@.len());
            assert(lower(s@) != lit@);
        }
        return false;
    }
    let mut i: usize = 0;
    while i < n
        invariant
            n == s@.len(),
            n == lit@.len(),
            i <= n,
            forall|j: int| 0 <= j < i ==> lower_char(s@[j]) == lit@[j],
        decreases n - i,
    {
        let a = to_lower_char(s.get_char(i));
        let b = lit.get_char(i);
        if a != b {
            proof {
                assert(lower(s@)[i as int] != lit@[i as int]);
            }
            return false;
        }
        i += 1;
    }
    proof {
        assert(lower(s@) =~= lit@);
    }
    true
}

} // verus!
