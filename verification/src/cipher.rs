use vstd::prelude::*;

use crate::errors::AnimeDownloaderError;
use crate::strutil::{
    alphabet, char_from_u32, chars_of, checked_numeral, dec_digits, dec_rep, digit_val,
    numeral_value, rebase_exec, rebase_or_zero, string_from_chars, valid_scalar,
};

verus! {

/// Every occurrence of `c` in `s` replaced by `rep`.
pub open spec fn replace_char_seq(s: Seq<char>, c: char, rep: Seq<char>) -> Seq<char>
    decreases s.len(),
{
    if s.len() == 0 {
        Seq::empty()
    } else {
        replace_char_seq(s.drop_last(), c, rep) + (if s.last() == c {
            rep
        } else {
            seq![s.last()]
        })
    }
}

/// Executable character replacement.
pub fn replace_char_exec(v: &Vec<char>, c: char, rep: &Vec<char>) -> (r: Vec<char>)
    ensures
        r@ == replace_char_seq(v@, c, rep@),
{
    let mut out: Vec<char> = Vec::new();
    let mut i: usize = 0;
    while i < v.len()
        invariant
            i <= v@.len(),
            out@ == replace_char_seq(v@.take(i as int), c, rep@),
        decreases v@.len() - i,
    {
        proof {
            assert(v@.take(i + 1).drop_last() =~= v@.take(i as int));
            assert(v@.take(i + 1).last() == v@[i as int]);
        }
        if v[i] == c {
            let mut k: usize = 0;
            while k < rep.len()
                invariant
                    k <= rep@.len(),
                    out@ == replace_char_seq(v@.take(i as int), c, rep@) + rep@.take(k as int),
                decreases rep@.len() - k,
            {
                out.push(rep[k]);
                proof {
                    assert((replace_char_seq(v@.take(i as int), c, rep@) + rep@.take(
                        k as int,
                    )).push(rep@[k as int]) =~= replace_char_seq(v@.take(i as int), c, rep@)
                        + rep@.take(k + 1));
                }
                k += 1;
            }
            proof {
                assert(rep@.take(rep@.len() as int) =~= rep@);
            }
        } else {
            out.push(v[i]);
            proof {
                assert(replace_char_seq(v@.take(i as int), c, rep@).push(v@[i as int])
                    =~= replace_char_seq(v@.take(i as int), c, rep@) + seq![v@[i as int]]);
            }
        }
        i += 1;
    }
    proof {
        assert(v@.take(v@.len() as int) =~= v@);
    }
    out
}

/// The digit soup of a segment: for each key index `j` below `bound`, in
/// order, every occurrence of the key's `j`-th character is replaced by
/// the decimal digits of `j`.
pub open spec fn digit_soup(seg: Seq<char>, key: Seq<char>, bound: nat) -> Seq<char>
    decreases bound,
{
    if bound == 0 {
        seg
    } else {
        replace_char_seq(
            digit_soup(seg, key, (bound - 1) as nat),
            key[bound - 1],
            dec_rep((bound - 1) as nat),
        )
    }
}

/// What one segment decodes to: read its digit soup as a numeral in base
/// `v2`, shift down by `v1`, and take that code point.  `None` marks every
/// way the segment can be malformed: a numeral outside the engine's 32-bit
/// signed domain, a shift below zero, or an invalid code point.
pub open spec fn decode_segment_spec(seg: Seq<char>, key: Seq<char>, v1: u32, v2: usize) -> Option<
    char,
> {
    let m = digit_soup(seg, key, key.len());
    let n = numeral_value(m, (v2 as u32) as nat);
    if n > u32::MAX {
        None
    } else if n > 0x7FFF_FFFF {
        None
    } else if n < v1 {
        None
    } else if !valid_scalar((n - v1) as u32) {
        None
    } else {
        Some((((n - v1) as u32) as char))
    }
}

/// Executable segment decode.
pub fn decode_segment_exec(seg: &Vec<char>, key: &Vec<char>, v1: u32, v2: usize) -> (r: Option<
    char,
>)
    ensures
        r == decode_segment_spec(seg@, key@, v1, v2),
{
    let mut m = vstd::slice::slice_to_vec(seg.as_slice());
    let mut j: usize = 0;
    while j < key.len()
        invariant
            j <= key@.len(),
            m@ == digit_soup(seg@, key@, j as nat),
        decreases key@.len() - j,
    {
        let rep = dec_digits(j as u64);
        m = replace_char_exec(&m, key[j], &rep);
        j += 1;
    }
    match checked_numeral(&m, #[verifier::truncate] (v2 as u32)) {
        None => None,
        Some(n) => {
            if n > 0x7FFF_FFFF {
                None
            } else if n < v1 {
                None
            } else {
                match char_from_u32(n - v1) {
                    None => None,
                    Some(c) => {
                        proof {
                            vstd::utf8::char_u32_cast(c, (n - v1) as u32);
                        }
                        Some(c)
                    },
                }
            }
        },
    }
}

/// The decode cipher over the whole payload, scanning left to right:
/// characters accumulate into the current segment until the delimiter
/// (the key's character at index `v2`) ends it, and each finished segment
/// decodes to one character.  `None` marks a malformed payload: a segment
/// that never sees its delimiter, or a segment that fails to decode.
pub open spec fn decrypt_rec(
    s: Seq<char>,
    key: Seq<char>,
    v1: u32,
    v2: usize,
    seg: Seq<char>,
) -> Option<Seq<char>>
    decreases s.len(),
{
    if s.len() == 0 {
        if seg.len() == 0 {
            Some(Seq::empty())
        } else {
            None
        }
    } else if s.first() == key[v2 as int] {
        match decode_segment_spec(seg, key, v1, v2) {
            None => None,
            Some(c) => match decrypt_rec(s.drop_first(), key, v1, v2, Seq::empty()) {
                None => None,
                Some(rest) => Some(seq![c] + rest),
            },
        }
    } else {
        decrypt_rec(s.drop_first(), key, v1, v2, seg.push(s.first()))
    }
}

/// What `decrypt` returns on a payload, key and parameter pair.
pub open spec fn spec_decrypt(payload: Seq<char>, key: Seq<char>, v1: u32, v2: usize) -> Option<
    Seq<char>,
> {
    if (v2 as int) < key.len() {
        decrypt_rec(payload, key, v1, v2, Seq::empty())
    } else {
        None
    }
}

/// Reverses the obfuscation cipher: splits `payload` at each occurrence
/// of the key's character at index `v2`, turns each segment into a digit
/// numeral via the key, reads it in base `v2`, shifts down by `v1`, and
/// concatenates the decoded characters.  Malformed input is a parsing
/// error, never a crash.
pub fn decrypt(payload: &str, key: &str, v1: u32, v2: usize) -> (r: Result<
    String,
    AnimeDownloaderError,
>)
    ensures
        match spec_decrypt(payload@, key@, v1, v2) {
            Some(t) => r is Ok && r->Ok_0@ == t,
            None => r is Err && r->Err_0 is ParsingError,
        },
{
    let pv = chars_of(payload);
    let kv = chars_of(key);
    if v2 >= kv.len() {
        return Err(
            AnimeDownloaderError::ParsingError("cipher key index out of range".to_owned()),
        );
    }
    let delim = kv[v2];
    let mut out: Vec<char> = Vec::new();
    let mut seg: Vec<char> = Vec::new();
    let mut i: usize = 0;
    proof {
        assert(payload@.skip(0) =~= payload@);
        if decrypt_rec(payload@, key@, v1, v2, Seq::empty()) is Some {
            let t = decrypt_rec(payload@, key@, v1, v2, Seq::empty())->Some_0;
            assert(Seq::<char>::empty() + t =~= t);
        }
    }
    while i < pv.len()
        invariant
            i <= pv@.len(),
            pv@ == payload@,
            kv@ == key@,
            (v2 as int) < key@.len(),
            delim == key@[v2 as int],
            match decrypt_rec(payload@.skip(i as int), key@, v1, v2, seg@) {
                Some(t) => decrypt_rec(payload@, key@, v1, v2, Seq::empty()) == Some(out@ + t),
                None => decrypt_rec(payload@, key@, v1, v2, Seq::empty()) is None,
            },
        decreases pv@.len() - i,
    {
        let c = pv[i];
        proof {
            assert(payload@.skip(i as int).first() == payload@[i as int]);
            assert(payload@.skip(i as int).drop_first() =~= payload@.skip(i + 1));
        }
        if c == delim {
            match decode_segment_exec(&seg, &kv, v1, v2) {
                None => {
                    return Err(
                        AnimeDownloaderError::ParsingError(
                            "cipher segment failed to decode".to_owned(),
                        ),
                    );
                },
                Some(ch) => {
                    proof {
                        if decrypt_rec(payload@.skip(i + 1), key@, v1, v2, Seq::empty()) is Some {
                            let t = decrypt_rec(
                                payload@.skip(i + 1),
                                key@,
                                v1,
                                v2,
                                Seq::empty(),
                            )->Some_0;
                            assert(out@ + (seq![ch] + t) =~= out@.push(ch) + t);
                        }
                    }
                    out.push(ch);
                    seg = Vec::new();
                },
            }
        } else {
            seg.push(c);
        }
        i += 1;
    }
    proof {
        assert(payload@.skip(payload@.len() as int) =~= Seq::<char>::empty());
    }
    if seg.len() == 0 {
        proof {
            assert(out@ + Seq::<char>::empty() =~= out@);
        }
        Ok(string_from_chars(&out))
    } else {
        Err(AnimeDownloaderError::ParsingError("cipher payload ends mid-segment".to_owned()))
    }
}

/// The numeral re-basing helper: reads `content` as a base-`s1` numeral
/// (non-digit characters count as 0) and renders the value in base `s2`
/// over the output alphabet; the value 0 renders as `"0"`.
pub fn get_string(content: &str, s1: u32, s2: usize) -> (r: String)
    requires
        2 <= s2 <= 64,
        numeral_value(content@, s1 as nat) <= u32::MAX,
    ensures
        r@ == rebase_or_zero(numeral_value(content@, s1 as nat), s2 as nat),
{
    let cv = chars_of(content);
    let n: u32 = match checked_numeral(&cv, s1) {
        Some(n) => n,
        None => {
            proof {
                assert(false);
            }
            0
        },
    };
    let v = rebase_exec(n, s2);
    string_from_chars(&v)
}

} // verus!
