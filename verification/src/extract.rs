use vstd::prelude::*;
use vstd::string::StrSliceExecFns;

use crate::strutil::{chars_of, string_from_chars};

verus! {

/// A word character: ASCII letter, digit or underscore.
pub open spec fn is_word(c: char) -> bool {
    (48 <= c as u32 && c as u32 <= 57) || (65 <= c as u32 && c as u32 <= 90) || (97 <= c as u32
        && c as u32 <= 122) || c == '_'
}

/// An ASCII letter or digit.
pub open spec fn is_alnum(c: char) -> bool {
    (48 <= c as u32 && c as u32 <= 57) || (65 <= c as u32 && c as u32 <= 90) || (97 <= c as u32
        && c as u32 <= 122)
}

/// An ASCII decimal digit.
pub open spec fn is_digit_char(c: char) -> bool {
    48 <= c as u32 && c as u32 <= 57
}

/// Executable word-character test.
pub fn word_char(c: char) -> (r: bool)
    ensures
        r == is_word(c),
{
    let u = c as u32;
    (48 <= u && u <= 57) || (65 <= u && u <= 90) || (97 <= u && u <= 122) || c == '_'
}

/// Executable letter-or-digit test.
pub fn alnum_char(c: char) -> (r: bool)
    ensures
        r == is_alnum(c),
{
    let u = c as u32;
    (48 <= u && u <= 57) || (65 <= u && u <= 90) || (97 <= u && u <= 122)
}

/// Executable digit test.
pub fn digit_char(c: char) -> (r: bool)
    ensures
        r == is_digit_char(c),
{
    let u = c as u32;
    48 <= u && u <= 57
}

/// Whether `lit` occurs in `s` starting at position `i`.
pub open spec fn lit_at(s: Seq<char>, lit: Seq<char>, i: int) -> bool {
    0 <= i && i + lit.len() <= s.len() && s.subrange(i, i + lit.len()) == lit
}

/// Executable check that `lit` occurs at position `i` of `v`.
pub fn match_lit_at(v: &Vec<char>, lit: &str, i: usize) -> (r: bool)
    requires
        i <= v@.len(),
    ensures
        r == lit_at(v@, lit@, i as int),
{
    let n = lit.unicode_len();
    let total = v.len();
    if n > total - i {
        proof {
            assert(!lit_at(v@, lit@, i as int));
        }
        return false;
    }
    let mut k: usize = 0;
    while k < n
        invariant
            n == lit@.len(),
            total == v@.len(),
            i + n <= total,
            k <= n,
            forall|j: int| 0 <= j < k ==> v@[i + j] == lit@[j],
        decreases n - k,
    {
        if v[i + k] != lit.get_char(k) {
            proof {
                assert(v@.subrange(i as int, i + lit@.len())[k as int] != lit@[k as int]);
            }
            return false;
        }
        k += 1;
    }
    proof {
        assert(v@.subrange(i as int, i + lit@.len()) =~= lit@);
    }
    true
}

/// The end of the maximal run of word characters starting at `j`.
pub open spec fn word_run_end(s: Seq<char>, j: int) -> int
    decreases s.len() - j,
{
    if 0 <= j < s.len() && is_word(s[j]) {
        word_run_end(s, j + 1)
    } else {
        j
    }
}

/// The end of the maximal run of letters and digits starting at `j`.
pub open spec fn alnum_run_end(s: Seq<char>, j: int) -> int
    decreases s.len() - j,
{
    if 0 <= j < s.len() && is_alnum(s[j]) {
        alnum_run_end(s, j + 1)
    } else {
        j
    }
}

/// The end of the maximal run of digits starting at `j`.
pub open spec fn digit_run_end(s: Seq<char>, j: int) -> int
    decreases s.len() - j,
{
    if 0 <= j < s.len() && is_digit_char(s[j]) {
        digit_run_end(s, j + 1)
    } else {
        j
    }
}

/// Executable maximal word run.
pub fn word_run_end_exec(v: &Vec<char>, j: usize) -> (r: usize)
    requires
        j <= v@.len(),
    ensures
        r == word_run_end(v@, j as int),
        j <= r <= v@.len(),
{
    let mut k: usize = j;
    while k < v.len() && word_char(v[k])
        invariant
            j <= k <= v@.len(),
            word_run_end(v@, j as int) == word_run_end(v@, k as int),
        decreases v@.len() - k,
    {
        k += 1;
    }
    k
}

/// Executable maximal letter-or-digit run.
pub fn alnum_run_end_exec(v: &Vec<char>, j: usize) -> (r: usize)
    requires
        j <= v@.len(),
    ensures
        r == alnum_run_end(v@, j as int),
        j <= r <= v@.len(),
{
    let mut k: usize = j;
    while k < v.len() && alnum_char(v[k])
        invariant
            j <= k <= v@.len(),
            alnum_run_end(v@, j as int) == alnum_run_end(v@, k as int),
        decreases v@.len() - k,
    {
        k += 1;
    }
    k
}

/// Executable maximal digit run.
pub fn digit_run_end_exec(v: &Vec<char>, j: usize) -> (r: usize)
    requires
        j <= v@.len(),
    ensures
        r == digit_run_end(v@, j as int),
        j <= r <= v@.len(),
{
    let mut k: usize = j;
    while k < v.len() && digit_char(v[k])
        invariant
            j <= k <= v@.len(),
            digit_run_end(v@, j as int) == digit_run_end(v@, k as int),
        decreases v@.len() - k,
    {
        k += 1;
    }
    k
}

/// The characters of `v` between `a` and `b`, as a string.
pub fn sub_string(v: &Vec<char>, a: usize, b: usize) -> (r: String)
    requires
        a <= b <= v@.len(),
    ensures
        r@ == v@.subrange(a as int, b as int),
{
    let mut out: Vec<char> = Vec::new();
    let mut k: usize = a;
    while k < b
        invariant
            a <= k <= b <= v@.len(),
            out@ == v@.subrange(a as int, k as int),
        decreases b - k,
    {
        out.push(v[k]);
        proof {
            assert(v@.subrange(a as int, k as int).push(v@[k as int]) =~= v@.subrange(
                a as int,
                k + 1,
            ));
        }
        k += 1;
    }
    string_from_chars(&out)
}

/// The length of the quality label matched at position `i`: three or four
/// digits followed by `p`, on word boundaries; four digits win where both
/// could start.  `None` where no label starts at `i`.
pub open spec fn label_len_at(s: Seq<char>, i: int) -> Option<int> {
    if !(i == 0 || !is_word(s[i - 1])) {
        None
    } else if i + 5 <= s.len() && is_digit_char(s[i]) && is_digit_char(s[i + 1]) && is_digit_char(
        s[i + 2],
    ) && is_digit_char(s[i + 3]) && s[i + 4] == 'p' && (i + 5 == s.len() || !is_word(s[i + 5])) {
        Some(5)
    } else if i + 4 <= s.len() && is_digit_char(s[i]) && is_digit_char(s[i + 1]) && is_digit_char(
        s[i + 2],
    ) && s[i + 3] == 'p' && (i + 4 == s.len() || !is_word(s[i + 4])) {
        Some(4)
    } else {
        None
    }
}

/// The leftmost quality label at or after position `i`: its start and length.
pub open spec fn find_label_from(s: Seq<char>, i: int) -> Option<(int, int)>
    decreases s.len() - i,
{
    if !(0 <= i < s.len()) {
        None
    } else {
        match label_len_at(s, i) {
            Some(l) => Some((i, l)),
            None => find_label_from(s, i + 1),
        }
    }
}

/// Executable label test at one position.
fn label_len_at_exec(v: &Vec<char>, i: usize) -> (r: Option<usize>)
    requires
        i < v@.len(),
    ensures
        match label_len_at(v@, i as int) {
            Some(l) => r is Some && r->Some_0 == l,
            None => r is None,
        },
{
    let n = v.len();
    if !(i == 0 || !word_char(v[i - 1])) {
        return None;
    }
    if n - i >= 5 && digit_char(v[i]) && digit_char(v[i + 1]) && digit_char(v[i + 2]) && digit_char(
        v[i + 3],
    ) && v[i + 4] == 'p' && (n - i == 5 || !word_char(v[i + 5])) {
        return Some(5);
    }
    if n - i >= 4 && digit_char(v[i]) && digit_char(v[i + 1]) && digit_char(v[i + 2]) && v[i + 3]
        == 'p' && (n - i == 4 || !word_char(v[i + 4])) {
        return Some(4);
    }
    None
}

/// Finds the leftmost quality label (`360p`, `1080p`, ...) in free text,
/// as the rendition enumerator reads anchor captions.
pub fn find_quality_label(text: &str) -> (r: Option<String>)
    ensures
        match find_label_from(text@, 0) {
            Some((i, l)) => r is Some && r->Some_0@ == text@.subrange(i, i + l),
            None => r is None,
        },
{
    let v = chars_of(text);
    let mut i: usize = 0;
    while i < v.len()
        invariant
            v@ == text@,
            i <= v@.len(),
            find_label_from(text@, 0) == find_label_from(text@, i as int),
        decreases v@.len() - i,
    {
        match label_len_at_exec(&v, i) {
            Some(l) => {
                return Some(sub_string(&v, i, i + l));
            },
            None => {},
        }
        i += 1;
    }
    None
}

/// The leftmost engine-page link at or after `i`: the fixed prefix
/// followed by at least one letter or digit; the capture runs to the end
/// of the letter-digit run.
pub open spec fn find_kwik_from(s: Seq<char>, i: int) -> Option<Seq<char>>
    decreases s.len() - i,
{
    if !(0 <= i < s.len()) {
        None
    } else if lit_at(s, "https://kwik.si/f/"@, i) && i + "https://kwik.si/f/"@.len() < s.len()
        && is_alnum(s[i + "https://kwik.si/f/"@.len()]) {
        Some(s.subrange(i, alnum_run_end(s, i + "https://kwik.si/f/"@.len())))
    } else {
        find_kwik_from(s, i + 1)
    }
}

/// Finds the leftmost direct engine-page link in script text.
pub fn find_kwik_link(text: &str) -> (r: Option<String>)
    ensures
        match find_kwik_from(text@, 0) {
            Some(cap) => r is Some && r->Some_0@ == cap,
            None => r is None,
        },
{
    let v = chars_of(text);
    let lit = "https://kwik.si/f/";
    proof {
        assert(lit@ == "https://kwik.si/f/"@);
    }
    let n = lit.unicode_len();
    let total = v.len();
    let mut i: usize = 0;
    while i < total
        invariant
            v@ == text@,
            total == v@.len(),
            i <= total,
            lit@ == "https://kwik.si/f/"@,
            n == "https://kwik.si/f/"@.len(),
            find_kwik_from(text@, 0) == find_kwik_from(text@, i as int),
        decreases total - i,
    {
        if match_lit_at(&v, lit, i) && n < total - i && alnum_char(v[i + n]) {
            let e = alnum_run_end_exec(&v, i + n);
            return Some(sub_string(&v, i, e));
        }
        i += 1;
    }
    None
}

/// The characters of `v` between `a` and `b`.
pub fn sub_vec(v: &Vec<char>, a: usize, b: usize) -> (r: Vec<char>)
    requires
        a <= b <= v@.len(),
    ensures
        r@ == v@.subrange(a as int, b as int),
{
    let mut out: Vec<char> = Vec::new();
    let mut k: usize = a;
    while k < b
        invariant
            a <= k <= b <= v@.len(),
            out@ == v@.subrange(a as int, k as int),
        decreases b - k,
    {
        out.push(v[k]);
        proof {
            assert(v@.subrange(a as int, k as int).push(v@[k as int]) =~= v@.subrange(
                a as int,
                k + 1,
            ));
        }
        k += 1;
    }
    out
}

/// The obfuscated-call shape matched at position `i`: a parenthesis, a
/// quoted word (the payload), a number, a quoted word (the key), and
/// three more numbers, of which the first two are captured.  `None`
/// where the shape does not start at `i`.
pub open spec fn params_at(s: Seq<char>, i: int) -> Option<
    (Seq<char>, Seq<char>, Seq<char>, Seq<char>),
> {
    if !(0 <= i && i + 2 <= s.len() && s[i] == '(' && s[i + 1] == '"') {
        None
    } else {
        let w1s = i + 2;
        let w1e = word_run_end(s, w1s);
        if !(w1e > w1s && w1e + 2 <= s.len() && s[w1e] == '"' && s[w1e + 1] == ',') {
            None
        } else {
            let d1s = w1e + 2;
            let d1e = digit_run_end(s, d1s);
            if !(d1e > d1s && d1e + 2 <= s.len() && s[d1e] == ',' && s[d1e + 1] == '"') {
                None
            } else {
                let w2s = d1e + 2;
                let w2e = word_run_end(s, w2s);
                if !(w2e > w2s && w2e + 2 <= s.len() && s[w2e] == '"' && s[w2e + 1] == ',') {
                    None
                } else {
                    let d2s = w2e + 2;
                    let d2e = digit_run_end(s, d2s);
                    if !(d2e > d2s && d2e < s.len() && s[d2e] == ',') {
                        None
                    } else {
                        let d3s = d2e + 1;
                        let d3e = digit_run_end(s, d3s);
                        if !(d3e > d3s && d3e < s.len() && s[d3e] == ',') {
                            None
                        } else {
                            let d4s = d3e + 1;
                            let d4e = digit_run_end(s, d4s);
                            if !(d4e > d4s && d4e < s.len() && s[d4e] == ')') {
                                None
                            } else {
                                Some(
                                    (
                                        s.subrange(w1s, w1e),
                                        s.subrange(w2s, w2e),
                                        s.subrange(d2s, d2e),
                                        s.subrange(d3s, d3e),
                                    ),
                                )
                            }
                        }
                    }
                }
            }
        }
    }
}

/// The leftmost obfuscated-call match at or after `i`.
pub open spec fn find_params_from(s: Seq<char>, i: int) -> Option<
    (Seq<char>, Seq<char>, Seq<char>, Seq<char>),
>
    decreases s.len() - i,
{
    if !(0 <= i < s.len()) {
        None
    } else {
        match params_at(s, i) {
            Some(c) => Some(c),
            None => find_params_from(s, i + 1),
        }
    }
}

/// Executable obfuscated-call match at one position: payload, key, and
/// the two captured numbers as digit strings.
fn params_at_exec(v: &Vec<char>, i: usize) -> (r: Option<(String, String, Vec<char>, Vec<char>)>)
    requires
        i < v@.len(),
    ensures
        match params_at(v@, i as int) {
            Some(t) => r is Some && r->Some_0.0@ == t.0 && r->Some_0.1@ == t.1 && r->Some_0.2@
                == t.2 && r->Some_0.3@ == t.3,
            None => r is None,
        },
{
    let total = v.len();
    if !(total - i >= 2 && v[i] == '(' && v[i + 1] == '"') {
        return None;
    }
    let w1s = i + 2;
    let w1e = word_run_end_exec(v, w1s);
    if !(w1e > w1s && total - w1e >= 2 && v[w1e] == '"' && v[w1e + 1] == ',') {
        return None;
    }
    let d1s = w1e + 2;
    let d1e = digit_run_end_exec(v, d1s);
    if !(d1e > d1s && total - d1e >= 2 && v[d1e] == ',' && v[d1e + 1] == '"') {
        return None;
    }
    let w2s = d1e + 2;
    let w2e = word_run_end_exec(v, w2s);
    if !(w2e > w2s && total - w2e >= 2 && v[w2e] == '"' && v[w2e + 1] == ',') {
        return None;
    }
    let d2s = w2e + 2;
    let d2e = digit_run_end_exec(v, d2s);
    if !(d2e > d2s && d2e < total && v[d2e] == ',') {
        return None;
    }
    let d3s = d2e + 1;
    let d3e = digit_run_end_exec(v, d3s);
    if !(d3e > d3s && d3e < total && v[d3e] == ',') {
        return None;
    }
    let d4s = d3e + 1;
    let d4e = digit_run_end_exec(v, d4s);
    if !(d4e > d4s && d4e < total && v[d4e] == ')') {
        return None;
    }
    Some(
        (
            sub_string(v, w1s, w1e),
            sub_string(v, w2s, w2e),
            sub_vec(v, d2s, d2e),
            sub_vec(v, d3s, d3e),
        ),
    )
}

/// Finds the leftmost obfuscated call in page text.
pub fn find_cipher_call_captures(text: &str) -> (r: Option<(String, String, Vec<char>, Vec<char>)>)
    ensures
        match find_params_from(text@, 0) {
            Some(t) => r is Some && r->Some_0.0@ == t.0 && r->Some_0.1@ == t.1 && r->Some_0.2@
                == t.2 && r->Some_0.3@ == t.3,
            None => r is None,
        },
{
    let v = chars_of(text);
    let total = v.len();
    let mut i: usize = 0;
    while i < total
        invariant
            v@ == text@,
            total == v@.len(),
            i <= total,
            find_params_from(text@, 0) == find_params_from(text@, i as int),
        decreases total - i,
    {
        match params_at_exec(&v, i) {
            Some(c) => {
                return Some(c);
            },
            None => {},
        }
        i += 1;
    }
    None
}

/// The first closing quote at or after `j`, unless a line break comes
/// first.
pub open spec fn close_quote(s: Seq<char>, j: int) -> Option<int>
    decreases s.len() - j,
{
    if !(0 <= j < s.len()) {
        None
    } else if s[j] == '"' {
        Some(j)
    } else if s[j] == '\n' {
        None
    } else {
        close_quote(s, j + 1)
    }
}

/// The leftmost quoted capture after an occurrence of `lit` at or after
/// `i`: at least one character on the same line, up to the next quote.
pub open spec fn find_field_from(s: Seq<char>, lit: Seq<char>, i: int) -> Option<Seq<char>>
    decreases s.len() - i,
{
    if !(0 <= i < s.len()) {
        None
    } else {
        let st = i + lit.len();
        if lit_at(s, lit, i) && st < s.len() && s[st] != '\n' {
            match close_quote(s, st + 1) {
                Some(q) => Some(s.subrange(st, q)),
                None => find_field_from(s, lit, i + 1),
            }
        } else {
            find_field_from(s, lit, i + 1)
        }
    }
}

/// Finds the first quoted value following the marker `lit`, as the form
/// recovery step reads `action` and `value` attributes.
pub fn find_field(v: &Vec<char>, lit: &str) -> (r: Option<String>)
    ensures
        match find_field_from(v@, lit@, 0) {
            Some(cap) => r is Some && r->Some_0@ == cap,
            None => r is None,
        },
{
    let n = lit.unicode_len();
    let total = v.len();
    let mut i: usize = 0;
    while i < total
        invariant
            total == v@.len(),
            i <= total,
            n == lit@.len(),
            find_field_from(v@, lit@, 0) == find_field_from(v@, lit@, i as int),
        decreases total - i,
    {
        if match_lit_at(v, lit, i) {
            let st = i + n;
            if st < total && v[st] != '\n' {
                let mut j: usize = st + 1;
                while j < total && v[j] != '"' && v[j] != '\n'
                    invariant
                        st + 1 <= j <= total,
                        total == v@.len(),
                        close_quote(v@, st + 1) == close_quote(v@, j as int),
                    decreases total - j,
                {
                    j += 1;
                }
                if j < total && v[j] == '"' {
                    return Some(sub_string(v, st, j));
                }
            }
        }
        i += 1;
    }
    None
}

/// The pieces of `s` split at every occurrence of `d`; `cur` is the piece
/// under construction.  Splitting always yields one more piece than there
/// are delimiters.
pub open spec fn split_rec(s: Seq<char>, d: char, cur: Seq<char>) -> Seq<Seq<char>>
    decreases s.len(),
{
    if s.len() == 0 {
        seq![cur]
    } else if s.first() == d {
        seq![cur] + split_rec(s.drop_first(), d, Seq::empty())
    } else {
        split_rec(s.drop_first(), d, cur.push(s.first()))
    }
}

/// Splits `s` at every occurrence of `d`.
pub fn split_char(s: &str, d: char) -> (r: Vec<String>)
    ensures
        r.deep_view() == split_rec(s@, d, Seq::empty()),
{
    let v = chars_of(s);
    let total = v.len();
    let mut out: Vec<String> = Vec::new();
    let mut cur: Vec<char> = Vec::new();
    let mut i: usize = 0;
    proof {
        assert(s@.skip(0) =~= s@);
        assert(out.deep_view() =~= Seq::<Seq<char>>::empty());
        assert(Seq::<Seq<char>>::empty() + split_rec(s@, d, Seq::empty()) =~= split_rec(
            s@,
            d,
            Seq::empty(),
        ));
    }
    while i < total
        invariant
            total == v@.len(),
            v@ == s@,
            i <= total,
            split_rec(s@, d, Seq::empty()) == out.deep_view() + split_rec(
                s@.skip(i as int),
                d,
                cur@,
            ),
        decreases total - i,
    {
        let c = v[i];
        proof {
            assert(s@.skip(i as int).first() == s@[i as int]);
            assert(s@.skip(i as int).drop_first() =~= s@.skip(i + 1));
        }
        if c == d {
            let ghost dv = out.deep_view();
            let ghost cs = cur@;
            let piece = string_from_chars(&cur);
            out.push(piece);
            cur = Vec::new();
            proof {
                assert(out.deep_view() =~= dv + seq![cs]);
                assert(dv + (seq![cs] + split_rec(s@.skip(i + 1), d, Seq::empty())) =~= (dv + seq![
                    cs,
                ]) + split_rec(s@.skip(i + 1), d, Seq::empty()));
            }
        } else {
            cur.push(c);
        }
        i += 1;
    }
    let ghost dv = out.deep_view();
    let piece = string_from_chars(&cur);
    out.push(piece);
    proof {
        assert(s@.skip(total as int) =~= Seq::<char>::empty());
        assert(out.deep_view() =~= dv + seq![cur@]);
    }
    out
}

} // verus!
