use vstd::prelude::*;
use vstd::string::StringExecFns;

use crate::extract::sub_vec;
use crate::strutil::{
    alphabet, chars_of, dec_digits, dec_digits_u128, dec_rep, string_from_chars, u64_to_dec,
};

verus! {

/// A character a file name may not carry: the reserved punctuation, the
/// C0 controls, DEL, and the C1 controls.
pub open spec fn reserved_char(c: char) -> bool {
    c == '<' || c == '>' || c == ':' || c == '"' || c == '/' || c == '\\' || c == '|' || c == '?'
        || c == '*' || c as u32 <= 0x1F || c as u32 == 0x7F || (0x80 <= c as u32 && c as u32
        <= 0x9F)
}

/// `s` with every reserved character removed.
pub open spec fn keep_allowed(s: Seq<char>) -> Seq<char>
    decreases s.len(),
{
    if s.len() == 0 {
        Seq::empty()
    } else {
        keep_allowed(s.drop_last()) + (if reserved_char(s.last()) {
            Seq::empty()
        } else {
            seq![s.last()]
        })
    }
}

/// `s` without its leading run of periods.
pub open spec fn drop_leading_dots(s: Seq<char>) -> Seq<char>
    decreases s.len(),
{
    if s.len() > 0 && s.first() == '.' {
        drop_leading_dots(s.drop_first())
    } else {
        s
    }
}

/// `s` without its trailing run of periods.
pub open spec fn drop_trailing_dots(s: Seq<char>) -> Seq<char>
    decreases s.len(),
{
    if s.len() > 0 && s.last() == '.' {
        drop_trailing_dots(s.drop_last())
    } else {
        s
    }
}

/// What `filenamify` returns: reserved characters removed, then outer
/// periods stripped.
pub open spec fn filenamify_spec(s: Seq<char>) -> Seq<char> {
    drop_trailing_dots(drop_leading_dots(keep_allowed(s)))
}

/// Executable reserved-character test.
pub fn reserved_char_exec(c: char) -> (r: bool)
    ensures
        r == reserved_char(c),
{
    let u = c as u32;
    c == '<' || c == '>' || c == ':' || c == '"' || c == '/' || c == '\\' || c == '|' || c == '?'
        || c == '*' || u <= 0x1F || u == 0x7F || (0x80 <= u && u <= 0x9F)
}

/// Makes free text safe as a file name: drops reserved punctuation and
/// control characters, and strips leading and trailing periods.
pub fn filenamify(input: &str) -> (r: String)
    ensures
        r@ == filenamify_spec(input@),
{
    let v = chars_of(input);
    let total = v.len();
    let mut f: Vec<char> = Vec::new();
    let mut i: usize = 0;
    proof {
        assert(v@.take(0) =~= Seq::<char>::empty());
    }
    while i < total
        invariant
            total == v@.len(),
            i <= total,
            f@ == keep_allowed(v@.take(i as int)),
        decreases total - i,
    {
        proof {
            assert(v@.take(i + 1).drop_last() =~= v@.take(i as int));
            assert(v@.take(i + 1).last() == v@[i as int]);
        }
        if !reserved_char_exec(v[i]) {
            f.push(v[i]);
            proof {
                assert(keep_allowed(v@.take(i as int)).push(v@[i as int]) =~= keep_allowed(
                    v@.take(i as int),
                ) + seq![v@[i as int]]);
            }
        } else {
            proof {
                assert(keep_allowed(v@.take(i as int)) + Seq::<char>::empty() =~= keep_allowed(
                    v@.take(i as int),
                ));
            }
        }
        i += 1;
    }
    proof {
        assert(v@.take(total as int) =~= v@);
    }
    let mut a: usize = 0;
    proof {
        assert(f@.skip(0) =~= f@);
    }
    while a < f.len() && f[a] == '.'
        invariant
            a <= f@.len(),
            drop_leading_dots(f@) == drop_leading_dots(f@.skip(a as int)),
        decreases f@.len() - a,
    {
        proof {
            assert(f@.skip(a as int).first() == f@[a as int]);
            assert(f@.skip(a as int).drop_first() =~= f@.skip(a + 1));
        }
        a += 1;
    }
    proof {
        assert(drop_leading_dots(f@.skip(a as int)) == f@.skip(a as int));
    }
    let g = sub_vec(&f, a, f.len());
    proof {
        assert(g@ =~= f@.skip(a as int));
    }
    let mut b: usize = g.len();
    proof {
        assert(g@.take(g@.len() as int) =~= g@);
    }
    while b > 0 && g[b - 1] == '.'
        invariant
            b <= g@.len(),
            drop_trailing_dots(g@) == drop_trailing_dots(g@.take(b as int)),
        decreases b,
    {
        proof {
            assert(g@.take(b as int).last() == g@[b - 1]);
            assert(g@.take(b as int).drop_last() =~= g@.take(b - 1));
        }
        b -= 1;
    }
    proof {
        assert(drop_trailing_dots(g@.take(b as int)) == g@.take(b as int));
    }
    let res = sub_vec(&g, 0, b);
    proof {
        assert(res@ =~= g@.take(b as int));
    }
    string_from_chars(&res)
}

/// Two fractional digits, zero-padded on the left.
pub open spec fn two_frac(d: nat) -> Seq<char>
    recommends
        d < 100,
{
    if d < 10 {
        seq![alphabet()[0]] + dec_rep(d)
    } else {
        dec_rep(d)
    }
}

/// A fixed-point quantity in hundredths, rendered with two decimals and
/// a unit.
pub open spec fn render_hundredths(h: nat, unit: Seq<char>) -> Seq<char> {
    dec_rep(h / 100) + seq!['.'] + two_frac(h % 100) + seq![' '] + unit
}

/// The human-readable form of a byte rate: bytes, kibibytes or mebibytes
/// per second, with two decimals, rounding half away from zero.
pub open spec fn human_rate(bytes: nat) -> Seq<char> {
    if bytes < 1024 {
        render_hundredths(bytes * 100, "B/sec"@)
    } else if bytes < 1048576 {
        render_hundredths((bytes * 100 + 512) / 1024, "KB/sec"@)
    } else {
        render_hundredths((bytes * 100 + 524288) / 1048576, "MB/sec"@)
    }
}

/// Renders a fixed-point value in hundredths with two decimals.
fn render_hundredths_exec(h: u128) -> (r: Vec<char>)
    ensures
        r@ == dec_rep((h as nat) / 100) + seq!['.'] + two_frac((h as nat) % 100),
{
    let mut out = dec_digits_u128(h / 100);
    out.push('.');
    let frac: u64 = (h % 100) as u64;
    if frac < 10 {
        out.push(crate::strutil::alphabet_char(0));
    }
    let mut fd = dec_digits(frac);
    let ghost pre = out@;
    let mut k: usize = 0;
    while k < fd.len()
        invariant
            out@ == pre + fd@.take(k as int),
            k <= fd@.len(),
        decreases fd@.len() - k,
    {
        out.push(fd[k]);
        proof {
            assert((pre + fd@.take(k as int)).push(fd@[k as int]) =~= pre + fd@.take(k + 1));
        }
        k += 1;
    }
    proof {
        assert(fd@.take(fd@.len() as int) =~= fd@);
        if (h as nat) % 100 < 10 {
            assert(out@ =~= dec_rep((h as nat) / 100) + seq!['.'] + (seq![alphabet()[0]]
                + dec_rep((h as nat) % 100)));
        } else {
            assert(out@ =~= dec_rep((h as nat) / 100) + seq!['.'] + dec_rep((h as nat) % 100));
        }
    }
    out
}

/// Renders a byte rate for progress reporting.
pub fn bytes_to_human_readable(bytes: u64) -> (r: String)
    ensures
        r@ == human_rate(bytes as nat),
{
    let wide: u128 = bytes as u128;
    if bytes < 1024 {
        let mut v = render_hundredths_exec(wide * 100);
        v.push(' ');
        let s = string_from_chars(&v);
        let r = s.concat("B/sec");
        proof {
            assert(r@ =~= render_hundredths((bytes as nat) * 100, "B/sec"@));
        }
        r
    } else if bytes < 1048576 {
        let mut v = render_hundredths_exec((wide * 100 + 512) / 1024);
        v.push(' ');
        let s = string_from_chars(&v);
        let r = s.concat("KB/sec");
        proof {
            assert(r@ =~= render_hundredths(((bytes as nat) * 100 + 512) / 1024, "KB/sec"@));
        }
        r
    } else {
        let mut v = render_hundredths_exec((wide * 100 + 524288) / 1048576);
        v.push(' ');
        let s = string_from_chars(&v);
        let r = s.concat("MB/sec");
        proof {
            assert(r@ =~= render_hundredths(((bytes as nat) * 100 + 524288) / 1048576, "MB/sec"@));
        }
        r
    }
}

/// The truncated percentage, in hundredths, that `completed` is of
/// `total`.
pub open spec fn percent_spec(completed: nat, total: nat) -> Seq<char>
    recommends
        total > 0,
{
    let h = completed * 10000 / total;
    dec_rep(h / 100) + seq!['.'] + two_frac(h % 100)
}

/// Renders completion as a percentage with two decimals.
pub fn format_percent(completed: u64, total: u64) -> (r: String)
    requires
        total > 0,
    ensures
        r@ == percent_spec(completed as nat, total as nat),
{
    let h: u128 = (completed as u128) * 10000 / (total as u128);
    let v = render_hundredths_exec(h);
    proof {
        assert((completed as nat) * 10000 / (total as nat) == h as nat);
    }
    string_from_chars(&v)
}

/// An episode number, or a range where a second number is present.
pub open spec fn episode_number_spec(ep: nat, ep2: nat) -> Seq<char> {
    if ep2 > 0 {
        dec_rep(ep) + " - "@ + dec_rep(ep2)
    } else {
        dec_rep(ep)
    }
}

/// Renders an episode number, joining double episodes with a dash.
pub fn format_episode_number(ep: u64, ep2: u64) -> (r: String)
    ensures
        r@ == episode_number_spec(ep as nat, ep2 as nat),
{
    let first = u64_to_dec(ep);
    if ep2 > 0 {
        let second = u64_to_dec(ep2);
        first.concat(" - ").concat(second.as_str())
    } else {
        first
    }
}

} // verus!
