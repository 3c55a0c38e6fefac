//! Parsing of the encoder's `H:MM:SS[.fraction]` clock tokens into
//! centiseconds.

use vstd::prelude::*;

use crate::text::{
    all_digits, dec_val, digit_val, find_char, parse_digits, spec_find_char,
};

verus! {

/// A well-formed numeric clock field: one to nine decimal digits.
pub open spec fn wf_num(s: Seq<char>) -> bool {
    1 <= s.len() <= 9 && all_digits(s)
}

/// Centiseconds contributed by the fraction field: its first two digits,
/// scaled; further digits are cut off, a missing field counts as zero.
pub open spec fn frac_cs(f: Seq<char>) -> int {
    if f.len() == 0 {
        0
    } else if f.len() == 1 {
        digit_val(f[0]) * 10
    } else {
        digit_val(f[0]) * 10 + digit_val(f[1])
    }
}

/// Value in centiseconds of a clock token `H:M:S[.F]`, where `H`, `M` and the
/// integer part of `S` are runs of one to nine digits and `F` is a (possibly
/// empty) digit run. `None` for any other shape.
pub open spec fn spec_clock_cs(tok: Seq<char>) -> Option<int> {
    let i = spec_find_char(tok, ':');
    if i < 0 {
        None
    } else {
        let h = tok.take(i);
        let rest = tok.subrange(i + 1, tok.len() as int);
        let j = spec_find_char(rest, ':');
        if j < 0 {
            None
        } else {
            let m = rest.take(j);
            let secs = rest.subrange(j + 1, rest.len() as int);
            if spec_find_char(secs, ':') >= 0 {
                None
            } else {
                let k = spec_find_char(secs, '.');
                let si = if k < 0 {
                    secs
                } else {
                    secs.take(k)
                };
                let fr = if k < 0 {
                    Seq::<char>::empty()
                } else {
                    secs.subrange(k + 1, secs.len() as int)
                };
                if wf_num(h) && wf_num(m) && wf_num(si) && all_digits(fr) {
                    Some((dec_val(h) * 3600 + dec_val(m) * 60 + dec_val(si)) * 100 + frac_cs(fr))
                } else {
                    None
                }
            }
        }
    }
}

/// Centiseconds from the fraction field, or `None` when it holds a
/// non-digit.
fn parse_frac_cs(fr: &str) -> (r: Option<u64>)
    ensures
        r is Some <==> all_digits(fr@),
        r is Some ==> r->Some_0 == frac_cs(fr@) && r->Some_0 <= 99,
{
    let n = fr.unicode_len();
    let mut i: usize = 0;
    while i < n
        invariant
            n == fr@.len(),
            i <= n,
            forall|k: int| 0 <= k < i ==> crate::text::is_digit(#[trigger] fr@[k]),
        decreases n - i,
    {
        let c = fr.get_char(i);
        if c < '0' || c > '9' {
            proof {
                assert(!crate::text::is_digit(fr@[i as int]));
            }
            return None;
        }
        i += 1;
    }
    let d0: u64 = if n >= 1 {
        (fr.get_char(0) as u32 as u64) - ('0' as u32 as u64)
    } else {
        0
    };
    let d1: u64 = if n >= 2 {
        (fr.get_char(1) as u32 as u64) - ('0' as u32 as u64)
    } else {
        0
    };
    Some(d0 * 10 + d1)
}

/// Parses a clock token `H:M:S[.F]` into centiseconds, as
/// [`spec_clock_cs`] states; `None` for any other shape.
pub fn parse_clock_cs(tok: &str) -> (r: Option<u64>)
    ensures
        match r {
            Some(v) => spec_clock_cs(tok@) == Some(v as int),
            None => spec_clock_cs(tok@) is None,
        },
{
    let n = tok.unicode_len();
    let i = match find_char(tok, ':') {
        None => {
            return None;
        },
        Some(i) => i,
    };
    let h = tok.substring_char(0, i);
    let rest = tok.substring_char(i + 1, n);
    proof {
        assert(h@ =~= tok@.take(i as int));
    }
    let rn = rest.unicode_len();
    let j = match find_char(rest, ':') {
        None => {
            return None;
        },
        Some(j) => j,
    };
    let m = rest.substring_char(0, j);
    let secs = rest.substring_char(j + 1, rn);
    proof {
        assert(m@ =~= rest@.take(j as int));
    }
    if find_char(secs, ':').is_some() {
        return None;
    }
    let sn = secs.unicode_len();
    let (si, fr): (&str, &str) = match find_char(secs, '.') {
        None => (secs, ""),
        Some(k) => (secs.substring_char(0, k), secs.substring_char(k + 1, sn)),
    };
    proof {
        reveal_strlit("");
        if spec_find_char(secs@, '.') < 0 {
            assert(fr@ =~= Seq::<char>::empty());
        } else {
            assert(si@ =~= secs@.take(spec_find_char(secs@, '.')));
        }
    }
    let hv = match parse_digits(h) {
        None => {
            return None;
        },
        Some(v) => v,
    };
    let mv = match parse_digits(m) {
        None => {
            return None;
        },
        Some(v) => v,
    };
    let sv = match parse_digits(si) {
        None => {
            return None;
        },
        Some(v) => v,
    };
    let fv = match parse_frac_cs(fr) {
        None => {
            return None;
        },
        Some(v) => v,
    };
    Some((hv * 3600 + mv * 60 + sv) * 100 + fv)
}

} // verus!
