//! Small verified string toolkit: substring search, digit-run parsing,
//! decimal rendering and whitespace trimming, each pinned to a spec function
//! over the character sequence view.

use vstd::prelude::*;

verus! {

/// The pattern `pat` occurs in `s` starting at index `i`.
pub open spec fn is_match(s: Seq<char>, pat: Seq<char>, i: int) -> bool {
    0 <= i && i + pat.len() <= s.len() && s.subrange(i, i + pat.len()) == pat
}

/// Index of the first occurrence of `pat` in `s` at or after `from`,
/// or -1 when there is none.
pub open spec fn spec_find_sub_at(s: Seq<char>, pat: Seq<char>, from: int) -> int
    decreases s.len() - from,
    when 0 <= from
{
    if from + pat.len() > s.len() {
        -1
    } else if pat.len() == 0 {
        from
    } else if s.subrange(from, from + pat.len()) == pat {
        from
    } else {
        spec_find_sub_at(s, pat, from + 1)
    }
}

/// Index of the first occurrence of `pat` in `s`, or -1 when there is none.
pub open spec fn spec_find_sub(s: Seq<char>, pat: Seq<char>) -> int {
    spec_find_sub_at(s, pat, 0)
}

/// Index of the first occurrence of the character `c` in `s` at or after
/// `from`, or -1 when there is none.
pub open spec fn spec_find_char_at(s: Seq<char>, c: char, from: int) -> int
    decreases s.len() - from,
    when 0 <= from
{
    if from >= s.len() {
        -1
    } else if s[from] == c {
        from
    } else {
        spec_find_char_at(s, c, from + 1)
    }
}

/// Index of the first occurrence of the character `c` in `s`, or -1.
pub open spec fn spec_find_char(s: Seq<char>, c: char) -> int {
    spec_find_char_at(s, c, 0)
}

/// Index of the last occurrence of `c` in `s` at or before `i`, or -1.
pub open spec fn spec_rfind_char_at(s: Seq<char>, c: char, i: int) -> int
    decreases i + 1,
    when i < s.len()
{
    if i < 0 {
        -1
    } else if s[i] == c {
        i
    } else {
        spec_rfind_char_at(s, c, i - 1)
    }
}

/// Index of the last occurrence of the character `c` in `s`, or -1.
pub open spec fn spec_rfind_char(s: Seq<char>, c: char) -> int {
    spec_rfind_char_at(s, c, s.len() - 1)
}

/// The first occurrence is the least one: a match at `i` with no match
/// between `from` and `i` is what `spec_find_sub_at` answers.
pub proof fn lemma_find_sub_at_found(s: Seq<char>, pat: Seq<char>, from: int, i: int)
    requires
        0 <= from <= i,
        is_match(s, pat, i),
        forall|j: int| from <= j < i ==> !is_match(s, pat, j),
    ensures
        spec_find_sub_at(s, pat, from) == i,
    decreases i - from,
{
    if from < i {
        assert(pat.len() > 0) by {
            if pat.len() == 0 {
                assert(s.subrange(from, from) =~= pat);
                assert(is_match(s, pat, from));
            }
        }
        lemma_find_sub_at_found(s, pat, from + 1, i);
    }
}

/// The first occurrence of a character is the least one.
pub proof fn lemma_find_char_at_found(s: Seq<char>, c: char, from: int, i: int)
    requires
        0 <= from <= i < s.len(),
        s[i] == c,
        forall|j: int| from <= j < i ==> s[j] != c,
    ensures
        spec_find_char_at(s, c, from) == i,
    decreases i - from,
{
    if from < i {
        lemma_find_char_at_found(s, c, from + 1, i);
    }
}

/// Whether `pat` occurs in `s` starting exactly at `i`, decided by comparing
/// the characters one by one.
fn eq_at(s: &str, pat: &str, i: usize) -> (r: bool)
    requires
        i + pat@.len() <= s@.len(),
    ensures
        r == is_match(s@, pat@, i as int),
{
    let slen = s.unicode_len();
    let plen = pat.unicode_len();
    let mut j: usize = 0;
    while j < plen
        invariant
            slen == s@.len(),
            plen == pat@.len(),
            i + plen <= s@.len(),
            j <= plen,
            forall|k: int| 0 <= k < j ==> s@[i + k] == pat@[k],
        decreases plen - j,
    {
        if s.get_char(i + j) != pat.get_char(j) {
            proof {
                assert(s@.subrange(i as int, i + plen)[j as int] != pat@[j as int]);
            }
            return false;
        }
        j += 1;
    }
    proof {
        assert(s@.subrange(i as int, i + plen) =~= pat@);
    }
    true
}

/// First occurrence of `pat` in `s` at or after `from`.
pub fn find_sub_at(s: &str, pat: &str, from: usize) -> (r: Option<usize>)
    requires
        from <= s@.len(),
    ensures
        match r {
            Some(i) => spec_find_sub_at(s@, pat@, from as int) == i && from <= i && i
                + pat@.len() <= s@.len(),
            None => spec_find_sub_at(s@, pat@, from as int) == -1,
        },
    decreases s@.len() - from,
{
    let slen = s.unicode_len();
    let plen = pat.unicode_len();
    if plen > slen - from {
        None
    } else if eq_at(s, pat, from) {
        Some(from)
    } else {
        proof {
            if pat@.len() == 0 {
                assert(s@.subrange(from as int, from as int) =~= pat@);
            }
        }
        find_sub_at(s, pat, from + 1)
    }
}

/// First occurrence of `pat` in `s`.
pub fn find_sub(s: &str, pat: &str) -> (r: Option<usize>)
    ensures
        match r {
            Some(i) => spec_find_sub(s@, pat@) == i && i + pat@.len() <= s@.len(),
            None => spec_find_sub(s@, pat@) == -1,
        },
{
    find_sub_at(s, pat, 0)
}

/// First occurrence of the character `c` in `s` at or after `from`.
pub fn find_char_at(s: &str, c: char, from: usize) -> (r: Option<usize>)
    requires
        from <= s@.len(),
    ensures
        match r {
            Some(i) => spec_find_char_at(s@, c, from as int) == i && from <= i && i < s@.len()
                && s@[i as int] == c,
            None => spec_find_char_at(s@, c, from as int) == -1,
        },
    decreases s@.len() - from,
{
    let slen = s.unicode_len();
    if from >= slen {
        None
    } else if s.get_char(from) == c {
        Some(from)
    } else {
        find_char_at(s, c, from + 1)
    }
}

/// First occurrence of the character `c` in `s`.
pub fn find_char(s: &str, c: char) -> (r: Option<usize>)
    ensures
        match r {
            Some(i) => spec_find_char(s@, c) == i && i < s@.len() && s@[i as int] == c,
            None => spec_find_char(s@, c) == -1,
        },
{
    find_char_at(s, c, 0)
}

/// Last occurrence of `c` strictly before index `end`.
fn rfind_char_before(s: &str, c: char, end: usize) -> (r: Option<usize>)
    requires
        end <= s@.len(),
    ensures
        match r {
            Some(i) => spec_rfind_char_at(s@, c, end - 1) == i && i < end,
            None => spec_rfind_char_at(s@, c, end - 1) == -1,
        },
    decreases end,
{
    if end == 0 {
        None
    } else if s.get_char(end - 1) == c {
        Some(end - 1)
    } else {
        rfind_char_before(s, c, end - 1)
    }
}

/// Last occurrence of the character `c` in `s`.
pub fn rfind_char(s: &str, c: char) -> (r: Option<usize>)
    ensures
        match r {
            Some(i) => spec_rfind_char(s@, c) == i && i < s@.len() && s@[i as int] == c,
            None => spec_rfind_char(s@, c) == -1,
        },
{
    let slen = s.unicode_len();
    let r = rfind_char_before(s, c, slen);
    proof {
        if r is Some {
            lemma_rfind_char_at_hit(s@, c, slen - 1);
        }
    }
    r
}

/// A found index carries the character: `spec_rfind_char_at` only answers an
/// index whose character is `c`.
proof fn lemma_rfind_char_at_hit(s: Seq<char>, c: char, i: int)
    requires
        i < s.len(),
        spec_rfind_char_at(s, c, i) >= 0,
    ensures
        spec_rfind_char_at(s, c, i) <= i,
        s[spec_rfind_char_at(s, c, i)] == c,
    decreases i + 1,
{
    if i >= 0 && s[i] != c {
        lemma_rfind_char_at_hit(s, c, i - 1);
    }
}

/// ASCII decimal digit.
pub open spec fn is_digit(c: char) -> bool {
    '0' <= c && c <= '9'
}

/// Numeric value of an ASCII decimal digit.
pub open spec fn digit_val(c: char) -> int {
    c as int - '0' as int
}

/// Every character of `s` is an ASCII decimal digit.
pub open spec fn all_digits(s: Seq<char>) -> bool {
    forall|i: int| 0 <= i < s.len() ==> is_digit(#[trigger] s[i])
}

/// Value of a run of decimal digits, most significant first.
pub open spec fn dec_val(s: Seq<char>) -> int
    decreases s.len(),
{
    if s.len() == 0 {
        0
    } else {
        dec_val(s.drop_last()) * 10 + digit_val(s.last())
    }
}

/// Ten to the `n`th power.
pub open spec fn spec_pow10(n: nat) -> int
    decreases n,
{
    if n == 0 {
        1
    } else {
        10 * spec_pow10((n - 1) as nat)
    }
}

/// `spec_pow10` is positive.
proof fn lemma_pow10_pos(n: nat)
    ensures
        spec_pow10(n) > 0,
    decreases n,
{
    if n > 0 {
        lemma_pow10_pos((n - 1) as nat);
    }
}

/// `spec_pow10` is monotone.
proof fn lemma_pow10_le(i: nat, j: nat)
    requires
        i <= j,
    ensures
        0 < spec_pow10(i) <= spec_pow10(j),
    decreases j,
{
    if i < j {
        lemma_pow10_le(i, (j - 1) as nat);
    } else {
        lemma_pow10_pos(i);
    }
}

/// A digit run of length `n` is below ten to the `n`th.
proof fn lemma_dec_val_bound(s: Seq<char>)
    requires
        all_digits(s),
    ensures
        0 <= dec_val(s) < spec_pow10(s.len()),
    decreases s.len(),
{
    if s.len() > 0 {
        assert(all_digits(s.drop_last())) by {
            assert(forall|i: int|
                0 <= i < s.len() - 1 ==> #[trigger] s.drop_last()[i] == s[i]);
        }
        lemma_dec_val_bound(s.drop_last());
    }
}

/// Parses a run of one to nine ASCII digits as a decimal number. Returns
/// `None` on an empty run, a run longer than nine digits (guarding the
/// arithmetic far below any overflow) or any non-digit character.
pub fn parse_digits(s: &str) -> (r: Option<u64>)
    ensures
        r is Some <==> 1 <= s@.len() <= 9 && all_digits(s@),
        r is Some ==> r->Some_0 == dec_val(s@) && r->Some_0 < 1_000_000_000,
{
    let n = s.unicode_len();
    if n == 0 || n > 9 {
        return None;
    }
    let mut acc: u64 = 0;
    let mut i: usize = 0;
    while i < n
        invariant
            n == s@.len(),
            1 <= n <= 9,
            i <= n,
            all_digits(s@.take(i as int)),
            acc == dec_val(s@.take(i as int)),
            0 <= acc < spec_pow10(i as nat),
        decreases n - i,
    {
        let c = s.get_char(i);
        if c < '0' || c > '9' {
            proof {
                assert(!all_digits(s@)) by {
                    assert(!is_digit(s@[i as int]));
                }
            }
            return None;
        }
        let d: u64 = (c as u32 as u64) - ('0' as u32 as u64);
        proof {
            lemma_pow10_le(i as nat, 8);
            assert(spec_pow10(8) == 100_000_000) by {
                reveal_with_fuel(spec_pow10, 9);
            }
            assert(s@.take(i + 1).drop_last() =~= s@.take(i as int));
            assert(s@.take(i + 1).last() == s@[i as int]);
            assert(all_digits(s@.take(i + 1))) by {
                assert(forall|k: int|
                    0 <= k < i + 1 ==> #[trigger] s@.take(i + 1)[k] == s@[k]);
            }
        }
        acc = acc * 10 + d;
        i += 1;
    }
    proof {
        assert(s@.take(n as int) =~= s@);
        lemma_pow10_le(n as nat, 9);
        assert(spec_pow10(9) == 1_000_000_000) by {
            reveal_with_fuel(spec_pow10, 10);
        }
    }
    Some(acc)
}

/// Decimal digit character for a value below ten.
pub open spec fn spec_digit_char(d: int) -> char {
    if d == 0 {
        '0'
    } else if d == 1 {
        '1'
    } else if d == 2 {
        '2'
    } else if d == 3 {
        '3'
    } else if d == 4 {
        '4'
    } else if d == 5 {
        '5'
    } else if d == 6 {
        '6'
    } else if d == 7 {
        '7'
    } else if d == 8 {
        '8'
    } else {
        '9'
    }
}

/// Decimal rendering of a natural number, no leading zeros (a single zero
/// for zero itself).
pub open spec fn spec_dec_rep(n: int) -> Seq<char>
    decreases n,
    when n >= 0
{
    if n < 10 {
        seq![spec_digit_char(n)]
    } else {
        spec_dec_rep(n / 10).push(spec_digit_char(n % 10))
    }
}

/// One-character string for a decimal digit.
fn digit_str(d: u64) -> (r: &'static str)
    requires
        d < 10,
    ensures
        r@ =~= seq![spec_digit_char(d as int)],
{
    let r: &'static str = match d {
        0 => "0",
        1 => "1",
        2 => "2",
        3 => "3",
        4 => "4",
        5 => "5",
        6 => "6",
        7 => "7",
        8 => "8",
        _ => "9",
    };
    proof {
        reveal_strlit("0");
        reveal_strlit("1");
        reveal_strlit("2");
        reveal_strlit("3");
        reveal_strlit("4");
        reveal_strlit("5");
        reveal_strlit("6");
        reveal_strlit("7");
        reveal_strlit("8");
        reveal_strlit("9");
    }
    r
}

/// Renders `n` in decimal.
pub fn dec_str(n: u64) -> (r: String)
    ensures
        r@ == spec_dec_rep(n as int),
    decreases n,
{
    if n < 10 {
        String::from_str(digit_str(n))
    } else {
        let mut s = dec_str(n / 10);
        s.append(digit_str(n % 10));
        proof {
            assert(s@ =~= spec_dec_rep(n as int / 10).push(spec_digit_char(n as int % 10)));
        }
        s
    }
}

/// ASCII whitespace, the kind the encoder's diagnostic output carries.
pub open spec fn is_space(c: char) -> bool {
    c == ' ' || c == '\t' || c == '\r' || c == '\n'
}

/// `s` without leading ASCII whitespace.
pub open spec fn spec_trim_start(s: Seq<char>) -> Seq<char>
    decreases s.len(),
{
    if s.len() > 0 && is_space(s[0]) {
        spec_trim_start(s.drop_first())
    } else {
        s
    }
}

/// `s` without trailing ASCII whitespace.
pub open spec fn spec_trim_end(s: Seq<char>) -> Seq<char>
    decreases s.len(),
{
    if s.len() > 0 && is_space(s.last()) {
        spec_trim_end(s.drop_last())
    } else {
        s
    }
}

/// `s` without leading and trailing ASCII whitespace.
pub open spec fn spec_trim(s: Seq<char>) -> Seq<char> {
    spec_trim_end(spec_trim_start(s))
}

/// Whether `c` is ASCII whitespace.
fn is_space_exec(c: char) -> (r: bool)
    ensures
        r == is_space(c),
{
    c == ' ' || c == '\t' || c == '\r' || c == '\n'
}

/// Copy of `s` without leading ASCII whitespace.
fn trim_start_str(s: &str) -> (r: String)
    ensures
        r@ == spec_trim_start(s@),
    decreases s@.len(),
{
    let n = s.unicode_len();
    if n > 0 && is_space_exec(s.get_char(0)) {
        let rest = s.substring_char(1, n);
        proof {
            assert(rest@ =~= s@.drop_first());
        }
        trim_start_str(rest)
    } else {
        String::from_str(s)
    }
}

/// Copy of `s` without trailing ASCII whitespace.
fn trim_end_str(s: &str) -> (r: String)
    ensures
        r@ == spec_trim_end(s@),
    decreases s@.len(),
{
    let n = s.unicode_len();
    if n > 0 && is_space_exec(s.get_char(n - 1)) {
        let rest = s.substring_char(0, n - 1);
        proof {
            assert(rest@ =~= s@.drop_last());
        }
        trim_end_str(rest)
    } else {
        String::from_str(s)
    }
}

/// Copy of `s` without leading and trailing ASCII whitespace.
pub fn trim_str(s: &str) -> (r: String)
    ensures
        r@ == spec_trim(s@),
{
    let t = trim_start_str(s);
    trim_end_str(t.as_str())
}

} // verus!
