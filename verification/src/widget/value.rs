//! Value math for the rate controls: CPS to period, and the numeric field's
//! parse-and-clamp.

use vstd::prelude::*;

verus! {

pub const CPS_MIN: u32 = 1;

/// The slider maximum: the measured 100%-delivery ceiling.
pub const CPS_SLIDER_MAX: u32 = 2000;

/// The numeric field's hard maximum.
pub const CPS_HARD_MAX: u32 = 4000;

/// Clicks per second to the engine's per-click period. `cps == 0` is coerced
/// to 1: the slider must never accidentally hand the engine unthrottled mode.
pub fn cps_to_interval_ns(cps: u32) -> (ns: u64)
    ensures
        ns == 1_000_000_000int / (if cps < 1 { 1int } else { cps as int }),
{
    let cps: u64 = if cps < 1 { 1 } else { cps as u64 };
    1_000_000_000 / cps
}

/// The rate the interface accepts: clamped into `CPS_MIN..=CPS_HARD_MAX`.
pub fn clamp_cps(cps: u32) -> (r: u32)
    ensures
        r == (if cps < CPS_MIN {
            CPS_MIN
        } else if cps > CPS_HARD_MAX {
            CPS_HARD_MAX
        } else {
            cps
        }),
{
    if cps < CPS_MIN {
        CPS_MIN
    } else if cps > CPS_HARD_MAX {
        CPS_HARD_MAX
    } else {
        cps
    }
}

/// The arrow keys nudge a focused slider by 10 CPS, staying on the slider's
/// range `CPS_MIN..=CPS_SLIDER_MAX`.
pub fn step_cps(cps: u32, up: bool) -> (r: u32)
    ensures
        ({
            let target: int = if up {
                cps + 10
            } else {
                cps - 10
            };
            r == (if target < CPS_MIN {
                CPS_MIN as int
            } else if target > CPS_SLIDER_MAX {
                CPS_SLIDER_MAX as int
            } else {
                target
            })
        }),
{
    let target: i64 = if up {
        cps as i64 + 10
    } else {
        cps as i64 - 10
    };
    if target < CPS_MIN as i64 {
        CPS_MIN
    } else if target > CPS_SLIDER_MAX as i64 {
        CPS_SLIDER_MAX
    } else {
        target as u32
    }
}

/// Unicode `White_Space`, the set `char::is_whitespace` and `str::trim` use.
pub open spec fn is_white_space(c: char) -> bool {
    let u = c as u32;
    (0x09 <= u <= 0x0D) || u == 0x20 || u == 0x85 || u == 0xA0 || u == 0x1680 || (0x2000 <= u
        <= 0x200A) || u == 0x2028 || u == 0x2029 || u == 0x202F || u == 0x205F || u == 0x3000
}

fn white_space(c: char) -> (r: bool)
    ensures
        r == is_white_space(c),
{
    let u = c as u32;
    (0x09 <= u && u <= 0x0D) || u == 0x20 || u == 0x85 || u == 0xA0 || u == 0x1680 || (0x2000 <= u
        && u <= 0x200A) || u == 0x2028 || u == 0x2029 || u == 0x202F || u == 0x205F || u == 0x3000
}

pub open spec fn trim_start(s: Seq<char>) -> Seq<char>
    decreases s.len(),
{
    if s.len() > 0 && is_white_space(s[0]) {
        trim_start(s.drop_first())
    } else {
        s
    }
}

pub open spec fn trim_end(s: Seq<char>) -> Seq<char>
    decreases s.len(),
{
    if s.len() > 0 && is_white_space(s.last()) {
        trim_end(s.drop_last())
    } else {
        s
    }
}

/// What `str::trim` leaves: leading and trailing white space removed.
pub open spec fn trimmed(s: Seq<char>) -> Seq<char> {
    trim_end(trim_start(s))
}

pub open spec fn is_digit(c: char) -> bool {
    '0' <= c <= '9'
}

/// A non-empty run of ASCII decimal digits.
pub open spec fn is_decimal(s: Seq<char>) -> bool {
    s.len() > 0 && forall|i: int| 0 <= i < s.len() ==> is_digit(#[trigger] s[i])
}

/// The number a run of decimal digits spells.
pub open spec fn decimal_value(s: Seq<char>) -> nat
    decreases s.len(),
{
    if s.len() == 0 {
        0
    } else {
        decimal_value(s.drop_last()) * 10 + ((s.last() as u32) - ('0' as u32)) as nat
    }
}

/// The field's value: junk or empty text reads as `min`; a number is clamped
/// into `min..=max` (a number too large for any integer type saturates to
/// `max`).
pub open spec fn spec_parse_and_clamp(text: Seq<char>, min: u32, max: u32) -> u32 {
    let t = trimmed(text);
    if !is_decimal(t) {
        min
    } else if decimal_value(t) < min {
        min
    } else if decimal_value(t) > max {
        max
    } else {
        decimal_value(t) as u32
    }
}

proof fn lemma_trim_start_skip(s: Seq<char>, i: int)
    requires
        0 <= i < s.len(),
        is_white_space(s[i]),
    ensures
        trim_start(s.subrange(i, s.len() as int)) == trim_start(s.subrange(i + 1, s.len() as int)),
{
    assert(s.subrange(i, s.len() as int).drop_first() =~= s.subrange(i + 1, s.len() as int));
}

proof fn lemma_trim_end_skip(s: Seq<char>, j: int)
    requires
        0 < j <= s.len(),
        is_white_space(s[j - 1]),
    ensures
        trim_end(s.subrange(0, j)) == trim_end(s.subrange(0, j - 1)),
{
    assert(s.subrange(0, j).drop_last() =~= s.subrange(0, j - 1));
}

proof fn lemma_value_grows(s: Seq<char>, c: char)
    requires
        is_digit(c),
    ensures
        decimal_value(s.push(c)) >= decimal_value(s),
        decimal_value(s.push(c)) == decimal_value(s) * 10 + ((c as u32) - ('0' as u32)),
{
    assert(s.push(c).drop_last() =~= s);
}

/// Parse a decimal field, coercing junk/empty to `min` and saturating to `max`.
pub fn parse_and_clamp(text: &str, min: u32, max: u32) -> (v: u32)
    requires
        min <= max || !is_decimal(trimmed(text@)) || decimal_value(trimmed(text@)) > u64::MAX,
    ensures
        v == spec_parse_and_clamp(text@, min, max),
{
    broadcast use vstd::string::group_string_axioms;

    let mut cs: Vec<char> = Vec::new();
    for c in it: text.chars()
        invariant
            cs@ == it.seq().take(it.index() as int),
    {
        cs.push(c);
    }
    let ghost s = text@;
    assert(cs@ == s);
    let n = cs.len();
    // Leading white space.
    let mut lo: usize = 0;
    assert(s.subrange(0, n as int) =~= s);
    while lo < n && white_space(cs[lo])
        invariant
            cs@ == s,
            n == s.len(),
            lo <= n,
            trim_start(s) == trim_start(s.subrange(lo as int, n as int)),
        decreases n - lo,
    {
        proof {
            lemma_trim_start_skip(s, lo as int);
        }
        lo = lo + 1;
    }
    let ghost rest = s.subrange(lo as int, n as int);
    assert(trim_start(s) == rest) by {
        if lo < n {
            assert(rest[0] == s[lo as int]);
        }
    }
    // Trailing white space.
    let mut hi: usize = n;
    assert(rest.subrange(0, rest.len() as int) =~= rest);
    while hi > lo && white_space(cs[hi - 1])
        invariant
            cs@ == s,
            n == s.len(),
            lo <= hi <= n,
            rest == s.subrange(lo as int, n as int),
            trim_end(rest) == trim_end(rest.subrange(0, hi - lo)),
        decreases hi,
    {
        proof {
            lemma_trim_end_skip(rest, hi - lo);
        }
        hi = hi - 1;
    }
    let ghost t = s.subrange(lo as int, hi as int);
    assert(rest.subrange(0, hi - lo) =~= t);
    assert(trimmed(s) == t) by {
        if hi > lo {
            assert(t.last() == s[hi - 1]);
        }
    }
    if hi == lo {
        return min;
    }
    // Every character a digit?
    let mut i: usize = lo;
    while i < hi
        invariant
            cs@ == s,
            lo <= i <= hi <= n,
            n == s.len(),
            t == s.subrange(lo as int, hi as int),
            trimmed(s) == t,
            s == text@,
            forall|k: int| 0 <= k < i - lo ==> is_digit(#[trigger] t[k]),
        decreases hi - i,
    {
        let c = cs[i];
        if !('0' <= c && c <= '9') {
            assert(!is_digit(t[i - lo]));
            assert(!is_decimal(t));
            assert(trimmed(text@) == t);
            return min;
        }
        i = i + 1;
    }
    assert(is_decimal(t));
    // Accumulate, stopping once the value passes `max`: more digits only
    // make it larger.
    let mut v: u64 = 0;
    let mut over = false;
    let mut i: usize = lo;
    assert(t.subrange(0, 0) =~= Seq::<char>::empty());
    while i < hi
        invariant
            cs@ == s,
            lo <= i <= hi <= n,
            n == s.len(),
            t == s.subrange(lo as int, hi as int),
            is_decimal(t),
            !over ==> v == decimal_value(t.subrange(0, i - lo)) && v <= max,
            over ==> decimal_value(t.subrange(0, i - lo)) > max,
        decreases hi - i,
    {
        let ghost prefix = t.subrange(0, i - lo);
        assert(t.subrange(0, i - lo + 1) =~= prefix.push(t[i - lo]));
        proof {
            lemma_value_grows(prefix, t[i - lo]);
        }
        if !over {
            let d = (cs[i] as u32 - '0' as u32) as u64;
            v = v * 10 + d;
            if v > max as u64 {
                over = true;
            }
        }
        i = i + 1;
    }
    assert(t.subrange(0, hi - lo) =~= t);
    if over {
        max
    } else if v < min as u64 {
        min
    } else {
        v as u32
    }
}

} // verus!
