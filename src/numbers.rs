//! A bound on the seconds that a duration text can come to, checked before
//! the text reaches the duration grammar.
//!
//! The grammar reads a duration as numbers, each followed by a unit made of
//! ASCII letters; digits separated by whitespace form one number. It adds the
//! whole seconds of each part, and the nanoseconds of the parts below one
//! second, carrying those into seconds as they pass one second. It panics
//! only when it ends with `u64::MAX` seconds and exactly one second of
//! nanoseconds still uncarried.
//!
//! The bound counts each part at its seconds, and each part below one second
//! at its seconds rounded down plus one. The seconds the grammar ends with
//! never exceed it, and where a second of nanoseconds is left uncarried they
//! stay at least one below it. So while the bound is at most `u64::MAX` the
//! grammar does not panic; a text is refused only where the bound passes
//! `u64::MAX`, that is where the seconds the text denotes come within one
//! second per sub-second part of `u64::MAX`.
use vstd::prelude::*;
use vstd::string::StrSliceExecFns;

verus! {

/// An ASCII digit.
pub open spec fn is_digit(c: char) -> bool {
    '0' <= c && c <= '9'
}

/// An ASCII letter: the characters that units are made of.
pub open spec fn is_letter(c: char) -> bool {
    ('a' <= c && c <= 'z') || ('A' <= c && c <= 'Z')
}

/// The units of nanoseconds.
pub open spec fn nanos_unit(w: Seq<char>) -> bool {
    w == "nanos"@ || w == "nsec"@ || w == "ns"@
}

/// The units of microseconds.
pub open spec fn micros_unit(w: Seq<char>) -> bool {
    w == "usec"@ || w == "us"@
}

/// The units of milliseconds.
pub open spec fn millis_unit(w: Seq<char>) -> bool {
    w == "millis"@ || w == "msec"@ || w == "ms"@
}

/// Seconds in one of the unit `w`, for the units of a second or more; zero
/// for any other word.
pub open spec fn seconds_per_unit(w: Seq<char>) -> int {
    if w == "seconds"@ || w == "second"@ || w == "secs"@ || w == "sec"@ || w == "s"@ {
        1
    } else if w == "minutes"@ || w == "minute"@ || w == "min"@ || w == "mins"@ || w == "m"@ {
        60
    } else if w == "hours"@ || w == "hour"@ || w == "hr"@ || w == "hrs"@ || w == "h"@ {
        3600
    } else if w == "days"@ || w == "day"@ || w == "d"@ {
        86400
    } else if w == "weeks"@ || w == "week"@ || w == "w"@ {
        604800
    } else if w == "months"@ || w == "month"@ || w == "M"@ {
        2630016
    } else if w == "years"@ || w == "year"@ || w == "y"@ {
        31557600
    } else {
        0
    }
}

/// The seconds counted for the number `n` followed by the word `w`.
pub open spec fn part_bound(n: int, w: Seq<char>) -> int {
    if nanos_unit(w) {
        n / 1_000_000_000 + 1
    } else if micros_unit(w) {
        n / 1_000_000 + 1
    } else if millis_unit(w) {
        n / 1000 + 1
    } else {
        n * seconds_per_unit(w)
    }
}

/// A number grown by one digit, held at `u64::MAX` beyond it (where the
/// grammar rejects the number).
pub open spec fn grow(n: int, d: int) -> int {
    if n * 10 + d > u64::MAX {
        u64::MAX as int
    } else {
        n * 10 + d
    }
}

/// After scanning `s`: the bound of the parts closed so far, the number being
/// read, and the letters read after it.
pub open spec fn bound_scan(s: Seq<char>) -> (int, int, Seq<char>)
    decreases s.len(),
{
    if s.len() == 0 {
        (0, 0, Seq::empty())
    } else {
        let (sum, cur, word) = bound_scan(s.drop_last());
        let c = s.last();
        if is_digit(c) {
            let d = c as int - '0' as int;
            if word.len() > 0 {
                (sum + part_bound(cur, word), d, Seq::empty())
            } else {
                (sum, grow(cur, d), word)
            }
        } else if is_letter(c) {
            (sum, cur, word.push(c))
        } else if word.len() > 0 {
            (sum + part_bound(cur, word), 0, Seq::empty())
        } else {
            (sum, cur, word)
        }
    }
}

/// The bound on the seconds that the text `s` comes to.
pub open spec fn seconds_bound(s: Seq<char>) -> int {
    bound_scan(s).0 + part_bound(bound_scan(s).1, bound_scan(s).2)
}

/// The bound on the seconds that `s` comes to is at most `u64::MAX`.
pub open spec fn duration_bound_ok(s: Seq<char>) -> bool {
    seconds_bound(s) <= u64::MAX
}

proof fn lemma_scan_facts(s: Seq<char>)
    ensures
        bound_scan(s).0 >= 0,
        0 <= bound_scan(s).1 <= u64::MAX,
    decreases s.len(),
{
    if s.len() > 0 {
        lemma_scan_facts(s.drop_last());
        let (sum, cur, word) = bound_scan(s.drop_last());
        lemma_part_bound_nonnegative(cur, word);
    }
}

proof fn lemma_part_bound_nonnegative(n: int, w: Seq<char>)
    requires
        n >= 0,
    ensures
        part_bound(n, w) >= 0,
{
    assert(n * seconds_per_unit(w) >= 0) by (nonlinear_arith)
        requires
            n >= 0,
            seconds_per_unit(w) >= 0,
    ;
}

/// The bound of the closed parts never shrinks as the text grows.
proof fn lemma_closed_grows(s: Seq<char>, i: int, j: int)
    requires
        0 <= i <= j <= s.len(),
    ensures
        bound_scan(s.take(i)).0 <= bound_scan(s.take(j)).0,
    decreases j - i,
{
    if i < j {
        lemma_closed_grows(s, i, j - 1);
        assert(s.take(j).drop_last() =~= s.take(j - 1));
        lemma_scan_facts(s.take(j - 1));
        let (sum, cur, word) = bound_scan(s.take(j - 1));
        lemma_part_bound_nonnegative(cur, word);
    }
}

/// Tells whether the characters of `w` are those of `lit`.
fn is_word(w: &Vec<char>, lit: &str) -> (r: bool)
    ensures
        r == (w@ == lit@),
{
    let n = lit.unicode_len();
    if w.len() != n {
        return false;
    }
    let mut i: usize = 0;
    while i < n
        invariant
            n == lit@.len(),
            w@.len() == n,
            i <= n,
            forall|k: int| 0 <= k < i ==> w@[k] == lit@[k],
        decreases n - i,
    {
        if w[i] != lit.get_char(i) {
            return false;
        }
        i = i + 1;
    }
    proof {
        assert(w@ =~= lit@);
    }
    true
}

/// Seconds in one of the unit `w`, as `seconds_per_unit`.
fn unit_seconds(w: &Vec<char>) -> (r: u64)
    ensures
        r == seconds_per_unit(w@),
{
    if is_word(w, "seconds") || is_word(w, "second") || is_word(w, "secs") || is_word(w, "sec")
        || is_word(w, "s") {
        1
    } else if is_word(w, "minutes") || is_word(w, "minute") || is_word(w, "min") || is_word(w, "mins")
        || is_word(w, "m") {
        60
    } else if is_word(w, "hours") || is_word(w, "hour") || is_word(w, "hr") || is_word(w, "hrs")
        || is_word(w, "h") {
        3600
    } else if is_word(w, "days") || is_word(w, "day") || is_word(w, "d") {
        86400
    } else if is_word(w, "weeks") || is_word(w, "week") || is_word(w, "w") {
        604800
    } else if is_word(w, "months") || is_word(w, "month") || is_word(w, "M") {
        2630016
    } else if is_word(w, "years") || is_word(w, "year") || is_word(w, "y") {
        31557600
    } else {
        0
    }
}

/// The bound of one part, or `None` where it passes `u64::MAX`.
fn part_bound_exec(n: u64, w: &Vec<char>) -> (r: Option<u64>)
    ensures
        r is None <==> part_bound(n as int, w@) > u64::MAX,
        r matches Some(x) ==> x == part_bound(n as int, w@),
{
    if is_word(w, "nanos") || is_word(w, "nsec") || is_word(w, "ns") {
        Some(n / 1_000_000_000 + 1)
    } else if is_word(w, "usec") || is_word(w, "us") {
        Some(n / 1_000_000 + 1)
    } else if is_word(w, "millis") || is_word(w, "msec") || is_word(w, "ms") {
        Some(n / 1000 + 1)
    } else {
        n.checked_mul(unit_seconds(w))
    }
}

/// Tells whether the bound on the seconds that `text` comes to is at most
/// `u64::MAX`.
pub fn check_duration_bound(text: &str) -> (r: bool)
    ensures
        r == duration_bound_ok(text@),
{
    let n = text.unicode_len();
    let mut sum: u64 = 0;
    let mut cur: u64 = 0;
    let mut word: Vec<char> = Vec::new();
    let mut i: usize = 0;
    while i < n
        invariant
            n == text@.len(),
            i <= n,
            bound_scan(text@.take(i as int)) == (sum as int, cur as int, word@),
            sum <= u64::MAX,
        decreases n - i,
    {
        let c = text.get_char(i);
        proof {
            assert(text@.take(i + 1).drop_last() =~= text@.take(i as int));
            assert(text@.take(i + 1).last() == c);
        }
        let is_digit_c = '0' <= c && c <= '9';
        let is_letter_c = ('a' <= c && c <= 'z') || ('A' <= c && c <= 'Z');
        if is_letter_c {
            word.push(c);
        } else if word.len() > 0 {
            let b = match part_bound_exec(cur, &word) {
                Some(b) if b <= u64::MAX - sum => b,
                _ => {
                proof {
                    lemma_closed_grows(text@, i + 1, n as int);
                    assert(text@.take(n as int) =~= text@);
                    lemma_scan_facts(text@);
                    let (s2, c2, w2) = bound_scan(text@);
                    lemma_part_bound_nonnegative(c2, w2);
                }
                    return false;
                },
            };
            sum = sum + b;
            word = Vec::new();
            proof {
                assert(word@ =~= Seq::<char>::empty());
            }
            if is_digit_c {
                cur = (c as u32 - '0' as u32) as u64;
            } else {
                cur = 0;
            }
        } else if is_digit_c {
            let d = (c as u32 - '0' as u32) as u64;
            cur = match cur.checked_mul(10) {
                Some(x) => match x.checked_add(d) {
                    Some(y) => y,
                    None => u64::MAX,
                },
                None => u64::MAX,
            };
        }
        i = i + 1;
    }
    proof {
        assert(text@.take(n as int) =~= text@);
    }
    match part_bound_exec(cur, &word) {
        Some(b) => b <= u64::MAX - sum,
        None => false,
    }
}

} // verus!
