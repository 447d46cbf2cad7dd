//! An upper bound, in nanoseconds, on the span that a human-readable
//! duration text such as `1h 30min` or `2.5d` names.
//!
//! A text is read as a run of terms, each a number, an optional fraction and
//! a unit word. Digits separated by nothing but other non-letters form one
//! number; a digit after a unit word starts the next term. A term counts its
//! number times its unit, and one whole unit more where it has a fraction.
//! A unit is told by the first letters of its word; `mi` counts as a minute
//! unless an `l` follows, which makes milliseconds. Once a unit word has
//! ended, nothing but a digit changes the term.
use vstd::prelude::*;

verus! {

/// Nanoseconds in a second.
pub const SECOND_NANOS: u128 = 1_000_000_000;

/// The largest span, in nanoseconds, that whole seconds counted in a `u64`
/// reach.
pub const MAX_SPAN_NANOS: u128 = 18446744073709551615_000_000_000;

/// Where a number is held at: beyond it a count of units no longer fits a
/// `u64`.
pub const NUMBER_CAP: u128 = 0x1_0000_0000_0000_0000;

/// Reading the digits of a number.
pub const IN_NUMBER: u8 = 0;

/// Reading the digits after a decimal point.
pub const IN_FRACTION: u8 = 1;

/// Reading the letters of a unit word.
pub const IN_UNIT: u8 = 2;

/// Past the end of a unit word, before the next number.
pub const AFTER_UNIT: u8 = 3;

/// How far a text has been read: the bound of the terms already closed, the
/// current number, whether it has a fraction, what is being read, and the
/// first letters (at most three) of its unit word.
pub struct Scan {
    pub total: int,
    pub number: int,
    pub fraction: bool,
    pub mode: u8,
    pub word: Seq<char>,
}

/// Whether `c` is an ASCII decimal digit.
pub open spec fn is_digit(c: char) -> bool {
    '0' <= c && c <= '9'
}

/// Whether `c` may stand in a unit word.
pub open spec fn is_unit_letter(c: char) -> bool {
    ('a' <= c && c <= 'z') || ('A' <= c && c <= 'Z') || c == '\u{b5}'
}

/// Nanoseconds in the unit whose word begins with `w`; zero where no unit
/// word begins so.
pub open spec fn unit_nanos(w: Seq<char>) -> int {
    if w.len() == 0 {
        0
    } else if w[0] == 'n' {
        1
    } else if w[0] == 'u' || w[0] == '\u{b5}' {
        1_000
    } else if w[0] == 'm' {
        if w.len() >= 2 && (w[1] == 's' || (w[1] == 'i' && w.len() >= 3 && w[2] == 'l')) {
            1_000_000
        } else if w.len() >= 2 && w[1] == 'o' {
            2_630_016_000_000_000
        } else {
            60_000_000_000
        }
    } else if w[0] == 's' {
        1_000_000_000
    } else if w[0] == 'h' {
        3_600_000_000_000
    } else if w[0] == 'd' {
        86_400_000_000_000
    } else if w[0] == 'w' {
        604_800_000_000_000
    } else if w[0] == 'M' {
        2_630_016_000_000_000
    } else if w[0] == 'y' {
        31_557_600_000_000_000
    } else {
        0
    }
}

/// `a`, held at `cap`.
pub open spec fn capped(a: int, cap: int) -> int {
    if a > cap {
        cap
    } else {
        a
    }
}

/// The bound of the term being read, added to the closed ones.
pub open spec fn closed_total(st: Scan) -> int {
    let w = unit_nanos(st.word);
    capped(st.total + st.number * w + if st.fraction {
        w
    } else {
        0
    }, MAX_SPAN_NANOS as int + 1)
}

/// The state of reading before any character.
pub open spec fn scan_start() -> Scan {
    Scan { total: 0, number: 0, fraction: false, mode: IN_NUMBER, word: Seq::empty() }
}

/// Reading one more character.
pub open spec fn scan_step(st: Scan, c: char) -> Scan {
    if is_digit(c) {
        let d = c as int - '0' as int;
        if st.mode == IN_UNIT || st.mode == AFTER_UNIT {
            Scan { total: closed_total(st), number: d, fraction: false, mode: IN_NUMBER, word: Seq::empty() }
        } else if st.mode == IN_NUMBER {
            Scan { number: capped(st.number * 10 + d, NUMBER_CAP as int), ..st }
        } else {
            st
        }
    } else if is_unit_letter(c) {
        if st.mode == IN_UNIT {
            if st.word.len() < 3 {
                Scan { word: st.word.push(c), ..st }
            } else {
                st
            }
        } else if st.mode == AFTER_UNIT {
            st
        } else {
            Scan { mode: IN_UNIT, word: seq![c], ..st }
        }
    } else if st.mode == IN_UNIT || st.mode == AFTER_UNIT {
        Scan { mode: AFTER_UNIT, ..st }
    } else if c == '.' && st.mode == IN_NUMBER {
        Scan { fraction: true, mode: IN_FRACTION, ..st }
    } else {
        st
    }
}

/// The state after reading all of `s`.
pub open spec fn scan(s: Seq<char>) -> Scan
    decreases s.len(),
{
    if s.len() == 0 {
        scan_start()
    } else {
        scan_step(scan(s.drop_last()), s.last())
    }
}

/// The bound, in nanoseconds, on the span that `s` names; held just above
/// `MAX_SPAN_NANOS`.
pub open spec fn span_bound(s: Seq<char>) -> int {
    closed_total(scan(s))
}

fn unit_nanos_of(w: &Vec<char>) -> (r: u128)
    ensures
        r == unit_nanos(w@),
{
    if w.len() == 0 {
        0
    } else if w[0] == 'n' {
        1
    } else if w[0] == 'u' || w[0] == '\u{b5}' {
        1_000
    } else if w[0] == 'm' {
        if w.len() >= 2 && (w[1] == 's' || (w[1] == 'i' && w.len() >= 3 && w[2] == 'l')) {
            1_000_000
        } else if w.len() >= 2 && w[1] == 'o' {
            2_630_016_000_000_000
        } else {
            60_000_000_000
        }
    } else if w[0] == 's' {
        1_000_000_000
    } else if w[0] == 'h' {
        3_600_000_000_000
    } else if w[0] == 'd' {
        86_400_000_000_000
    } else if w[0] == 'w' {
        604_800_000_000_000
    } else if w[0] == 'M' {
        2_630_016_000_000_000
    } else if w[0] == 'y' {
        31_557_600_000_000_000
    } else {
        0
    }
}

fn close(total: u128, number: u128, fraction: bool, word: &Vec<char>) -> (r: u128)
    requires
        total <= MAX_SPAN_NANOS + 1,
        number <= NUMBER_CAP,
    ensures
        r == closed_total(Scan { total: total as int, number: number as int, fraction, mode: IN_UNIT, word: word@ }),
        r <= MAX_SPAN_NANOS + 1,
{
    let w = unit_nanos_of(word);
    assert(number * w <= NUMBER_CAP * 31_557_600_000_000_000) by (nonlinear_arith)
        requires
            number <= NUMBER_CAP,
            w <= 31_557_600_000_000_000,
    ;
    let extra: u128 = if fraction {
        w
    } else {
        0
    };
    let sum = total + number * w + extra;
    if sum > MAX_SPAN_NANOS + 1 {
        MAX_SPAN_NANOS + 1
    } else {
        sum
    }
}

/// The bound, in nanoseconds, on the span that `s` names, held just above
/// `MAX_SPAN_NANOS`.
pub fn span_bound_of(s: &str) -> (r: u128)
    ensures
        r == span_bound(s@),
{
    let n = s.unicode_len();
    let mut total: u128 = 0;
    let mut number: u128 = 0;
    let mut fraction = false;
    let mut mode: u8 = IN_NUMBER;
    let mut word: Vec<char> = Vec::new();
    let mut i: usize = 0;
    while i < n
        invariant
            n == s@.len(),
            i <= n,
            total <= MAX_SPAN_NANOS + 1,
            number <= NUMBER_CAP,
            scan(s@.take(i as int)) == (Scan { total: total as int, number: number as int, fraction, mode, word: word@ }),
        decreases n - i,
    {
        let c = s.get_char(i);
        assert(s@.take(i as int + 1).drop_last() =~= s@.take(i as int));
        assert(s@.take(i as int + 1).last() == c);
        if '0' <= c && c <= '9' {
            let d = (c as u32 - '0' as u32) as u128;
            if mode == IN_UNIT || mode == AFTER_UNIT {
                total = close(total, number, fraction, &word);
                number = d;
                fraction = false;
                mode = IN_NUMBER;
                word = Vec::new();
            } else if mode == IN_NUMBER {
                let next = number * 10 + d;
                number = if next > NUMBER_CAP {
                    NUMBER_CAP
                } else {
                    next
                };
            }
        } else if ('a' <= c && c <= 'z') || ('A' <= c && c <= 'Z') || c == '\u{b5}' {
            if mode == IN_UNIT {
                if word.len() < 3 {
                    word.push(c);
                }
            } else if mode != AFTER_UNIT {
                mode = IN_UNIT;
                word = Vec::new();
                word.push(c);
                assert(word@ =~= seq![c]);
            }
        } else if mode == IN_UNIT || mode == AFTER_UNIT {
            mode = AFTER_UNIT;
        } else if c == '.' && mode == IN_NUMBER {
            fraction = true;
            mode = IN_FRACTION;
        }
        i = i + 1;
    }
    assert(s@.take(n as int) =~= s@);
    close(total, number, fraction, &word)
}

} // verus!
