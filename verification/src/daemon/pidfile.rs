//! The text of a PID file: the decimal process id of the running daemon,
//! which may have white space around it.

use crate::text::{chars_of, trim_bounds, trim_end, trim_start, trimmed};
use vstd::prelude::*;
use vstd::string::*;

verus! {

/// Whether `c` is one of the ten decimal digits.
pub open spec fn is_digit(c: char) -> bool {
    0x30 <= c as u32 <= 0x39
}

/// The number that the digit `c` stands for.
pub open spec fn digit_value(c: char) -> nat {
    (c as u32 - 0x30) as nat
}

/// The digit that stands for `d`, a number below ten.
pub open spec fn digit_char(d: nat) -> char {
    if d == 0 {
        '0'
    } else if d == 1 {
        '1'
    } else if d == 2 {
        '2'
    } else if d == 3 {
        '3'
    } else if d == 4 {
        '4'
    } else if d == 5 {
        '5'
    } else if d == 6 {
        '6'
    } else if d == 7 {
        '7'
    } else if d == 8 {
        '8'
    } else {
        '9'
    }
}

/// Whether `s` holds decimal digits only.
pub open spec fn all_digits(s: Seq<char>) -> bool {
    forall|i: int| 0 <= i < s.len() ==> is_digit(#[trigger] s[i])
}

/// The number that a sequence of decimal digits denotes.
pub open spec fn decimal_value(digits: Seq<char>) -> nat
    decreases digits.len(),
{
    if digits.len() == 0 {
        0
    } else {
        decimal_value(digits.drop_last()) * 10 + digit_value(digits.last())
    }
}

/// The decimal digits of `n`, without leading zeros.
pub open spec fn decimal(n: nat) -> Seq<char>
    decreases n,
{
    if n < 10 {
        seq![digit_char(n)]
    } else {
        decimal(n / 10).push(digit_char(n % 10))
    }
}

/// The number that `digits` denote, if they are one or more decimal digits
/// whose value fits 32 bits.
pub open spec fn number_of(digits: Seq<char>) -> Option<u32> {
    if digits.len() > 0 && all_digits(digits) && decimal_value(digits) <= u32::MAX {
        Some(decimal_value(digits) as u32)
    } else {
        None
    }
}

/// The process id that `s` denotes: one or more decimal digits, with an
/// optional `+` before them, whose value fits 32 bits.
pub open spec fn parse_u32(s: Seq<char>) -> Option<u32> {
    number_of(
        if s.len() > 0 && s.first() == '+' {
            s.drop_first()
        } else {
            s
        },
    )
}

/// The process id that a PID file with these contents records, if they
/// denote one.
pub open spec fn pid_of(contents: Seq<char>) -> Option<u32> {
    parse_u32(trimmed(contents))
}

/// More digits never denote less.
proof fn lemma_decimal_value_grows(digits: Seq<char>, k: int)
    requires
        0 <= k <= digits.len(),
    ensures
        decimal_value(digits.take(k)) <= decimal_value(digits),
    decreases digits.len() - k,
{
    if k == digits.len() {
        assert(digits.take(k) =~= digits);
    } else {
        lemma_decimal_value_grows(digits.drop_last(), k);
        assert(digits.drop_last().take(k) =~= digits.take(k));
    }
}

/// The digits of a number denote that number, and nothing but digits stands
/// among them.
pub proof fn lemma_decimal_denotes(n: nat)
    ensures
        decimal(n).len() > 0,
        all_digits(decimal(n)),
        decimal_value(decimal(n)) == n,
    decreases n,
{
    if n < 10 {
        assert(decimal(n).drop_last() =~= Seq::<char>::empty());
        assert(decimal_value(decimal(n).drop_last()) == 0);
    } else {
        lemma_decimal_denotes(n / 10);
        assert(decimal(n).drop_last() =~= decimal(n / 10));
    }
}

/// A PID file that holds the digits of a process id records that id.
pub proof fn lemma_pid_round_trip(pid: u32)
    ensures
        pid_of(decimal(pid as nat)) == Some(pid),
{
    let text = decimal(pid as nat);
    lemma_decimal_denotes(pid as nat);
    assert(is_digit(text.first()));
    assert(is_digit(text.last()));
    assert(trim_start(text) == text);
    assert(trim_end(text) == text);
}

/// Reads the process id that a PID file with these contents records.
/// White space around the number is skipped. Contents that are no number,
/// or a number that is no process id, record nothing.
pub fn read_pid(contents: &str) -> (pid: Option<u32>)
    ensures
        pid == pid_of(contents@),
{
    let chars = chars_of(contents);
    let n = chars.len();
    let (lo, hi) = trim_bounds(&chars);
    let ghost text = chars@.subrange(lo as int, hi as int);
    assert(trimmed(chars@) == text);
    let mut i: usize = lo;
    if i < hi && chars[i] == '+' {
        i += 1;
    }
    let start = i;
    let ghost digits = chars@.subrange(start as int, hi as int);
    assert(digits == if text.len() > 0 && text.first() == '+' {
        text.drop_first()
    } else {
        text
    }) by {
        if start > lo {
            assert(text.drop_first() =~= digits);
        }
    }
    assert(pid_of(contents@) == number_of(digits));
    if start == hi {
        return None;
    }
    let mut value: u64 = 0;
    while i < hi
        invariant
            start <= i <= hi <= n,
            n == chars@.len(),
            digits == chars@.subrange(start as int, hi as int),
            pid_of(contents@) == number_of(digits),
            all_digits(digits.take(i - start)),
            value == decimal_value(digits.take(i - start)),
            value <= u32::MAX,
        decreases hi - i,
    {
        let code: u32 = chars[i] as u32;
        if code < 0x30 || code > 0x39 {
            assert(!is_digit(digits[i - start]));
            return None;
        }
        value = value * 10 + (code - 0x30) as u64;
        proof {
            assert(digits.take(i + 1 - start).drop_last() =~= digits.take(i - start));
            assert(digits.take(i + 1 - start).last() == chars@[i as int]);
            lemma_decimal_value_grows(digits, i + 1 - start);
        }
        if value > u32::MAX as u64 {
            return None;
        }
        i += 1;
    }
    assert(digits.take(hi - start) =~= digits);
    Some(value as u32)
}

/// The text of one decimal digit.
fn digit_text(d: u32) -> (text: &'static str)
    requires
        d < 10,
    ensures
        text@ == seq![digit_char(d as nat)],
{
    proof {
        reveal_strlit("0");
        reveal_strlit("1");
        reveal_strlit("2");
        reveal_strlit("3");
        reveal_strlit("4");
        reveal_strlit("5");
        reveal_strlit("6");
        reveal_strlit("7");
        reveal_strlit("8");
        reveal_strlit("9");
    }
    let text = if d == 0 {
        "0"
    } else if d == 1 {
        "1"
    } else if d == 2 {
        "2"
    } else if d == 3 {
        "3"
    } else if d == 4 {
        "4"
    } else if d == 5 {
        "5"
    } else if d == 6 {
        "6"
    } else if d == 7 {
        "7"
    } else if d == 8 {
        "8"
    } else {
        "9"
    };
    assert(text@ =~= seq![digit_char(d as nat)]);
    text
}

/// Appends the decimal digits of `n` to `out`.
fn push_decimal(out: &mut String, n: u32)
    ensures
        final(out)@ == old(out)@ + decimal(n as nat),
    decreases n,
{
    if n >= 10 {
        push_decimal(out, n / 10);
    }
    out.append(digit_text(n % 10));
    proof {
        if n >= 10 {
            assert(final(out)@ =~= old(out)@ + decimal((n / 10) as nat).push(
                digit_char((n % 10) as nat),
            ));
        } else {
            assert(final(out)@ =~= old(out)@ + seq![digit_char(n as nat)]);
        }
    }
}

/// Writes the contents of a PID file that records `pid`: its decimal digits.
pub fn format_pid(pid: u32) -> (text: String)
    ensures
        text@ == decimal(pid as nat),
        pid_of(text@) == Some(pid),
{
    let mut text = String::new();
    push_decimal(&mut text, pid);
    proof {
        assert(text@ =~= decimal(pid as nat));
        lemma_pid_round_trip(pid);
    }
    text
}

} // verus!
