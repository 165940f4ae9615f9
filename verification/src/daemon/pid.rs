//! The PID file: what it holds and how it is read.
//!
//! The daemon records its process id as a decimal number followed by a line
//! feed. A reader strips the white space around the text and takes it for a
//! number, with an optional `+` in front, that fits in 32 bits.

use vstd::prelude::*;
use vstd::string::*;

verus! {

/// Whether `c` is white space, as Unicode defines it.
pub open spec fn is_space(c: char) -> bool {
    let code = c as u32;
    ||| 0x09 <= code <= 0x0D
    ||| code == 0x20
    ||| code == 0x85
    ||| code == 0xA0
    ||| code == 0x1680
    ||| 0x2000 <= code <= 0x200A
    ||| code == 0x2028
    ||| code == 0x2029
    ||| code == 0x202F
    ||| code == 0x205F
    ||| code == 0x3000
}

/// Whether `c` is one of the digits `0` to `9`.
pub open spec fn is_digit(c: char) -> bool {
    0x30 <= c as u32 <= 0x39
}

/// The number that the digit `c` stands for.
pub open spec fn digit_value(c: char) -> nat {
    (c as u32 - 0x30) as nat
}

/// The digit that stands for `d`.
pub open spec fn digit_char(d: nat) -> char {
    ((0x30 + d) as u8) as char
}

/// `text` without the white space at its start.
pub open spec fn trim_start(text: Seq<char>) -> Seq<char>
    decreases text.len(),
{
    if text.len() > 0 && is_space(text[0]) {
        trim_start(text.drop_first())
    } else {
        text
    }
}

/// `text` without the white space at its end.
pub open spec fn trim_end(text: Seq<char>) -> Seq<char>
    decreases text.len(),
{
    if text.len() > 0 && is_space(text.last()) {
        trim_end(text.drop_last())
    } else {
        text
    }
}

/// `text` without the white space around it.
pub open spec fn trimmed(text: Seq<char>) -> Seq<char> {
    trim_end(trim_start(text))
}

/// Whether `text` holds digits only.
pub open spec fn all_digits(text: Seq<char>) -> bool {
    forall|i: int| 0 <= i < text.len() ==> is_digit(#[trigger] text[i])
}

/// The number that the digits of `text` spell in base ten.
pub open spec fn decimal_value(text: Seq<char>) -> nat
    decreases text.len(),
{
    if text.len() == 0 {
        0
    } else {
        10 * decimal_value(text.drop_last()) + digit_value(text.last())
    }
}

/// The digits of `n` in base ten, without leading zeros.
pub open spec fn decimal_digits(n: nat) -> Seq<char>
    decreases n,
{
    if n < 10 {
        seq![digit_char(n)]
    } else {
        decimal_digits(n / 10).push(digit_char(n % 10))
    }
}

/// `text` without a `+` in front.
pub open spec fn unsigned(text: Seq<char>) -> Seq<char> {
    if text.len() > 0 && text[0] == '+' {
        text.drop_first()
    } else {
        text
    }
}

/// The 32-bit number that `text` spells: an optional `+`, then one or more
/// digits and nothing else.
pub open spec fn parsed_number(text: Seq<char>) -> Option<u32> {
    let digits = unsigned(text);
    if digits.len() > 0 && all_digits(digits) && decimal_value(digits) <= u32::MAX {
        Some(decimal_value(digits) as u32)
    } else {
        None
    }
}

/// The process id that a PID file with `contents` records.
pub open spec fn parsed_pid(contents: Seq<char>) -> Option<u32> {
    parsed_number(trimmed(contents))
}

/// What the daemon with process id `pid` writes to its PID file.
pub open spec fn pid_file_text(pid: u32) -> Seq<char> {
    decimal_digits(pid as nat).push('\n')
}

/// The number spelled by the first digits of a text is no larger than the
/// number spelled by all of them.
pub proof fn lemma_decimal_prefix(text: Seq<char>, n: int)
    requires
        0 <= n <= text.len(),
    ensures
        decimal_value(text.take(n)) <= decimal_value(text),
    decreases text.len(),
{
    if n == text.len() {
        assert(text.take(n) =~= text);
    } else {
        assert(text.drop_last().take(n) =~= text.take(n));
        lemma_decimal_prefix(text.drop_last(), n);
    }
}

/// The digits of a number are digits, and they spell the number.
pub proof fn lemma_decimal_digits(n: nat)
    ensures
        decimal_digits(n).len() > 0,
        all_digits(decimal_digits(n)),
        decimal_value(decimal_digits(n)) == n,
    decreases n,
{
    let digits = decimal_digits(n);
    if n < 10 {
        assert(digits.drop_last() =~= Seq::<char>::empty());
        assert(decimal_value(digits.drop_last()) == 0);
        assert(digits.last() == digit_char(n));
    } else {
        lemma_decimal_digits(n / 10);
        assert(digits.drop_last() =~= decimal_digits(n / 10));
        assert(digits.last() == digit_char(n % 10));
        assert forall|i: int| 0 <= i < digits.len() implies is_digit(#[trigger] digits[i]) by {
            if i < digits.len() - 1 {
                assert(digits[i] == decimal_digits(n / 10)[i]);
            }
        }
    }
}

/// Reading the PID file that a daemon wrote gives the daemon's process id.
pub proof fn lemma_pid_file_round_trip(pid: u32)
    ensures
        parsed_pid(pid_file_text(pid)) == Some(pid),
{
    let digits = decimal_digits(pid as nat);
    let text = pid_file_text(pid);
    lemma_decimal_digits(pid as nat);
    assert(is_digit(digits[0]));
    assert(is_digit(digits.last()));
    assert(text[0] == digits[0]);
    assert(trim_start(text) == text);
    assert(text.last() == '\n');
    assert(text.drop_last() =~= digits);
    assert(trim_end(digits) == digits);
    assert(trim_end(text) == digits);
}

/// Whether `c` is white space.
fn space(c: char) -> (answer: bool)
    ensures
        answer == is_space(c),
{
    let code: u32 = c as u32;
    (0x09 <= code && code <= 0x0D) || code == 0x20 || code == 0x85 || code == 0xA0 || code
        == 0x1680 || (0x2000 <= code && code <= 0x200A) || code == 0x2028 || code == 0x2029
        || code == 0x202F || code == 0x205F || code == 0x3000
}

/// The characters of `text`.
fn chars_of(text: &str) -> (chars: Vec<char>)
    ensures
        chars@ == text@,
{
    let mut chars: Vec<char> = Vec::new();
    for c in it: text.chars()
        invariant
            it.seq() == text@,
            chars@ == it.seq().take(it.index() as int),
    {
        chars.push(c);
    }
    assert(chars@ =~= text@);
    chars
}

/// Reads the process id that a PID file with `contents` records, if it
/// records one.
pub fn parse_pid(contents: &str) -> (pid: Option<u32>)
    ensures
        pid == parsed_pid(contents@),
{
    let chars = chars_of(contents);
    let ghost text = chars@;
    let mut start: usize = 0;
    assert(text.skip(0) =~= text);
    while start < chars.len() && space(chars[start])
        invariant
            start <= chars.len(),
            text == chars@,
            trim_start(text) == trim_start(text.skip(start as int)),
        decreases chars.len() - start,
    {
        assert(text.skip(start as int).drop_first() =~= text.skip(start + 1));
        start = start + 1;
    }
    let mut end: usize = chars.len();
    assert(text.skip(start as int) =~= text.subrange(start as int, end as int));
    while end > start && space(chars[end - 1])
        invariant
            start <= end <= chars.len(),
            text == chars@,
            trimmed(text) == trim_end(text.subrange(start as int, end as int)),
        decreases end,
    {
        assert(text.subrange(start as int, end as int).drop_last() =~= text.subrange(
            start as int,
            end - 1,
        ));
        end = end - 1;
    }
    assert(trimmed(text) == text.subrange(start as int, end as int));
    if start < end && chars[start] == '+' {
        assert(text.subrange(start as int, end as int).drop_first() =~= text.subrange(
            start + 1,
            end as int,
        ));
        start = start + 1;
    }
    let ghost digits = text.subrange(start as int, end as int);
    assert(digits == unsigned(trimmed(text)));
    if start == end {
        return None;
    }
    let mut value: u64 = 0;
    let mut i: usize = start;
    assert(digits.take(0) =~= Seq::<char>::empty());
    while i < end
        invariant
            start <= i <= end <= chars.len(),
            text == chars@,
            digits == text.subrange(start as int, end as int),
            digits == unsigned(trimmed(contents@)),
            all_digits(digits.take(i - start)),
            value as nat == decimal_value(digits.take(i - start)),
            value <= u32::MAX,
        decreases end - i,
    {
        let code: u32 = chars[i] as u32;
        let ghost next = digits.take(i - start + 1);
        assert(next.drop_last() =~= digits.take(i - start));
        assert(next.last() == digits[i - start]);
        if code < 0x30 || code > 0x39 {
            assert(!is_digit(digits[i - start]));
            return None;
        }
        value = value * 10 + (code - 0x30) as u64;
        if value > u32::MAX as u64 {
            proof {
                lemma_decimal_prefix(digits, i - start + 1);
            }
            return None;
        }
        assert forall|j: int| 0 <= j < next.len() implies is_digit(#[trigger] next[j]) by {
            if j < next.len() - 1 {
                assert(next[j] == digits.take(i - start)[j]);
            }
        }
        i = i + 1;
    }
    assert(digits.take(end - start) =~= digits);
    Some(value as u32)
}

/// The digit that stands for `d`, as a text.
fn digit_text(d: u32) -> (text: &'static str)
    requires
        d < 10,
    ensures
        text@ == seq![digit_char(d as nat)],
{
    proof {
        reveal_strlit("0");
        reveal_strlit("1");
        reveal_strlit("2");
        reveal_strlit("3");
        reveal_strlit("4");
        reveal_strlit("5");
        reveal_strlit("6");
        reveal_strlit("7");
        reveal_strlit("8");
        reveal_strlit("9");
    }
    let text = match d {
        0 => "0",
        1 => "1",
        2 => "2",
        3 => "3",
        4 => "4",
        5 => "5",
        6 => "6",
        7 => "7",
        8 => "8",
        _ => "9",
    };
    assert(text@ =~= seq![digit_char(d as nat)]);
    text
}

/// The digits of `n` in base ten, without leading zeros.
pub fn decimal_text(n: u32) -> (text: String)
    ensures
        text@ == decimal_digits(n as nat),
    decreases n,
{
    if n < 10 {
        digit_text(n).to_owned()
    } else {
        let text = decimal_text(n / 10).concat(digit_text(n % 10));
        assert(text@ =~= decimal_digits(n as nat));
        text
    }
}

} // verus!
