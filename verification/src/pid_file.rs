//! The decimal text of a process identifier, and the paths of the files that
//! tell whether a process of an earlier run is still alive.
use vstd::prelude::*;
use vstd::string::*;
use vstd::utf8::is_ascii_chars;

verus! {

/// The character that writes the digit `d`, for `d` below ten.
pub open spec fn digit_char(d: nat) -> char {
    if d == 0 {
        '0'
    } else if d == 1 {
        '1'
    } else if d == 2 {
        '2'
    } else if d == 3 {
        '3'
    } else if d == 4 {
        '4'
    } else if d == 5 {
        '5'
    } else if d == 6 {
        '6'
    } else if d == 7 {
        '7'
    } else if d == 8 {
        '8'
    } else {
        '9'
    }
}

/// Whether `c` is one of the ten decimal digits.
pub open spec fn is_digit(c: char) -> bool {
    '0' <= c <= '9'
}

/// The number that the digit `c` stands for.
pub open spec fn digit_value(c: char) -> nat {
    (c as nat - 48) as nat
}

/// Whether every character of `s` is a decimal digit.
pub open spec fn all_digits(s: Seq<char>) -> bool {
    forall|i: int| 0 <= i < s.len() ==> is_digit(#[trigger] s[i])
}

/// The number that a run of digits writes, the first digit weighing most.
pub open spec fn digits_value(s: Seq<char>) -> nat
    decreases s.len(),
{
    if s.len() == 0 {
        0
    } else {
        10 * digits_value(s.drop_last()) + digit_value(s.last())
    }
}

/// The decimal text of `n`: no sign, no leading zero but for zero itself.
pub open spec fn decimal(n: nat) -> Seq<char>
    decreases n,
{
    if n < 10 {
        seq![digit_char(n)]
    } else {
        decimal(n / 10).push(digit_char(n % 10))
    }
}

/// The digits of a PID text: the text itself, without a leading plus sign.
pub open spec fn unsigned_part(text: Seq<char>) -> Seq<char> {
    if text.len() > 0 && text[0] == '+' {
        text.subrange(1, text.len() as int)
    } else {
        text
    }
}

/// The process identifier that a text holds: an optional plus sign, then one
/// digit or more, worth no more than `u32::MAX`. Any other text holds none.
pub open spec fn pid_of_text(text: Seq<char>) -> Option<u32> {
    let body = unsigned_part(text);
    if body.len() > 0 && all_digits(body) && digits_value(body) <= u32::MAX {
        Some(digits_value(body) as u32)
    } else {
        None
    }
}

/// The path of the PID file of the worker called `name`.
pub open spec fn pid_file_path_of(name: Seq<char>) -> Seq<char> {
    seq!['.', '/'] + name + seq!['.', 'p', 'i', 'd']
}

/// The path of the command-line record that the system keeps of a live process.
pub open spec fn proc_cmdline_path_of(pid: u32) -> Seq<char> {
    seq!['/', 'p', 'r', 'o', 'c', '/'] + decimal(pid as nat) + seq![
        '/',
        'c',
        'm',
        'd',
        'l',
        'i',
        'n',
        'e',
    ]
}

/// A longer run of digits is worth at least as much as any of its prefixes.
pub proof fn lemma_digits_value_prefix(s: Seq<char>, k: int)
    requires
        0 <= k <= s.len(),
    ensures
        digits_value(s.subrange(0, k)) <= digits_value(s),
    decreases s.len(),
{
    if k == s.len() {
        assert(s.subrange(0, k) =~= s);
    } else {
        lemma_digits_value_prefix(s.drop_last(), k);
        assert(s.drop_last().subrange(0, k) =~= s.subrange(0, k));
    }
}

/// The decimal text of a number is made of digits and is worth that number.
pub proof fn lemma_decimal_value(n: nat)
    ensures
        decimal(n).len() > 0,
        all_digits(decimal(n)),
        digits_value(decimal(n)) == n,
        decimal(n)[0] != '+',
    decreases n,
{
    if n < 10 {
        assert(decimal(n).drop_last() =~= Seq::<char>::empty());
        assert(digits_value(decimal(n).drop_last()) == 0);
    } else {
        lemma_decimal_value(n / 10);
        assert(decimal(n).drop_last() =~= decimal(n / 10));
    }
}

/// Reading back the text that was written for a PID gives that PID.
pub proof fn lemma_pid_text_round_trip(pid: u32)
    ensures
        pid_of_text(decimal(pid as nat)) == Some(pid),
{
    lemma_decimal_value(pid as nat);
}

fn digit_text(d: u32) -> (s: &'static str)
    requires
        d < 10,
    ensures
        s@ == seq![digit_char(d as nat)],
{
    proof {
        reveal_strlit("0");
        reveal_strlit("1");
        reveal_strlit("2");
        reveal_strlit("3");
        reveal_strlit("4");
        reveal_strlit("5");
        reveal_strlit("6");
        reveal_strlit("7");
        reveal_strlit("8");
        reveal_strlit("9");
    }
    let s = if d == 0 {
        "0"
    } else if d == 1 {
        "1"
    } else if d == 2 {
        "2"
    } else if d == 3 {
        "3"
    } else if d == 4 {
        "4"
    } else if d == 5 {
        "5"
    } else if d == 6 {
        "6"
    } else if d == 7 {
        "7"
    } else if d == 8 {
        "8"
    } else {
        "9"
    };
    assert(s@ =~= seq![digit_char(d as nat)]);
    s
}

/// Writes a process identifier as decimal text.
pub fn format_pid(pid: u32) -> (text: String)
    ensures
        text@ == decimal(pid as nat),
    decreases pid,
{
    if pid < 10 {
        String::from_str(digit_text(pid))
    } else {
        let mut text = format_pid(pid / 10);
        text.append(digit_text(pid % 10));
        assert(text@ =~= decimal(pid as nat));
        text
    }
}

/// Reads a process identifier from the text of a PID file.
///
/// The text is an optional plus sign followed by decimal digits and nothing
/// else, neither white space nor a line end. `None` says that the text is
/// malformed or names a number that is too large to be a PID.
pub fn parse_pid(text: &str) -> (pid: Option<u32>)
    ensures
        pid == pid_of_text(text@),
{
    if !text.is_ascii() {
        proof {
            lemma_not_ascii_is_no_pid(text@);
        }
        return None;
    }
    let bytes = text.as_bytes();
    proof {
        is_ascii_spec_bytes(text);
    }
    let n = bytes.len();
    let start: usize = if n > 0 && bytes[0] == 43 {
        1
    } else {
        0
    };
    let ghost body = unsigned_part(text@);
    assert(body.len() == n - start);
    assert(forall|j: int| 0 <= j < body.len() ==> body[j] as u8 == bytes@[j + start]);
    if start == n {
        return None;
    }
    let mut i: usize = start;
    let mut value: u64 = 0;
    while i < n
        invariant
            start <= i <= n,
            n == bytes@.len(),
            body == unsigned_part(text@),
            body.len() == n - start,
            forall|j: int| 0 <= j < body.len() ==> body[j] as u8 == bytes@[j + start],
            is_ascii_chars(body),
            all_digits(body.subrange(0, i - start)),
            value == digits_value(body.subrange(0, i - start)),
            value <= u32::MAX,
        decreases n - i,
    {
        let b = bytes[i];
        let ghost c = body[i - start];
        let ghost seen = body.subrange(0, i - start + 1);
        assert(seen.drop_last() =~= body.subrange(0, i - start));
        assert(seen.last() == c);
        if b < 48 || b > 57 {
            assert(!is_digit(c));
            return None;
        }
        assert(is_digit(c));
        value = value * 10 + (b - 48) as u64;
        assert(value == digits_value(seen));
        if value > u32::MAX as u64 {
            proof {
                lemma_digits_value_prefix(body, i - start + 1);
            }
            return None;
        }
        assert(all_digits(seen)) by {
            assert forall|j: int| 0 <= j < seen.len() implies is_digit(#[trigger] seen[j]) by {
                if j < seen.len() - 1 {
                    assert(seen[j] == body.subrange(0, i - start)[j]);
                }
            }
        }
        i += 1;
    }
    assert(body.subrange(0, n - start) =~= body);
    Some(value as u32)
}

proof fn lemma_not_ascii_is_no_pid(text: Seq<char>)
    requires
        !is_ascii_chars(text),
    ensures
        pid_of_text(text) is None,
{
    let i = choose|i: int| 0 <= i < text.len() && !('\0' <= #[trigger] text[i] <= '\u{7f}');
    let body = unsigned_part(text);
    if text.len() > 0 && text[0] == '+' {
        assert(i >= 1);
        assert(body[i - 1] == text[i]);
        assert(!is_digit(body[i - 1]));
    } else {
        assert(!is_digit(body[i]));
    }
}

/// The path of the PID file of the worker called `name`: `./<name>.pid`.
pub fn pid_file_path(name: &str) -> (path: String)
    ensures
        path@ == pid_file_path_of(name@),
{
    proof {
        reveal_strlit("./");
        reveal_strlit(".pid");
    }
    let mut path = String::from_str("./");
    path.append(name);
    path.append(".pid");
    assert(path@ =~= pid_file_path_of(name@));
    path
}

/// The path of the command-line record of the process `pid`:
/// `/proc/<pid>/cmdline`. It can be read as long as the process exists.
pub fn proc_cmdline_path(pid: u32) -> (path: String)
    ensures
        path@ == proc_cmdline_path_of(pid),
{
    proof {
        reveal_strlit("/proc/");
        reveal_strlit("/cmdline");
    }
    let mut path = String::from_str("/proc/");
    let digits = format_pid(pid);
    path.append(digits.as_str());
    path.append("/cmdline");
    assert(path@ =~= proc_cmdline_path_of(pid));
    path
}

} // verus!
