//! The wording of what the executor reports.

use vstd::prelude::*;

verus! {

/// The character that stands for a single decimal digit.
pub open spec fn digit(d: int) -> char
    recommends
        0 <= d < 10,
{
    if d == 0 {
        '0'
    } else if d == 1 {
        '1'
    } else if d == 2 {
        '2'
    } else if d == 3 {
        '3'
    } else if d == 4 {
        '4'
    } else if d == 5 {
        '5'
    } else if d == 6 {
        '6'
    } else if d == 7 {
        '7'
    } else if d == 8 {
        '8'
    } else {
        '9'
    }
}

/// The decimal digits of a natural number, most significant first, with no
/// leading zero but for zero itself.
pub open spec fn digits(n: nat) -> Seq<char>
    decreases n,
{
    if n < 10 {
        seq![digit(n as int)]
    } else {
        digits(n / 10).push(digit((n % 10) as int))
    }
}

/// An integer in decimal, with a minus sign in front of a negative one.
pub open spec fn decimal(i: int) -> Seq<char> {
    if i < 0 {
        seq!['-'] + digits((-i) as nat)
    } else {
        digits(i as nat)
    }
}

fn digit_str(d: u32) -> (s: &'static str)
    requires
        d < 10,
    ensures
        s@ == seq![digit(d as int)],
{
    proof {
        reveal_strlit("0");
        reveal_strlit("1");
        reveal_strlit("2");
        reveal_strlit("3");
        reveal_strlit("4");
        reveal_strlit("5");
        reveal_strlit("6");
        reveal_strlit("7");
        reveal_strlit("8");
        reveal_strlit("9");
    }
    let s = if d == 0 {
        "0"
    } else if d == 1 {
        "1"
    } else if d == 2 {
        "2"
    } else if d == 3 {
        "3"
    } else if d == 4 {
        "4"
    } else if d == 5 {
        "5"
    } else if d == 6 {
        "6"
    } else if d == 7 {
        "7"
    } else if d == 8 {
        "8"
    } else {
        "9"
    };
    assert(s@ =~= seq![digit(d as int)]);
    s
}

/// Appends the decimal digits of `n` to `out`.
pub fn push_digits(out: &mut String, n: u32)
    ensures
        final(out)@ == old(out)@ + digits(n as nat),
    decreases n,
{
    if n >= 10 {
        push_digits(out, n / 10);
    }
    out.append(digit_str(n % 10));
    assert(final(out)@ =~= old(out)@ + digits(n as nat));
}

/// Appends `code` in decimal to `out`.
pub fn push_decimal(out: &mut String, code: i32)
    ensures
        final(out)@ == old(out)@ + decimal(code as int),
{
    let wide: i64 = code as i64;
    if wide < 0 {
        proof {
            reveal_strlit("-");
        }
        out.append("-");
        let magnitude: u32 = (0 - wide) as u32;
        push_digits(out, magnitude);
        assert(final(out)@ =~= old(out)@ + decimal(code as int));
    } else {
        let magnitude: u32 = wide as u32;
        push_digits(out, magnitude);
    }
}

/// The last line logged for a streamed job: the exit code, or the notice
/// that a signal ended the process.
pub open spec fn exit_line(code: Option<i32>) -> Seq<char> {
    match code {
        Some(c) => "Exited with status code: "@ + decimal(c as int),
        None => "Process terminated by signal"@,
    }
}

/// The warning shown when a process that owned the terminal did not end
/// well.
pub open spec fn exit_warning(code: Option<i32>) -> Seq<char> {
    match code {
        Some(c) => "Process exited with status code: "@ + decimal(c as int),
        None => "Process terminated by signal"@,
    }
}

/// The reason reported when a process could not be started.
pub open spec fn spawn_failure(reason: Seq<char>) -> Seq<char> {
    "Failed to spawn process: "@ + reason
}

/// The reason reported when a streamed process did not end well.
pub open spec fn process_failed() -> Seq<char> {
    "Process failed"@
}

/// Renders [`exit_line`].
pub fn exit_line_text(code: Option<i32>) -> (line: String)
    ensures
        line@ == exit_line(code),
{
    match code {
        Some(c) => {
            let mut line = String::from_str("Exited with status code: ");
            push_decimal(&mut line, c);
            line
        },
        None => String::from_str("Process terminated by signal"),
    }
}

/// Renders [`exit_warning`].
pub fn exit_warning_text(code: Option<i32>) -> (body: String)
    ensures
        body@ == exit_warning(code),
{
    match code {
        Some(c) => {
            let mut body = String::from_str("Process exited with status code: ");
            push_decimal(&mut body, c);
            body
        },
        None => String::from_str("Process terminated by signal"),
    }
}

/// Renders [`spawn_failure`].
pub fn spawn_failure_text(reason: &str) -> (text: String)
    ensures
        text@ == spawn_failure(reason@),
{
    let mut text = String::from_str("Failed to spawn process: ");
    text.append(reason);
    text
}

/// Renders [`process_failed`].
pub fn process_failed_text() -> (text: String)
    ensures
        text@ == process_failed(),
{
    String::from_str("Process failed")
}

} // verus!
