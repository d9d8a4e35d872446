//! Diagnostic text: decimal notation for PIDs, the error messages surfaced to
//! the caller of a start request, and the log lines announcing spawn and
//! termination events.

use vstd::prelude::*;

use crate::supervisor::StartError;

verus! {

/// The decimal digit character for `d` (`d < 10`).
pub open spec fn digit_char(d: nat) -> char
    recommends
        d < 10,
{
    if d == 0 {
        '0'
    } else if d == 1 {
        '1'
    } else if d == 2 {
        '2'
    } else if d == 3 {
        '3'
    } else if d == 4 {
        '4'
    } else if d == 5 {
        '5'
    } else if d == 6 {
        '6'
    } else if d == 7 {
        '7'
    } else if d == 8 {
        '8'
    } else {
        '9'
    }
}

/// The decimal notation of `n`: most significant digit first, no sign, no
/// leading zeros (a single `'0'` for zero).
pub open spec fn decimal_digits(n: nat) -> Seq<char>
    decreases n,
{
    if n < 10 {
        seq![digit_char(n)]
    } else {
        decimal_digits(n / 10).push(digit_char(n % 10))
    }
}

/// The one-character string for the digit `d`.
fn digit_str(d: u32) -> (s: &'static str)
    requires
        d < 10,
    ensures
        s@ == seq![digit_char(d as nat)],
{
    let s: &'static str = match d {
        0 => "0",
        1 => "1",
        2 => "2",
        3 => "3",
        4 => "4",
        5 => "5",
        6 => "6",
        7 => "7",
        8 => "8",
        _ => "9",
    };
    proof {
        reveal_strlit("0");
        reveal_strlit("1");
        reveal_strlit("2");
        reveal_strlit("3");
        reveal_strlit("4");
        reveal_strlit("5");
        reveal_strlit("6");
        reveal_strlit("7");
        reveal_strlit("8");
        reveal_strlit("9");
        assert(s@ =~= seq![digit_char(d as nat)]);
    }
    s
}

/// The decimal notation of `n`, as a string.
pub fn u32_decimal(n: u32) -> (s: String)
    ensures
        s@ == decimal_digits(n as nat),
    decreases n,
{
    if n < 10 {
        String::from_str(digit_str(n))
    } else {
        proof {
            assert(n / 10 < n) by (nonlinear_arith)
                requires
                    n >= 10,
            ;
        }
        let q = u32_decimal(n / 10);
        let s = q.concat(digit_str(n % 10));
        proof {
            assert(s@ =~= decimal_digits(n as nat));
        }
        s
    }
}

/// The numeric value of a decimal digit character (ten for any other
/// character, so that no digit is mistaken for one).
pub open spec fn digit_value(c: char) -> nat {
    if c == '0' {
        0
    } else if c == '1' {
        1
    } else if c == '2' {
        2
    } else if c == '3' {
        3
    } else if c == '4' {
        4
    } else if c == '5' {
        5
    } else if c == '6' {
        6
    } else if c == '7' {
        7
    } else if c == '8' {
        8
    } else if c == '9' {
        9
    } else {
        10
    }
}

/// The number a digit sequence denotes, most significant digit first.
pub open spec fn digits_value(s: Seq<char>) -> nat
    decreases s.len(),
{
    if s.len() == 0 {
        0
    } else {
        digits_value(s.drop_last()) * 10 + digit_value(s.last())
    }
}

/// The decimal notation is faithful: reading `decimal_digits(n)` back as a
/// number yields `n` again.
pub proof fn lemma_decimal_round_trip(n: nat)
    ensures
        digits_value(decimal_digits(n)) == n,
    decreases n,
{
    reveal_with_fuel(digits_value, 2);
    if n < 10 {
        assert(decimal_digits(n).drop_last() =~= Seq::<char>::empty());
    } else {
        lemma_decimal_round_trip(n / 10);
        assert(decimal_digits(n).drop_last() =~= decimal_digits(n / 10));
        vstd::arithmetic::div_mod::lemma_fundamental_div_mod(n as int, 10);
    }
}

/// Distinct PIDs render to distinct decimal strings, so the error messages
/// and log lines that carry a PID identify the child unambiguously.
pub proof fn lemma_decimal_injective(a: nat, b: nat)
    requires
        decimal_digits(a) == decimal_digits(b),
    ensures
        a == b,
{
    lemma_decimal_round_trip(a);
    lemma_decimal_round_trip(b);
}

/// The message shown for each start error, as the host reports it to the
/// front-end.
pub open spec fn spec_error_message(e: StartError) -> Seq<char> {
    match e {
        StartError::Lock => "Failed to acquire lock on sidecar process"@,
        StartError::AlreadyRunning(pid) => "Sidecar is already running (PID: "@
            + decimal_digits(pid as nat) + ")"@,
        StartError::Spawn(msg) => "Failed to start sidecar: "@ + msg@,
    }
}

impl StartError {
    /// The descriptive string surfaced synchronously to the caller.
    pub fn message(&self) -> (s: String)
        ensures
            s@ == spec_error_message(*self),
    {
        match self {
            StartError::Lock => String::from_str("Failed to acquire lock on sidecar process"),
            StartError::AlreadyRunning(pid) => {
                let s = String::from_str("Sidecar is already running (PID: ");
                let s = s.concat(u32_decimal(*pid).as_str());
                let s = s.concat(")");
                proof {
                    assert(s@ =~= spec_error_message(*self));
                }
                s
            },
            StartError::Spawn(msg) => {
                let s = String::from_str("Failed to start sidecar: ");
                let s = s.concat(msg.as_str());
                proof {
                    assert(s@ =~= spec_error_message(*self));
                }
                s
            },
        }
    }
}

/// The log line announcing a successful spawn.
pub open spec fn spec_started_log(pid: u32) -> Seq<char> {
    "[LibreSVIP] Started sidecar (PID: "@ + decimal_digits(pid as nat) + ")"@
}

/// Build the log line announcing a successful spawn, with the new child's PID.
pub fn started_log(pid: u32) -> (s: String)
    ensures
        s@ == spec_started_log(pid),
{
    let s = String::from_str("[LibreSVIP] Started sidecar (PID: ");
    let s = s.concat(u32_decimal(pid).as_str());
    let s = s.concat(")");
    proof {
        assert(s@ =~= spec_started_log(pid));
    }
    s
}

/// The log line announcing that the tracked child is being stopped.
pub open spec fn spec_stopping_log(pid: u32) -> Seq<char> {
    "[LibreSVIP] Stopping sidecar (PID: "@ + decimal_digits(pid as nat) + ")"@
}

/// Build the log line announcing that the tracked child is being stopped.
pub fn stopping_log(pid: u32) -> (s: String)
    ensures
        s@ == spec_stopping_log(pid),
{
    let s = String::from_str("[LibreSVIP] Stopping sidecar (PID: ");
    let s = s.concat(u32_decimal(pid).as_str());
    let s = s.concat(")");
    proof {
        assert(s@ =~= spec_stopping_log(pid));
    }
    s
}

} // verus!
