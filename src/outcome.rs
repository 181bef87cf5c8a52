//! Reporting how a run of the command ended.
use vstd::prelude::*;

verus! {

/// The decimal digit for `d`, where `d < 10`.
pub open spec fn digit_char(d: nat) -> char {
    if d == 0 {
        '0'
    } else if d == 1 {
        '1'
    } else if d == 2 {
        '2'
    } else if d == 3 {
        '3'
    } else if d == 4 {
        '4'
    } else if d == 5 {
        '5'
    } else if d == 6 {
        '6'
    } else if d == 7 {
        '7'
    } else if d == 8 {
        '8'
    } else {
        '9'
    }
}

/// The decimal digits of `n`, most significant first, without leading zeros.
pub open spec fn decimal(n: nat) -> Seq<char>
    decreases n,
{
    if n < 10 {
        seq![digit_char(n)]
    } else {
        decimal(n / 10).push(digit_char(n % 10))
    }
}

/// `n` in decimal, with a leading `-` when negative.
pub open spec fn signed_decimal(n: int) -> Seq<char> {
    if n < 0 {
        seq!['-'] + decimal((-n) as nat)
    } else {
        decimal(n as nat)
    }
}

fn digit_text(d: u64) -> (r: &'static str)
    requires
        d < 10,
    ensures
        r@ == seq![digit_char(d as nat)],
{
    proof {
        reveal_strlit("0");
        reveal_strlit("1");
        reveal_strlit("2");
        reveal_strlit("3");
        reveal_strlit("4");
        reveal_strlit("5");
        reveal_strlit("6");
        reveal_strlit("7");
        reveal_strlit("8");
        reveal_strlit("9");
    }
    let r = if d == 0 {
        "0"
    } else if d == 1 {
        "1"
    } else if d == 2 {
        "2"
    } else if d == 3 {
        "3"
    } else if d == 4 {
        "4"
    } else if d == 5 {
        "5"
    } else if d == 6 {
        "6"
    } else if d == 7 {
        "7"
    } else if d == 8 {
        "8"
    } else {
        "9"
    };
    assert(r@ =~= seq![digit_char(d as nat)]);
    r
}

/// The decimal text of `n`.
pub fn decimal_text(n: u64) -> (r: String)
    ensures
        r@ == decimal(n as nat),
{
    let mut s = digit_text(n % 10).to_owned();
    let mut m: u64 = n / 10;
    while m > 0
        invariant
            m > 0 ==> decimal(n as nat) == decimal(m as nat) + s@,
            m == 0 ==> decimal(n as nat) == s@,
        decreases m,
    {
        let ghost old_s = s@;
        s = digit_text(m % 10).to_owned().concat(s.as_str());
        if m < 10 {
            assert(decimal(m as nat) + old_s =~= s@);
        } else {
            assert(decimal(m as nat) + old_s =~= decimal((m / 10) as nat) + s@);
        }
        m = m / 10;
    }
    s
}

/// The decimal text of `n`, with a leading `-` when negative.
pub fn signed_decimal_text(n: i32) -> (r: String)
    ensures
        r@ == signed_decimal(n as int),
{
    if n < 0 {
        let magnitude: i64 = -(n as i64);
        let r = String::from_str("-").concat(decimal_text(magnitude as u64).as_str());
        proof {
            reveal_strlit("-");
        }
        assert(r@ =~= signed_decimal(n as int));
        r
    } else {
        decimal_text(n as u64)
    }
}

/// How a run of the command ended.
#[derive(Debug, Clone, Copy, PartialEq, Eq, Structural)]
pub enum RunOutcome {
    /// The process exited with success.
    Succeeded,
    /// The process failed; holds its exit code, 0 where it had none.
    Failed(i32),
}

impl RunOutcome {
    /// The outcome of a process that ended with the given success flag and exit code.
    pub fn from_status(success: bool, code: Option<i32>) -> (r: RunOutcome)
        ensures
            success ==> r == RunOutcome::Succeeded,
            !success ==> r == RunOutcome::Failed(
                match code {
                    Some(c) => c,
                    None => 0,
                },
            ),
    {
        if success {
            RunOutcome::Succeeded
        } else {
            match code {
                Some(c) => RunOutcome::Failed(c),
                None => RunOutcome::Failed(0),
            }
        }
    }

    /// The line that reports the outcome.
    pub fn report(&self) -> (r: String)
        ensures
            *self == RunOutcome::Succeeded ==> r@ == "Command executed successfully!"@,
            self is Failed ==> r@ == "Command failed with exit code: "@ + signed_decimal(
                self->Failed_0 as int,
            ),
    {
        match self {
            RunOutcome::Succeeded => String::from_str("Command executed successfully!"),
            RunOutcome::Failed(code) => String::from_str("Command failed with exit code: ").concat(
                signed_decimal_text(*code).as_str(),
            ),
        }
    }
}

} // verus!
