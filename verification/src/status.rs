use vstd::prelude::*;
use vstd::string::StringExecFns;

verus! {

/// Termination status of a child process: either a normal exit with a
/// numeric code, or an abnormal termination (e.g. by signal) without one.
#[derive(Clone, Copy, Debug)]
pub enum TermStatus {
    Exited(i32),
    Signaled,
}

impl TermStatus {
    /// A status counts as success exactly when it is a normal exit with code 0.
    pub open spec fn is_success(self) -> bool {
        self matches TermStatus::Exited(c) && c == 0
    }

    pub fn success(&self) -> (r: bool)
        ensures
            r == self.is_success(),
    {
        match self {
            TermStatus::Exited(c) => *c == 0,
            TermStatus::Signaled => false,
        }
    }
}

/// The character for one decimal digit.
pub open spec fn dec_digit(d: int) -> char {
    if d == 0 {
        '0'
    } else if d == 1 {
        '1'
    } else if d == 2 {
        '2'
    } else if d == 3 {
        '3'
    } else if d == 4 {
        '4'
    } else if d == 5 {
        '5'
    } else if d == 6 {
        '6'
    } else if d == 7 {
        '7'
    } else if d == 8 {
        '8'
    } else {
        '9'
    }
}

/// Decimal rendering of a natural number, most significant digit first,
/// without leading zeros (except for the number 0 itself).
pub open spec fn dec_nat(n: nat) -> Seq<char>
    decreases n,
{
    if n < 10 {
        seq![dec_digit(n as int)]
    } else {
        dec_nat(n / 10).push(dec_digit((n % 10) as int))
    }
}

/// Decimal rendering of an integer: a minus sign followed by the digits
/// when negative, the digits alone otherwise.
pub open spec fn dec_int(n: int) -> Seq<char> {
    if n < 0 {
        seq!['-'] + dec_nat((-n) as nat)
    } else {
        dec_nat(n as nat)
    }
}

fn digit_str(d: u64) -> (r: &'static str)
    requires
        d < 10,
    ensures
        r@ == seq![dec_digit(d as int)],
{
    if d == 0 {
        proof { reveal_strlit("0"); }
        "0"
    } else if d == 1 {
        proof { reveal_strlit("1"); }
        "1"
    } else if d == 2 {
        proof { reveal_strlit("2"); }
        "2"
    } else if d == 3 {
        proof { reveal_strlit("3"); }
        "3"
    } else if d == 4 {
        proof { reveal_strlit("4"); }
        "4"
    } else if d == 5 {
        proof { reveal_strlit("5"); }
        "5"
    } else if d == 6 {
        proof { reveal_strlit("6"); }
        "6"
    } else if d == 7 {
        proof { reveal_strlit("7"); }
        "7"
    } else if d == 8 {
        proof { reveal_strlit("8"); }
        "8"
    } else {
        proof { reveal_strlit("9"); }
        "9"
    }
}

/// Decimal rendering of an unsigned number as a fresh string.
pub fn u64_decimal(n: u64) -> (r: String)
    ensures
        r@ == dec_nat(n as nat),
    decreases n,
{
    if n < 10 {
        digit_str(n).to_owned()
    } else {
        let mut s = u64_decimal(n / 10);
        s.append(digit_str(n % 10));
        proof {
            assert(s@ =~= dec_nat(n as nat));
        }
        s
    }
}

/// Decimal rendering of a signed number as a fresh string.
pub fn i32_decimal(n: i32) -> (r: String)
    ensures
        r@ == dec_int(n as int),
{
    if n >= 0 {
        u64_decimal(n as u64)
    } else {
        let m: u64 = (-(n as i64)) as u64;
        let mut s = String::from_str("-");
        s.append(u64_decimal(m).as_str());
        proof {
            reveal_strlit("-");
            assert(s@ =~= dec_int(n as int));
        }
        s
    }
}

/// The message reported when a child process terminates without success:
/// its exit code when it has one, a generic message otherwise.
pub open spec fn status_fail_msg(st: TermStatus) -> Seq<char> {
    match st {
        TermStatus::Exited(c) => "Error: Cargo returned with exit code "@ + dec_int(c as int),
        TermStatus::Signaled => "Error: Cargo returned with an error"@,
    }
}

pub fn status_fail_message(st: &TermStatus) -> (r: String)
    ensures
        r@ == status_fail_msg(*st),
{
    match st {
        TermStatus::Exited(c) => {
            let mut s = String::from_str("Error: Cargo returned with exit code ");
            s.append(i32_decimal(*c).as_str());
            s
        },
        TermStatus::Signaled => String::from_str("Error: Cargo returned with an error"),
    }
}

/// Turns a termination status into the pipeline's uniform failure shape:
/// success passes through, anything else carries the report message.
pub fn resolve_status(st: &TermStatus) -> (r: Result<(), String>)
    ensures
        r is Ok <==> st.is_success(),
        r matches Err(m) ==> m@ == status_fail_msg(*st),
{
    if st.success() {
        Ok(())
    } else {
        Err(status_fail_message(st))
    }
}

/// An error line as the pipeline reports it: a fixed prefix, then the cause.
pub fn error_line(cause: &str) -> (r: String)
    ensures
        r@ == "Error: "@ + cause@,
{
    let mut s = String::from_str("Error: ");
    s.append(cause);
    s
}

} // verus!
