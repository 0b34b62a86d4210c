//! Error type for the linear-algebra engine.

use vstd::prelude::*;
use vstd::string::StringExecFns;

verus! {

/// The character for a single decimal digit.
pub open spec fn digit_char(d: nat) -> char
    recommends
        d < 10,
{
    if d == 0 {
        '0'
    } else if d == 1 {
        '1'
    } else if d == 2 {
        '2'
    } else if d == 3 {
        '3'
    } else if d == 4 {
        '4'
    } else if d == 5 {
        '5'
    } else if d == 6 {
        '6'
    } else if d == 7 {
        '7'
    } else if d == 8 {
        '8'
    } else {
        '9'
    }
}

/// The decimal rendering of a natural number, most significant digit first.
pub open spec fn dec_seq(n: nat) -> Seq<char>
    decreases n,
{
    if n < 10 {
        seq![digit_char(n)]
    } else {
        dec_seq(n / 10).push(digit_char(n % 10))
    }
}

/// The decimal rendering of an integer: a minus sign before the magnitude
/// for a negative one.
pub open spec fn int_dec_seq(n: int) -> Seq<char> {
    if n < 0 {
        seq!['-'] + dec_seq((-n) as nat)
    } else {
        dec_seq(n as nat)
    }
}

/// Appends the decimal rendering of `n` to `s`.
fn push_decimal(s: &mut String, n: u32)
    ensures
        final(s)@ == old(s)@ + dec_seq(n as nat),
    decreases n,
{
    if n >= 10 {
        push_decimal(s, n / 10);
    }
    let ghost mid = s@;
    let d = n % 10;
    match d {
        0 => s.append("0"),
        1 => s.append("1"),
        2 => s.append("2"),
        3 => s.append("3"),
        4 => s.append("4"),
        5 => s.append("5"),
        6 => s.append("6"),
        7 => s.append("7"),
        8 => s.append("8"),
        _ => s.append("9"),
    }
    proof {
        reveal_strlit("0");
        reveal_strlit("1");
        reveal_strlit("2");
        reveal_strlit("3");
        reveal_strlit("4");
        reveal_strlit("5");
        reveal_strlit("6");
        reveal_strlit("7");
        reveal_strlit("8");
        reveal_strlit("9");
        assert(s@ =~= mid + seq![digit_char((n % 10) as nat)]);
        if n >= 10 {
            assert(s@ =~= old(s)@ + dec_seq((n / 10) as nat).push(digit_char((n % 10) as nat)));
        }
    }
}

/// Every failure the linear-algebra engine can report.
///
/// Shape and handle validation happens host-side, before any device work is
/// attempted, so each variant describes exactly one bookkeeping fault.  The
/// `ClError` variant carries the raw status code of a failed compute-backend
/// call; it is produced only by the unverified device shell.
#[derive(Debug)]
pub enum LAError {
    /// Too many or too few operands were supplied to a kernel.
    ArgumentError,
    /// A data update had the wrong length for the matrix's dimensions.
    DataUpdateError,
    /// A row or column index lay outside the matrix.
    IndexError,
    /// A buffer's contents did not match the recorded matrix dimensions.
    MatrixMismatchError,
    /// A handle referenced a slot whose occupancy disagrees with bookkeeping.
    MemoryError,
    /// A resize requested dimensions with a different element count.
    ResizeError,
    /// An operation that should have produced a value did not.
    ReturnValueError,
    /// Matrix dimensions were not valid for the requested operation.
    SizeError,
    /// The compute backend reported the contained status code.
    ClError(i32),
    /// Any other failure, described in text.
    OtherError(String),
}

impl LAError {
    /// The human-readable description of this error; for a backend failure
    /// it carries the reported status code in decimal.
    pub open spec fn message_spec(&self) -> Seq<char> {
        match self {
            LAError::ArgumentError => "Too many or too few arguments provided"@,
            LAError::DataUpdateError => "New data vector has invalid length for current matrix dimensions"@,
            LAError::IndexError => "Requested index is out of range for matrix dimensions"@,
            LAError::MatrixMismatchError => "Matrix dimensions are not consistent with data vector length"@,
            LAError::MemoryError => "Memory Calculator and Handler have inconsistent memory"@,
            LAError::ResizeError => "Invalid dimensions for matrix resize operation"@,
            LAError::ReturnValueError => "No return value"@,
            LAError::SizeError => "Matrix dimensions not valid for requested operation"@,
            LAError::ClError(code) => "Compute backend call failed with status "@ + int_dec_seq(
                *code as int,
            ),
            LAError::OtherError(text) => text@,
        }
    }

    /// Renders the description of this error.
    pub fn message(&self) -> (r: String)
        ensures
            r@ == self.message_spec(),
    {
        match self {
            LAError::ArgumentError => String::from_str("Too many or too few arguments provided"),
            LAError::DataUpdateError => String::from_str("New data vector has invalid length for current matrix dimensions"),
            LAError::IndexError => String::from_str("Requested index is out of range for matrix dimensions"),
            LAError::MatrixMismatchError => String::from_str("Matrix dimensions are not consistent with data vector length"),
            LAError::MemoryError => String::from_str("Memory Calculator and Handler have inconsistent memory"),
            LAError::ResizeError => String::from_str("Invalid dimensions for matrix resize operation"),
            LAError::ReturnValueError => String::from_str("No return value"),
            LAError::SizeError => String::from_str("Matrix dimensions not valid for requested operation"),
            LAError::ClError(code) => {
                let mut s = String::from_str("Compute backend call failed with status ");
                let magnitude: u32 = if *code >= 0 {
                    *code as u32
                } else {
                    let wide: i64 = *code as i64;
                    (-wide) as u32
                };
                let ghost prefix = s@;
                if *code < 0 {
                    s.append("-");
                    proof {
                        reveal_strlit("-");
                        assert(s@ =~= prefix + seq!['-']);
                    }
                }
                push_decimal(&mut s, magnitude);
                proof {
                    if *code < 0 {
                        assert(s@ =~= prefix + int_dec_seq(*code as int));
                    }
                }
                s
            },
            LAError::OtherError(text) => text.clone(),
        }
    }
}

} // verus!
