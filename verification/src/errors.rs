//! Typed, owned error values for every way the access layer can fail.
//!
//! Every failure a caller can observe is one of these values, carrying a
//! human-readable message; no engine-specific context is needed to
//! understand them.

use vstd::prelude::*;
use vstd::string::StringExecFns;

use crate::kind::{kind_name, kind_name_lower, spec_kind_name, spec_kind_name_lower, ValueKind};

verus! {

/// Process-wide initialization failed. Fatal for the process: all later
/// engine use re-surfaces the cached failure, never retries.
#[derive(Debug)]
pub struct InitError {
    pub message: String,
}

impl InitError {
    /// The human-readable message of this failure.
    pub fn message(&self) -> (m: &str)
        ensures
            m@ == self.message@,
    {
        self.message.as_str()
    }
}

/// A single boundary call reported failure through its error channel.
/// Recoverable at the call site: the evaluation context stays usable for
/// unrelated subsequent calls.
#[derive(Debug)]
pub struct EngineError {
    pub message: String,
}

impl EngineError {
    /// The human-readable message the engine reported.
    pub fn message(&self) -> (m: &str)
        ensures
            m@ == self.message@,
    {
        self.message.as_str()
    }
}

/// The decimal rendering of a single digit.
pub open spec fn spec_digit(d: nat) -> Seq<char> {
    if d == 0 {
        "0"@
    } else if d == 1 {
        "1"@
    } else if d == 2 {
        "2"@
    } else if d == 3 {
        "3"@
    } else if d == 4 {
        "4"@
    } else if d == 5 {
        "5"@
    } else if d == 6 {
        "6"@
    } else if d == 7 {
        "7"@
    } else if d == 8 {
        "8"@
    } else {
        "9"@
    }
}

/// The decimal rendering of a natural number, most significant digit
/// first, without leading zeroes (a single zero for 0).
pub open spec fn spec_decimal(n: nat) -> Seq<char>
    decreases n,
{
    if n < 10 {
        spec_digit(n)
    } else {
        spec_decimal(n / 10) + spec_digit(n % 10)
    }
}

/// The decimal rendering of a signed number: a minus sign before the
/// magnitude for negative values.
pub open spec fn spec_signed_decimal(c: int) -> Seq<char> {
    if c < 0 {
        "-"@ + spec_decimal((-c) as nat)
    } else {
        spec_decimal(c as nat)
    }
}

fn digit_str(d: u64) -> (s: &'static str)
    requires
        d < 10,
    ensures
        s@ == spec_digit(d as nat),
{
    if d == 0 {
        "0"
    } else if d == 1 {
        "1"
    } else if d == 2 {
        "2"
    } else if d == 3 {
        "3"
    } else if d == 4 {
        "4"
    } else if d == 5 {
        "5"
    } else if d == 6 {
        "6"
    } else if d == 7 {
        "7"
    } else if d == 8 {
        "8"
    } else {
        "9"
    }
}

/// Appends the decimal rendering of `n` to `out`.
pub fn append_decimal(out: &mut String, n: u64)
    ensures
        final(out)@ == old(out)@ + spec_decimal(n as nat),
    decreases n,
{
    if n >= 10 {
        append_decimal(out, n / 10);
        out.append(digit_str(n % 10));
        proof {
            assert((n / 10) as nat == (n as nat) / 10);
            assert((n % 10) as nat == (n as nat) % 10);
            assert(old(out)@ + spec_decimal(n as nat) =~= (old(out)@ + spec_decimal(
                (n as nat) / 10,
            )) + spec_digit((n as nat) % 10));
        }
    } else {
        out.append(digit_str(n));
    }
}

/// The collector's stack-base query failed, with the collector's status
/// code. Fatal for the enclosing registered-thread call: no engine work may
/// proceed on an unregistered thread.
#[derive(Debug)]
pub struct RegistrationError {
    pub code: i32,
}

/// The fixed message of a registration failure:
/// `GC_get_stack_base failed: {code}`.
pub open spec fn spec_registration_message(code: int) -> Seq<char> {
    "GC_get_stack_base failed: "@ + spec_signed_decimal(code)
}

impl RegistrationError {
    /// The human-readable message of this failure.
    pub fn message(&self) -> (m: String)
        ensures
            m@ == spec_registration_message(self.code as int),
    {
        let mut m = String::from_str("GC_get_stack_base failed: ");
        if self.code < 0 {
            m.append("-");
            let mag: u64 = (-(self.code as i64)) as u64;
            proof {
                assert(mag as nat == (-(self.code as int)) as nat);
            }
            append_decimal(&mut m, mag);
            proof {
                assert(m@ =~= spec_registration_message(self.code as int));
            }
        } else {
            append_decimal(&mut m, self.code as u64);
        }
        m
    }
}

/// A typed accessor failed to extract a value.
#[derive(Debug)]
pub enum ExtractionError {
    /// The accessor was used against a value of the wrong concrete kind.
    WrongKind { expected: ValueKind, actual: ValueKind },
    /// The engine handed back string contents that are not valid UTF-8.
    InvalidEncoding,
    /// The boundary call consulted by the accessor reported failure.
    Engine(EngineError),
}

/// The fixed message format of a wrong-kind failure:
/// `expected a {expected}, but got a {actual}`.
pub open spec fn spec_wrong_kind_message(expected: ValueKind, actual: ValueKind) -> Seq<char> {
    "expected a "@ + spec_kind_name_lower(expected) + ", but got a "@ + spec_kind_name(actual)
}

/// The message carried by an invalid-encoding failure.
pub open spec fn spec_invalid_encoding_message() -> Seq<char> {
    "Nix string is not valid UTF-8"@
}

/// The message of an extraction failure.
pub open spec fn spec_extraction_message(e: ExtractionError) -> Seq<char> {
    match e {
        ExtractionError::WrongKind { expected, actual } => spec_wrong_kind_message(
            expected,
            actual,
        ),
        ExtractionError::InvalidEncoding => spec_invalid_encoding_message(),
        ExtractionError::Engine(inner) => inner.message@,
    }
}

impl ExtractionError {
    /// The human-readable message of this failure.
    pub fn message(&self) -> (m: String)
        ensures
            m@ == spec_extraction_message(*self),
    {
        match self {
            ExtractionError::WrongKind { expected, actual } => {
                let mut m = String::from_str("expected a ");
                m.append(kind_name_lower(*expected));
                m.append(", but got a ");
                m.append(kind_name(*actual));
                m
            },
            ExtractionError::InvalidEncoding => String::from_str("Nix string is not valid UTF-8"),
            ExtractionError::Engine(inner) => {
                let mut m = String::new();
                m.append(inner.message.as_str());
                m
            },
        }
    }
}

} // verus!
