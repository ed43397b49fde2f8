use vstd::prelude::*;

verus! {

/// Closed set of outcomes that every boundary operation reports.
#[derive(Debug, Clone, Copy, PartialEq, Eq, Structural)]
pub enum LeansigResult {
    /// Operation succeeded.
    Success,
    /// A required pointer or handle argument was missing.
    NullPointer,
    /// Buffer length inconsistent with the expected schema.
    InvalidLength,
    /// Signing or key generation could not complete.
    SigningFailed,
    /// Bytes did not parse as a canonical key or signature encoding.
    DeserializationFailed,
    /// A well-formed signature did not validate.
    VerificationFailed,
    /// The epoch lies outside the prepared interval.
    EpochNotPrepared,
}

/// The stable numeric code of each outcome.
pub open spec fn code_of(r: LeansigResult) -> u32 {
    match r {
        LeansigResult::Success => 0,
        LeansigResult::NullPointer => 1,
        LeansigResult::InvalidLength => 2,
        LeansigResult::SigningFailed => 3,
        LeansigResult::DeserializationFailed => 4,
        LeansigResult::VerificationFailed => 5,
        LeansigResult::EpochNotPrepared => 6,
    }
}

impl LeansigResult {
    /// The numeric code reported across the boundary.
    pub fn code(&self) -> (c: u32)
        ensures
            c == code_of(*self),
            c <= 6,
    {
        match self {
            LeansigResult::Success => 0,
            LeansigResult::NullPointer => 1,
            LeansigResult::InvalidLength => 2,
            LeansigResult::SigningFailed => 3,
            LeansigResult::DeserializationFailed => 4,
            LeansigResult::VerificationFailed => 5,
            LeansigResult::EpochNotPrepared => 6,
        }
    }

    /// The outcome whose code is `c`, if any.
    pub fn from_code(c: u32) -> (r: Option<LeansigResult>)
        ensures
            r is Some <==> c <= 6,
            r matches Some(v) ==> code_of(v) == c,
    {
        match c {
            0 => Some(LeansigResult::Success),
            1 => Some(LeansigResult::NullPointer),
            2 => Some(LeansigResult::InvalidLength),
            3 => Some(LeansigResult::SigningFailed),
            4 => Some(LeansigResult::DeserializationFailed),
            5 => Some(LeansigResult::VerificationFailed),
            6 => Some(LeansigResult::EpochNotPrepared),
            _ => None,
        }
    }

    /// Whether this outcome is success.
    pub fn is_ok(&self) -> (b: bool)
        ensures
            b <==> *self == LeansigResult::Success,
    {
        matches!(self, LeansigResult::Success)
    }
}

/// Distinct outcomes have distinct codes, and decoding a code gives back the
/// outcome it came from.
pub proof fn lemma_code_round_trip(a: LeansigResult, b: LeansigResult)
    ensures
        code_of(a) == code_of(b) ==> a == b,
        code_of(a) <= 6,
{
}

} // verus!
