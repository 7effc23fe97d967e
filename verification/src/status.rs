//! The four states that a status field of the sensor can report.

use crate::error::SensorError;
use vstd::prelude::*;

verus! {

/// The state of one sub-system of the sensor, sent on the wire as `0..=3`.
#[derive(Clone, Copy, Debug, PartialEq, Eq, Structural)]
pub enum Status {
    NotConfigured,
    InProgress,
    Success,
    Error,
}

/// The state that the integer `n` stands for, if it stands for one.
pub open spec fn status_of(n: int) -> Option<Status> {
    if n == 0 {
        Some(Status::NotConfigured)
    } else if n == 1 {
        Some(Status::InProgress)
    } else if n == 2 {
        Some(Status::Success)
    } else if n == 3 {
        Some(Status::Error)
    } else {
        None
    }
}

/// What decoding a mandatory status field from `number` gives.
pub open spec fn status_field(number: u64) -> Result<Status, SensorError> {
    match status_of(number as int) {
        Some(status) => Ok(status),
        None => Err(SensorError::UnrecognizedStatusCode(number)),
    }
}

/// What decoding an optional status field gives: nothing for nothing, and
/// the rule of the mandatory field for a number.
pub open spec fn optional_status_field(number: Option<u64>) -> Result<Option<Status>, SensorError> {
    match number {
        None => Ok(None),
        Some(n) => match status_of(n as int) {
            Some(status) => Ok(Some(status)),
            None => Err(SensorError::UnrecognizedStatusCode(n)),
        },
    }
}

impl Status {
    /// The integer that stands for this state on the wire.
    pub open spec fn spec_code(self) -> u8 {
        match self {
            Status::NotConfigured => 0,
            Status::InProgress => 1,
            Status::Success => 2,
            Status::Error => 3,
        }
    }

    /// The integer that stands for this state on the wire.
    #[verifier::when_used_as_spec(spec_code)]
    pub fn code(self) -> (n: u8)
        ensures
            n == self.spec_code(),
    {
        match self {
            Status::NotConfigured => 0,
            Status::InProgress => 1,
            Status::Success => 2,
            Status::Error => 3,
        }
    }

    /// The state for `status_number`, or `None` when it is not in `0..=3`.
    pub fn from_u8(status_number: u8) -> (status: Option<Status>)
        ensures
            status == status_of(status_number as int),
    {
        match status_number {
            0 => Some(Status::NotConfigured),
            1 => Some(Status::InProgress),
            2 => Some(Status::Success),
            3 => Some(Status::Error),
            _ => None,
        }
    }
}

/// Decodes a mandatory status field. Fails with `UnrecognizedStatusCode`
/// exactly when `number` is above 3.
pub fn parse_status(number: u64) -> (r: Result<Status, SensorError>)
    ensures
        r == status_field(number),
{
    if number <= 3 {
        let narrow: u8 = number as u8;
        match Status::from_u8(narrow) {
            Some(status) => Ok(status),
            None => Err(SensorError::UnrecognizedStatusCode(number)),
        }
    } else {
        Err(SensorError::UnrecognizedStatusCode(number))
    }
}

/// Decodes an optional status field: an absent number is no status and no
/// error, a present one follows `parse_status`.
pub fn parse_optional_status(opt: Option<u64>) -> (r: Result<Option<Status>, SensorError>)
    ensures
        r == optional_status_field(opt),
{
    match opt {
        Some(number) => match parse_status(number) {
            Ok(status) => Ok(Some(status)),
            Err(e) => Err(e),
        },
        None => Ok(None),
    }
}

/// Every state comes back from its own wire integer, and an integer that
/// stands for a state is that state's wire integer.
pub proof fn lemma_status_code_round_trip(status: Status, n: int)
    ensures
        status_of(status.spec_code() as int) == Some(status),
        status_of(n) == Some(status) ==> n == status.spec_code(),
        status_of(n) is Some <==> 0 <= n <= 3,
{
}

} // verus!
