//! The sensor's clock: a date and time written as `YYYY/MM/DDTHH:MM:SSz`,
//! always in UTC.

use crate::error::SensorError;
use std::fmt::Write;
use vstd::prelude::*;

verus! {

/// The pattern, in chrono's notation, that the sensor's clock follows once
/// the trailing `z` is gone.
pub const TIMESTAMP_PATTERN: &'static str = "%Y/%m/%dT%H:%M:%S";

/// An instant in UTC.
#[derive(Clone, Copy, Debug, PartialEq, Eq, Structural)]
pub struct Timestamp {
    /// Whole non-leap seconds since 1970-01-01T00:00:00Z.
    pub seconds: i64,
    /// Nanoseconds since that second began; a leap second counts from
    /// 1,000,000,000.
    pub nanos: u32,
}

/// `chrono::ParseError`, why a text is no date and time. It is only told
/// apart from success.
#[verifier::external_type_specification]
#[verifier::external_body]
pub struct ExParseError(chrono::ParseError);

/// The date and time that chrono reads from `text` under `pattern`, taken as
/// UTC: seconds since the epoch and nanoseconds within the second. `None`
/// where chrono rejects the text.
pub uninterp spec fn parsed_instant(text: Seq<char>, pattern: Seq<char>) -> Option<(i64, u32)>;

/// The text that chrono writes for the instant under `pattern`. `None` where
/// chrono has no date for the instant or cannot write it.
pub uninterp spec fn formatted_instant(seconds: i64, nanos: u32, pattern: Seq<char>) -> Option<
    Seq<char>,
>;

/// `chrono::NaiveDateTime::parse_from_str`, its result read as UTC through
/// `and_utc`, `timestamp` and `timestamp_subsec_nanos`. The contract only
/// names what chrono returns; it claims that the same text and pattern always
/// give the same answer, and nothing about which texts parse.
#[verifier::external_body]
fn parse_instant(text: &str, pattern: &str) -> (r: Result<Timestamp, chrono::ParseError>)
    ensures
        match r {
            Ok(t) => parsed_instant(text@, pattern@) == Some((t.seconds, t.nanos)),
            Err(_) => parsed_instant(text@, pattern@).is_none(),
        },
{
    let naive = chrono::NaiveDateTime::parse_from_str(text, pattern)?;
    let utc = naive.and_utc();
    Ok(Timestamp { seconds: utc.timestamp(), nanos: utc.timestamp_subsec_nanos() })
}

/// `chrono::DateTime::from_timestamp`, then `format`, written into a fresh
/// string. The contract only names what chrono writes; it claims that the
/// same instant and pattern always give the same text, or always none.
#[verifier::external_body]
fn format_instant(seconds: i64, nanos: u32, pattern: &str) -> (r: Option<String>)
    ensures
        match r {
            Some(text) => formatted_instant(seconds, nanos, pattern@) == Some(text@),
            None => formatted_instant(seconds, nanos, pattern@).is_none(),
        },
{
    let utc = chrono::DateTime::from_timestamp(seconds, nanos)?;
    let mut text = String::new();
    write!(text, "{}", utc.format(pattern)).ok()?;
    Some(text)
}

/// `text` without its last character, if that is a `z`.
pub open spec fn without_zone_suffix(text: Seq<char>) -> Seq<char> {
    if text.len() > 0 && text.last() == 'z' {
        text.drop_last()
    } else {
        text
    }
}

/// How many characters a date and time has on the wire, the `z` not
/// counted.
pub const CLOCK_LENGTH: usize = 19;

/// Whether `c` is a decimal digit.
pub open spec fn is_digit(c: char) -> bool {
    '0' <= c && c <= '9'
}

/// Whether `c` may stand at place `i` of `YYYY/MM/DDTHH:MM:SS`: a `/` at 4
/// and 7, a `T` at 10, a `:` at 13 and 16, a decimal digit anywhere else.
pub open spec fn clock_shape_at(i: int, c: char) -> bool {
    if i == 4 || i == 7 {
        c == '/'
    } else if i == 10 {
        c == 'T'
    } else if i == 13 || i == 16 {
        c == ':'
    } else {
        is_digit(c)
    }
}

/// Whether `body` has the exact shape `YYYY/MM/DDTHH:MM:SS`: nineteen
/// characters, each separator at its place, and a decimal digit at every
/// other.
pub open spec fn has_clock_shape(body: Seq<char>) -> bool {
    body.len() == CLOCK_LENGTH && forall|i: int|
        0 <= i < CLOCK_LENGTH ==> clock_shape_at(i, #[trigger] body[i])
}

/// What the sensor's clock text stands for. Exactly one trailing `z` is
/// dropped if there is one. What is left must have the exact shape
/// `YYYY/MM/DDTHH:MM:SS`, and chrono must read it as a date and time under
/// the pattern; it is then that date and time in UTC. Any other text is
/// malformed.
pub open spec fn timestamp_of(text: Seq<char>) -> Result<Timestamp, SensorError> {
    let body = without_zone_suffix(text);
    if !has_clock_shape(body) {
        Err(SensorError::MalformedTimestamp)
    } else {
        match parsed_instant(body, TIMESTAMP_PATTERN@) {
            Some((seconds, nanos)) => Ok(Timestamp { seconds, nanos }),
            None => Err(SensorError::MalformedTimestamp),
        }
    }
}

/// How an instant is written on the wire: chrono's text for it under the
/// pattern, followed by `z`. An instant whose text has not the shape of the
/// wire, such as one in a year of five digits, has no wire text.
pub open spec fn wire_timestamp(t: Timestamp) -> Option<Seq<char>> {
    match formatted_instant(t.seconds, t.nanos, TIMESTAMP_PATTERN@) {
        Some(text) => if has_clock_shape(text) {
            Some(text.push('z'))
        } else {
            None
        },
        None => None,
    }
}

/// A text with a separator out of place, a place that is neither its
/// separator nor a digit, or a length other than nineteen once the `z` is
/// gone, is malformed, whatever chrono would read from it: a hyphen in the
/// date, a blank for the `T`, a field of one digit, a sign or a blank in
/// front.
pub proof fn lemma_misshapen_clock_is_malformed(text: Seq<char>, i: int)
    requires
        ({
            let body = without_zone_suffix(text);
            body.len() != CLOCK_LENGTH || (0 <= i < CLOCK_LENGTH && !clock_shape_at(i, body[i]))
        }),
    ensures
        timestamp_of(text) == Err::<Timestamp, _>(SensorError::MalformedTimestamp),
{
}

/// Whether `c` may stand at place `i` of a date and time.
fn fits_clock_at(i: usize, c: char) -> (r: bool)
    ensures
        r == clock_shape_at(i as int, c),
{
    if i == 4 || i == 7 {
        c == '/'
    } else if i == 10 {
        c == 'T'
    } else if i == 13 || i == 16 {
        c == ':'
    } else {
        '0' <= c && c <= '9'
    }
}

/// Whether `body` has the exact shape `YYYY/MM/DDTHH:MM:SS`.
pub fn is_clock_shaped(body: &str) -> (r: bool)
    ensures
        r == has_clock_shape(body@),
{
    if body.unicode_len() != CLOCK_LENGTH {
        return false;
    }
    let mut i: usize = 0;
    while i < CLOCK_LENGTH
        invariant
            body@.len() == CLOCK_LENGTH,
            i <= CLOCK_LENGTH,
            forall|j: int| 0 <= j < i ==> clock_shape_at(j, #[trigger] body@[j]),
        decreases CLOCK_LENGTH - i,
    {
        if !fits_clock_at(i, body.get_char(i)) {
            return false;
        }
        i += 1;
    }
    true
}

/// The part of `text` that is matched against the pattern.
pub fn strip_zone_suffix(text: &str) -> (body: &str)
    ensures
        body@ == without_zone_suffix(text@),
{
    let len: usize = text.unicode_len();
    if len > 0 && text.get_char(len - 1) == 'z' {
        text.substring_char(0, len - 1)
    } else {
        text
    }
}

/// Decodes the sensor's clock. Fails with `MalformedTimestamp` exactly when
/// the text, less one trailing `z`, has not the exact shape
/// `YYYY/MM/DDTHH:MM:SS`, or has it and chrono still reads no date and time
/// from it, as of a thirteenth month.
pub fn parse_nonstandard_datetime(text: &str) -> (r: Result<Timestamp, SensorError>)
    ensures
        r == timestamp_of(text@),
{
    let body: &str = strip_zone_suffix(text);
    if !is_clock_shaped(body) {
        return Err(SensorError::MalformedTimestamp);
    }
    match parse_instant(body, TIMESTAMP_PATTERN) {
        Ok(t) => Ok(t),
        Err(_) => Err(SensorError::MalformedTimestamp),
    }
}

impl Timestamp {
    /// Writes the instant as the sensor would. `None` exactly when chrono
    /// has no text for it, or one that has not the shape of the wire.
    pub fn to_wire(&self) -> (r: Option<String>)
        ensures
            match r {
                Some(text) => wire_timestamp(*self) == Some(text@),
                None => wire_timestamp(*self).is_none(),
            },
    {
        match format_instant(self.seconds, self.nanos, TIMESTAMP_PATTERN) {
            Some(text) => {
                if !is_clock_shaped(text.as_str()) {
                    return None;
                }
                let ghost body = text@;
                let wire = text.concat("z");
                proof {
                    reveal_strlit("z");
                    assert(wire@ =~= body.push('z'));
                }
                Some(wire)
            },
            None => None,
        }
    }
}

} // verus!
