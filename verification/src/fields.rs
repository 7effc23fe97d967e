//! Reading one member of a document as one field of the schema: a
//! mandatory field must be there and of the right type, an optional one may
//! be missing or `null`.

use crate::error::{Reason, SensorError, SensorErrorView};
use crate::json::{member, Document, JsonValue, Real};
use crate::status::{parse_optional_status, parse_status, status_of, Status};
use crate::timestamp::{parse_nonstandard_datetime, timestamp_of, Timestamp};
use vstd::prelude::*;

verus! {

/// The members of a document, by key.
pub type Members = Map<Seq<char>, JsonValue>;

/// The error for a mandatory key that the document lacks.
pub open spec fn missing(key: Seq<char>) -> SensorErrorView {
    SensorErrorView::SchemaViolation { field: key, reason: Reason::Missing }
}

/// The error for a key whose value has the wrong type.
pub open spec fn wrong_type(key: Seq<char>) -> SensorErrorView {
    SensorErrorView::SchemaViolation { field: key, reason: Reason::WrongType }
}

/// Whether an optional field counts as not sent: no such key, or `null`.
pub open spec fn is_absent(doc: Members, key: Seq<char>) -> bool {
    match member(doc, key) {
        None => true,
        Some(v) => v is Null,
    }
}

/// The text under `key`, if the key holds a string.
pub open spec fn text_at(doc: Members, key: Seq<char>) -> Option<Seq<char>> {
    match member(doc, key) {
        Some(v) => v.as_text(),
        None => None,
    }
}

/// The integer under `key`, if the key holds one within `u64`.
pub open spec fn unsigned_at(doc: Members, key: Seq<char>) -> Option<u64> {
    match member(doc, key) {
        Some(v) => v.as_unsigned(),
        None => None,
    }
}

/// The integer under `key`, if the key holds one within `u32`.
pub open spec fn count_at(doc: Members, key: Seq<char>) -> Option<u32> {
    match unsigned_at(doc, key) {
        Some(n) => if n <= u32::MAX {
            Some(n as u32)
        } else {
            None
        },
        None => None,
    }
}

/// The integer under `key`, if the key holds one within `i64`.
pub open spec fn signed_at(doc: Members, key: Seq<char>) -> Option<i64> {
    match member(doc, key) {
        Some(v) => v.as_signed(),
        None => None,
    }
}

/// The number under `key` as a real, if the key holds a number.
pub open spec fn real_at(doc: Members, key: Seq<char>) -> Option<Real> {
    match member(doc, key) {
        Some(v) => match v.as_real() {
            Some(bits) => Some(Real { bits }),
            None => None,
        },
        None => None,
    }
}

/// The verdict on a mandatory field, given what its key reads as.
pub open spec fn required<T>(doc: Members, key: Seq<char>, reading: Option<T>) -> Result<
    T,
    SensorErrorView,
> {
    match reading {
        Some(v) => Ok(v),
        None => if doc.contains_key(key) {
            Err(wrong_type(key))
        } else {
            Err(missing(key))
        },
    }
}

/// The verdict on an optional field, given what its key reads as.
pub open spec fn optional<T>(doc: Members, key: Seq<char>, reading: Option<T>) -> Result<
    Option<T>,
    SensorErrorView,
> {
    match reading {
        Some(v) => Ok(Some(v)),
        None => if is_absent(doc, key) {
            Ok(None)
        } else {
            Err(wrong_type(key))
        },
    }
}

pub open spec fn required_text(doc: Members, key: Seq<char>) -> Result<Seq<char>, SensorErrorView> {
    required(doc, key, text_at(doc, key))
}

pub open spec fn optional_text(doc: Members, key: Seq<char>) -> Result<
    Option<Seq<char>>,
    SensorErrorView,
> {
    optional(doc, key, text_at(doc, key))
}

pub open spec fn required_unsigned(doc: Members, key: Seq<char>) -> Result<u64, SensorErrorView> {
    required(doc, key, unsigned_at(doc, key))
}

pub open spec fn optional_unsigned(doc: Members, key: Seq<char>) -> Result<
    Option<u64>,
    SensorErrorView,
> {
    optional(doc, key, unsigned_at(doc, key))
}

pub open spec fn required_count(doc: Members, key: Seq<char>) -> Result<u32, SensorErrorView> {
    required(doc, key, count_at(doc, key))
}

pub open spec fn required_signed(doc: Members, key: Seq<char>) -> Result<i64, SensorErrorView> {
    required(doc, key, signed_at(doc, key))
}

pub open spec fn required_real(doc: Members, key: Seq<char>) -> Result<Real, SensorErrorView> {
    required(doc, key, real_at(doc, key))
}

pub open spec fn optional_real(doc: Members, key: Seq<char>) -> Result<
    Option<Real>,
    SensorErrorView,
> {
    optional(doc, key, real_at(doc, key))
}

/// A mandatory status: an integer within `u64` that stands for a state.
pub open spec fn required_status(doc: Members, key: Seq<char>) -> Result<Status, SensorErrorView> {
    match required_unsigned(doc, key) {
        Ok(n) => match status_of(n as int) {
            Some(status) => Ok(status),
            None => Err(SensorErrorView::UnrecognizedStatusCode(n)),
        },
        Err(e) => Err(e),
    }
}

/// An optional status: not sent, or as the mandatory one.
pub open spec fn optional_status(doc: Members, key: Seq<char>) -> Result<
    Option<Status>,
    SensorErrorView,
> {
    match optional_unsigned(doc, key) {
        Ok(Some(n)) => match status_of(n as int) {
            Some(status) => Ok(Some(status)),
            None => Err(SensorErrorView::UnrecognizedStatusCode(n)),
        },
        Ok(None) => Ok(None),
        Err(e) => Err(e),
    }
}

/// The device's clock: a text that reads as an instant.
pub open spec fn required_timestamp(doc: Members, key: Seq<char>) -> Result<
    Timestamp,
    SensorErrorView,
> {
    match required_text(doc, key) {
        Ok(text) => match timestamp_of(text) {
            Ok(t) => Ok(t),
            Err(_) => Err(SensorErrorView::MalformedTimestamp),
        },
        Err(e) => Err(e),
    }
}

/// A result with its error by view.
pub open spec fn plain<T>(r: Result<T, SensorError>) -> Result<T, SensorErrorView> {
    match r {
        Ok(v) => Ok(v),
        Err(e) => Err(e@),
    }
}

/// A text result with both sides by view.
pub open spec fn viewed(r: Result<String, SensorError>) -> Result<Seq<char>, SensorErrorView> {
    match r {
        Ok(v) => Ok(v@),
        Err(e) => Err(e@),
    }
}

/// An optional text by view.
pub open spec fn optional_view(text: Option<String>) -> Option<Seq<char>> {
    match text {
        Some(s) => Some(s@),
        None => None,
    }
}

/// An optional text result with both sides by view.
pub open spec fn viewed_optional(r: Result<Option<String>, SensorError>) -> Result<
    Option<Seq<char>>,
    SensorErrorView,
> {
    match r {
        Ok(v) => Ok(optional_view(v)),
        Err(e) => Err(e@),
    }
}

/// The error for a mandatory key that did not read: wrong type if the key
/// is there, missing if not.
fn unread(doc: &Document, key: &'static str) -> (e: SensorError)
    ensures
        e@ == if doc@.contains_key(key@) {
            wrong_type(key@)
        } else {
            missing(key@)
        },
{
    if doc.contains(key) {
        SensorError::SchemaViolation { field: key, reason: Reason::WrongType }
    } else {
        SensorError::SchemaViolation { field: key, reason: Reason::Missing }
    }
}

/// Whether an optional key that did not read was simply not sent.
fn not_sent(doc: &Document, key: &'static str) -> (r: bool)
    ensures
        r == is_absent(doc@, key@),
{
    !doc.contains(key) || doc.is_null(key)
}

/// Reads a mandatory text.
pub fn read_text(doc: &Document, key: &'static str) -> (r: Result<String, SensorError>)
    ensures
        viewed(r) == required_text(doc@, key@),
{
    match doc.text(key) {
        Some(text) => Ok(text),
        None => Err(unread(doc, key)),
    }
}

/// Reads an optional text.
pub fn read_optional_text(doc: &Document, key: &'static str) -> (r: Result<
    Option<String>,
    SensorError,
>)
    ensures
        viewed_optional(r) == optional_text(doc@, key@),
{
    match doc.text(key) {
        Some(text) => Ok(Some(text)),
        None => if not_sent(doc, key) {
            Ok(None)
        } else {
            Err(SensorError::SchemaViolation { field: key, reason: Reason::WrongType })
        },
    }
}

/// Reads a mandatory integer within `u64`.
pub fn read_unsigned(doc: &Document, key: &'static str) -> (r: Result<u64, SensorError>)
    ensures
        plain(r) == required_unsigned(doc@, key@),
{
    match doc.unsigned(key) {
        Some(n) => Ok(n),
        None => Err(unread(doc, key)),
    }
}

/// Reads an optional integer within `u64`.
pub fn read_optional_unsigned(doc: &Document, key: &'static str) -> (r: Result<
    Option<u64>,
    SensorError,
>)
    ensures
        plain(r) == optional_unsigned(doc@, key@),
{
    match doc.unsigned(key) {
        Some(n) => Ok(Some(n)),
        None => if not_sent(doc, key) {
            Ok(None)
        } else {
            Err(SensorError::SchemaViolation { field: key, reason: Reason::WrongType })
        },
    }
}

/// Reads a mandatory integer within `u32`.
pub fn read_count(doc: &Document, key: &'static str) -> (r: Result<u32, SensorError>)
    ensures
        plain(r) == required_count(doc@, key@),
{
    match doc.unsigned(key) {
        Some(n) => if n <= 0xffff_ffff {
            Ok(n as u32)
        } else {
            Err(SensorError::SchemaViolation { field: key, reason: Reason::WrongType })
        },
        None => Err(unread(doc, key)),
    }
}

/// Reads a mandatory integer within `i64`.
pub fn read_signed(doc: &Document, key: &'static str) -> (r: Result<i64, SensorError>)
    ensures
        plain(r) == required_signed(doc@, key@),
{
    match doc.signed(key) {
        Some(n) => Ok(n),
        None => Err(unread(doc, key)),
    }
}

/// Reads a mandatory real.
pub fn read_real(doc: &Document, key: &'static str) -> (r: Result<Real, SensorError>)
    ensures
        plain(r) == required_real(doc@, key@),
{
    match doc.real_number(key) {
        Some(x) => Ok(x),
        None => Err(unread(doc, key)),
    }
}

/// Reads an optional real.
pub fn read_optional_real(doc: &Document, key: &'static str) -> (r: Result<
    Option<Real>,
    SensorError,
>)
    ensures
        plain(r) == optional_real(doc@, key@),
{
    match doc.real_number(key) {
        Some(x) => Ok(Some(x)),
        None => if not_sent(doc, key) {
            Ok(None)
        } else {
            Err(SensorError::SchemaViolation { field: key, reason: Reason::WrongType })
        },
    }
}

/// Reads a mandatory status.
pub fn read_status(doc: &Document, key: &'static str) -> (r: Result<Status, SensorError>)
    ensures
        plain(r) == required_status(doc@, key@),
{
    let number: u64 = read_unsigned(doc, key)?;
    parse_status(number)
}

/// Reads an optional status.
pub fn read_optional_status(doc: &Document, key: &'static str) -> (r: Result<
    Option<Status>,
    SensorError,
>)
    ensures
        plain(r) == optional_status(doc@, key@),
{
    let number: Option<u64> = read_optional_unsigned(doc, key)?;
    parse_optional_status(number)
}

/// Reads the device's clock.
pub fn read_timestamp(doc: &Document, key: &'static str) -> (r: Result<Timestamp, SensorError>)
    ensures
        plain(r) == required_timestamp(doc@, key@),
{
    let text: String = read_text(doc, key)?;
    parse_nonstandard_datetime(text.as_str())
}

} // verus!
