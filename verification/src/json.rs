//! A JSON object as the decoder sees it: a map from keys to values, read one
//! key at a time. The object itself is serde_json's.

use crate::error::SensorError;
use vstd::prelude::*;

verus! {

/// `serde_json::Map`, the object of a JSON document. Nothing is known of
/// what is inside but through `members`.
#[verifier::external_type_specification]
#[verifier::external_body]
#[verifier::reject_recursive_types(K)]
#[verifier::reject_recursive_types(V)]
pub struct ExJsonMap<K, V>(serde_json::Map<K, V>);

/// `serde_json::Value`, what a member of an object holds. It is only
/// carried along.
#[verifier::external_type_specification]
#[verifier::external_body]
pub struct ExJsonValue(serde_json::Value);

/// `serde_json::Error`, why a text is no JSON. It is only told apart from
/// success.
#[verifier::external_type_specification]
#[verifier::external_body]
pub struct ExJsonError(serde_json::Error);

/// What one member of a JSON object holds, as far as a flat schema reads it.
pub enum JsonValue {
    Null,
    Bool(bool),
    /// A number that serde_json keeps as a `u64` or an `i64`.
    Integer(int),
    /// Any other number, by the bits of its finite double.
    Real(u64),
    Text(Seq<char>),
    /// An array or an object.
    Nested,
}

/// The members of an object, by key.
pub uninterp spec fn members(object: serde_json::Map<String, serde_json::Value>) -> Map<
    Seq<char>,
    JsonValue,
>;

/// What serde_json reads from `text` as an object: its members. `None`
/// where serde_json refuses the text.
pub uninterp spec fn parsed_object(text: Seq<char>) -> Option<Map<Seq<char>, JsonValue>>;

/// The bits of the double that an integer becomes when it is read as a real.
pub uninterp spec fn real_of_integer(i: int) -> u64;

impl JsonValue {
    /// The value as a `u64`: an integer that fits.
    pub open spec fn as_unsigned(self) -> Option<u64> {
        match self {
            JsonValue::Integer(i) => if 0 <= i <= u64::MAX {
                Some(i as u64)
            } else {
                None
            },
            _ => None,
        }
    }

    /// The value as an `i64`: an integer that fits.
    pub open spec fn as_signed(self) -> Option<i64> {
        match self {
            JsonValue::Integer(i) => if i64::MIN <= i <= i64::MAX {
                Some(i as i64)
            } else {
                None
            },
            _ => None,
        }
    }

    /// The value as a double, by its bits: any number.
    pub open spec fn as_real(self) -> Option<u64> {
        match self {
            JsonValue::Integer(i) => Some(real_of_integer(i)),
            JsonValue::Real(bits) => Some(bits),
            _ => None,
        }
    }

    /// The value as text: a string.
    pub open spec fn as_text(self) -> Option<Seq<char>> {
        match self {
            JsonValue::Text(s) => Some(s),
            _ => None,
        }
    }
}

/// Whether the bits are those of a finite double: the exponent is not all
/// ones.
pub open spec fn is_finite_bits(bits: u64) -> bool {
    (bits >> 52) & 0x7ff != 0x7ff
}

/// `serde_json::from_str` at `serde_json::Map<String, Value>`. The contract
/// names the members of what was read; it claims that the same text always
/// gives the same members, or always fails.
#[verifier::external_body]
fn parse_object(text: &str) -> (r: Result<
    serde_json::Map<String, serde_json::Value>,
    serde_json::Error,
>)
    ensures
        match r {
            Ok(object) => parsed_object(text@) == Some(members(object)),
            Err(_) => parsed_object(text@).is_none(),
        },
{
    serde_json::from_str(text)
}

/// `serde_json::Map::contains_key`.
#[verifier::external_body]
fn has_member(object: &serde_json::Map<String, serde_json::Value>, key: &str) -> (r: bool)
    ensures
        r == members(*object).contains_key(key@),
{
    object.contains_key(key)
}

/// `serde_json::Map::get`, then `Value::is_null`: whether the key is there
/// and holds `null`.
#[verifier::external_body]
fn member_is_null(object: &serde_json::Map<String, serde_json::Value>, key: &str) -> (r: bool)
    ensures
        r == (members(*object).contains_key(key@) && members(*object)[key@] is Null),
{
    object.get(key).is_some_and(serde_json::Value::is_null)
}

/// `serde_json::Map::get`, then `Value::as_u64`: `Some` exactly for a number
/// that serde_json keeps as a non-negative integer.
#[verifier::external_body]
fn member_unsigned(object: &serde_json::Map<String, serde_json::Value>, key: &str) -> (r:
    Option<u64>)
    ensures
        r == if members(*object).contains_key(key@) {
            members(*object)[key@].as_unsigned()
        } else {
            None
        },
{
    object.get(key).and_then(serde_json::Value::as_u64)
}

/// `serde_json::Map::get`, then `Value::as_i64`: `Some` exactly for a number
/// that serde_json keeps as an integer within `i64`.
#[verifier::external_body]
fn member_signed(object: &serde_json::Map<String, serde_json::Value>, key: &str) -> (r:
    Option<i64>)
    ensures
        r == if members(*object).contains_key(key@) {
            members(*object)[key@].as_signed()
        } else {
            None
        },
{
    object.get(key).and_then(serde_json::Value::as_i64)
}

/// `serde_json::Map::get`, then `Value::as_f64`, handed out by its bits:
/// `Some` exactly for a number; an integer comes converted to a double.
#[verifier::external_body]
fn member_real(object: &serde_json::Map<String, serde_json::Value>, key: &str) -> (r: Option<
    u64,
>)
    ensures
        r == if members(*object).contains_key(key@) {
            match members(*object)[key@] {
                JsonValue::Integer(i) => Some(real_of_integer(i)),
                JsonValue::Real(bits) => Some(bits),
                _ => None,
            }
        } else {
            None
        },
{
    object.get(key).and_then(serde_json::Value::as_f64).map(|x| x.to_bits())
}

/// `serde_json::Map::get`, then `Value::as_str`, copied: `Some` exactly for
/// a string.
#[verifier::external_body]
fn member_text(object: &serde_json::Map<String, serde_json::Value>, key: &str) -> (r: Option<
    String,
>)
    ensures
        match r {
            Some(text) => members(*object).contains_key(key@) && members(*object)[key@].as_text()
                == Some(text@),
            None => !members(*object).contains_key(key@) || members(
                *object,
            )[key@].as_text().is_none(),
        },
{
    object.get(key).and_then(serde_json::Value::as_str).map(str::to_owned)
}

/// A number with a fraction, kept by the bits of its IEEE 754 double.
#[derive(Clone, Copy, Debug, PartialEq, Eq, Structural)]
pub struct Real {
    pub bits: u64,
}

impl Real {
    /// Whether the number is finite: neither an infinity nor a NaN. JSON
    /// has numbers for the finite ones only.
    pub fn is_finite(&self) -> (r: bool)
        ensures
            r == is_finite_bits(self.bits),
    {
        (self.bits >> 52) & 0x7ff != 0x7ff
    }
}

/// One JSON object: the document that the sensor sends.
pub struct Document {
    object: serde_json::Map<String, serde_json::Value>,
}

impl View for Document {
    type V = Map<Seq<char>, JsonValue>;

    closed spec fn view(&self) -> Map<Seq<char>, JsonValue> {
        members(self.object)
    }
}

/// What `Document::parse` makes of a text.
pub open spec fn document_of(text: Seq<char>) -> Result<Map<Seq<char>, JsonValue>, SensorError> {
    match parsed_object(text) {
        Some(doc) => Ok(doc),
        None => Err(SensorError::MalformedDocument),
    }
}

/// The member under `key`, if there is one.
pub open spec fn member(doc: Map<Seq<char>, JsonValue>, key: Seq<char>) -> Option<JsonValue> {
    if doc.contains_key(key) {
        Some(doc[key])
    } else {
        None
    }
}

impl Document {
    /// Reads a JSON object. Fails with `MalformedDocument` exactly when
    /// serde_json refuses the text as an object.
    pub fn parse(text: &str) -> (r: Result<Document, SensorError>)
        ensures
            match r {
                Ok(doc) => document_of(text@) == Ok::<_, SensorError>(doc@),
                Err(e) => document_of(text@) == Err::<Map<Seq<char>, JsonValue>, _>(e),
            },
    {
        match parse_object(text) {
            Ok(object) => Ok(Document { object }),
            Err(_) => Err(SensorError::MalformedDocument),
        }
    }

    /// Wraps an object that serde_json has built.
    pub fn from_object(object: serde_json::Map<String, serde_json::Value>) -> (doc: Document)
        ensures
            doc@ == members(object),
    {
        Document { object }
    }

    /// Whether the document has the key.
    pub fn contains(&self, key: &str) -> (r: bool)
        ensures
            r == self@.contains_key(key@),
    {
        has_member(&self.object, key)
    }

    /// Whether the key is there and holds `null`.
    pub fn is_null(&self, key: &str) -> (r: bool)
        ensures
            r == (member(self@, key@) == Some(JsonValue::Null)),
    {
        member_is_null(&self.object, key)
    }

    /// The member under `key` as a `u64`.
    pub fn unsigned(&self, key: &str) -> (r: Option<u64>)
        ensures
            r == match member(self@, key@) {
                Some(v) => v.as_unsigned(),
                None => None,
            },
    {
        member_unsigned(&self.object, key)
    }

    /// The member under `key` as an `i64`.
    pub fn signed(&self, key: &str) -> (r: Option<i64>)
        ensures
            r == match member(self@, key@) {
                Some(v) => v.as_signed(),
                None => None,
            },
    {
        member_signed(&self.object, key)
    }

    /// The member under `key` as a real: any number.
    pub fn real_number(&self, key: &str) -> (r: Option<Real>)
        ensures
            r == match member(self@, key@) {
                Some(v) => match v.as_real() {
                    Some(bits) => Some(Real { bits }),
                    None => None,
                },
                None => None,
            },
    {
        match member_real(&self.object, key) {
            Some(bits) => Some(Real { bits }),
            None => None,
        }
    }

    /// The member under `key` as text.
    pub fn text(&self, key: &str) -> (r: Option<String>)
        ensures
            match r {
                Some(text) => member(self@, key@) matches Some(v) && v.as_text() == Some(text@),
                None => match member(self@, key@) {
                    Some(v) => v.as_text().is_none(),
                    None => true,
                },
            },
    {
        member_text(&self.object, key)
    }
}

} // verus!
