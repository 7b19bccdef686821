//! Decoding of the token endpoint's JSON responses: each required
//! field of the document is either present with the right shape,
//! missing, or mismatched, and the outcome of every read is named as a
//! function of the raw bytes, so that a decoder's contract can say
//! exactly when it succeeds and what it returns.

use vstd::prelude::*;

verus! {

#[verifier::external_type_specification]
#[verifier::external_body]
pub struct ExValue(serde_json::Value);

/// Why response bytes failed to decode.
#[derive(Clone, Debug, PartialEq, Eq)]
pub enum DecodeError {
    /// The bytes are not a well-formed JSON document.
    InvalidJson,
    /// The named required field is absent from the document.
    MissingField(String),
    /// The named required field holds a value of the wrong type.
    MismatchedField(String),
}

impl DecodeError {
    /// A human-readable description of the error.
    pub fn message(&self) -> (r: String)
        ensures
            self is InvalidJson ==> r@ == "response bytes are not well-formed JSON"@,
            self matches DecodeError::MissingField(n) ==> r@ == "missing required field "@ + n@,
            self matches DecodeError::MismatchedField(n) ==> r@
                == "mismatched type for field "@ + n@,
    {
        match self {
            Self::InvalidJson => "response bytes are not well-formed JSON".to_owned(),
            Self::MissingField(n) => {
                let mut m = "missing required field ".to_owned();
                m.append(n.as_str());
                m
            },
            Self::MismatchedField(n) => {
                let mut m = "mismatched type for field ".to_owned();
                m.append(n.as_str());
                m
            },
        }
    }
}

/// One field of a decoded JSON object: present with the expected
/// shape, absent, or present with the wrong shape.
#[derive(Clone, Debug, PartialEq, Eq)]
pub enum JsonField<T> {
    /// The field is absent.
    Missing,
    /// The field is present but holds a value of the wrong type.
    Mismatched,
    /// The field is present and holds a value of the expected type.
    Value(T),
}

/// Whether the bytes parse as one well-formed JSON document. JSON
/// parsing is deterministic, so this is a function of the bytes alone.
pub uninterp spec fn json_ok(bytes: Seq<u8>) -> bool;

/// Whether the document the bytes parse to is an object holding the
/// named field; false when the bytes do not parse. A function of the
/// bytes alone.
pub uninterp spec fn json_has_field(bytes: Seq<u8>, key: Seq<char>) -> bool;

/// The characters of the named field when the document holds it as a
/// JSON string; nothing when the field is absent, not a string, or the
/// bytes do not parse. A function of the bytes alone.
pub uninterp spec fn json_str_field(bytes: Seq<u8>, key: Seq<char>) -> Option<Seq<char>>;

/// The value of the named field when the document holds it as a JSON
/// integer representable as `u64`; nothing when the field is absent,
/// of another shape, or the bytes do not parse. A function of the
/// bytes alone.
pub uninterp spec fn json_u64_field(bytes: Seq<u8>, key: Seq<char>) -> Option<u64>;

/// Relies on `serde_json::from_slice` with `serde_json::Value` as the
/// target: parsing succeeds exactly on well-formed JSON documents, and
/// never panics.
#[verifier::external_body]
pub(crate) fn json_well_formed(bytes: &[u8]) -> (r: bool)
    ensures
        r == json_ok(bytes@),
{
    serde_json::from_slice::<serde_json::Value>(bytes).is_ok()
}

/// Relies on `serde_json::from_slice`, `Value::get` and
/// `Value::as_str`: reads the named field of the document as a string,
/// telling a missing field from one of another shape. All three are
/// deterministic in the bytes and the key.
#[verifier::external_body]
pub(crate) fn read_string_field(bytes: &[u8], key: &str) -> (r: JsonField<String>)
    ensures
        (r is Missing <==> !json_has_field(bytes@, key@)),
        ((r is Missing || r is Mismatched) <==> json_str_field(bytes@, key@) is None),
        (r matches JsonField::Value(s) ==> json_str_field(bytes@, key@) == Some(s@)),
{
    let document: serde_json::Value = match serde_json::from_slice(bytes) {
        Ok(v) => v,
        Err(_) => return JsonField::Missing,
    };
    match document.get(key) {
        None => JsonField::Missing,
        Some(field) => match field.as_str() {
            None => JsonField::Mismatched,
            Some(s) => JsonField::Value(s.to_owned()),
        },
    }
}

/// Relies on `serde_json::from_slice`, `Value::get` and
/// `Value::as_u64`: reads the named field of the document as a
/// non-negative integer, telling a missing field from one of another
/// shape. All three are deterministic in the bytes and the key.
#[verifier::external_body]
pub(crate) fn read_u64_field(bytes: &[u8], key: &str) -> (r: JsonField<u64>)
    ensures
        (r is Missing <==> !json_has_field(bytes@, key@)),
        ((r is Missing || r is Mismatched) <==> json_u64_field(bytes@, key@) is None),
        (r matches JsonField::Value(n) ==> json_u64_field(bytes@, key@) == Some(n)),
{
    let document: serde_json::Value = match serde_json::from_slice(bytes) {
        Ok(v) => v,
        Err(_) => return JsonField::Missing,
    };
    match document.get(key) {
        None => JsonField::Missing,
        Some(field) => match field.as_u64() {
            None => JsonField::Mismatched,
            Some(n) => JsonField::Value(n),
        },
    }
}

/// Relies on `serde_json::from_slice`, `Value::get` and `Value`'s
/// `Clone`: reads the named field of the document whatever its shape,
/// keeping the value as it stands; a present field is never
/// mismatched.
#[verifier::external_body]
pub(crate) fn read_value_field(bytes: &[u8], key: &str) -> (r: JsonField<serde_json::Value>)
    ensures
        (r is Value <==> json_has_field(bytes@, key@)),
        !(r is Mismatched),
{
    let document: serde_json::Value = match serde_json::from_slice(bytes) {
        Ok(v) => v,
        Err(_) => return JsonField::Missing,
    };
    match document.get(key) {
        None => JsonField::Missing,
        Some(field) => JsonField::Value(field.clone()),
    }
}

/// Whether an error names the given field, as a missing-field error
/// exactly when `missing` holds and as a mismatched-field error
/// otherwise.
pub open spec fn field_error_of(missing: bool, e: DecodeError, name: Seq<char>) -> bool {
    if missing {
        e matches DecodeError::MissingField(n) && n@ == name
    } else {
        e matches DecodeError::MismatchedField(n) && n@ == name
    }
}

/// Turn a decoded string field into its value, or into the error
/// naming the field.
pub(crate) fn take_string(f: JsonField<String>, name: &str) -> (r: Result<String, DecodeError>)
    ensures
        r matches Ok(v) ==> f matches JsonField::Value(w) && v == w,
        r is Ok <==> f is Value,
        !(f is Value) ==> (r matches Err(e) && field_error_of(f is Missing, e, name@)),
{
    match f {
        JsonField::Value(v) => Ok(v),
        JsonField::Missing => Err(DecodeError::MissingField(name.to_owned())),
        JsonField::Mismatched => Err(DecodeError::MismatchedField(name.to_owned())),
    }
}

/// Turn a decoded integer field into its value, or into the error
/// naming the field.
pub(crate) fn take_u64(f: JsonField<u64>, name: &str) -> (r: Result<u64, DecodeError>)
    ensures
        r matches Ok(v) ==> f matches JsonField::Value(w) && v == w,
        r is Ok <==> f is Value,
        !(f is Value) ==> (r matches Err(e) && field_error_of(f is Missing, e, name@)),
{
    match f {
        JsonField::Value(v) => Ok(v),
        JsonField::Missing => Err(DecodeError::MissingField(name.to_owned())),
        JsonField::Mismatched => Err(DecodeError::MismatchedField(name.to_owned())),
    }
}

} // verus!
