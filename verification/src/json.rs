//! Typed access to `serde_json::Value`.
//!
//! [`Convert`] turns a value that is already at hand into one primitive type;
//! [`Extract`] first looks a field up in an object and then does the same.
//! Neither looks inside a `serde_json::Value` itself: they call its accessors,
//! whose behaviour is stated here over [`Json`], the mathematical content of
//! a value.

use vstd::prelude::*;
use crate::error::{JsonError, JsonType};
use crate::float::Float;

verus! {

/// A JSON number, in the three forms in which `serde_json` keeps one.
pub enum JsonNumber {
    /// An integer that is zero or more.
    PosInt(u64),
    /// An integer below zero.
    NegInt(i64),
    /// A number written with a fraction or an exponent.
    Float(Float),
}

/// The mathematical content of a JSON value.
pub enum Json {
    Null,
    Bool(bool),
    Number(JsonNumber),
    Text(Seq<char>),
    Array(Seq<Json>),
    Object(Map<Seq<char>, Json>),
}

impl Json {
    /// The entries, if this is an object.
    pub open spec fn as_object(self) -> Option<Map<Seq<char>, Json>> {
        match self {
            Json::Object(entries) => Some(entries),
            _ => None,
        }
    }

    /// The characters, if this is a string.
    pub open spec fn as_text(self) -> Option<Seq<char>> {
        match self {
            Json::Text(text) => Some(text),
            _ => None,
        }
    }

    /// The number as a double, if this is a number. An integer becomes the
    /// double that a cast of it gives.
    pub open spec fn as_float(self) -> Option<Float> {
        match self {
            Json::Number(JsonNumber::Float(x)) => Some(x),
            Json::Number(JsonNumber::PosInt(n)) => Some(float_of_int(n as int)),
            Json::Number(JsonNumber::NegInt(n)) => Some(float_of_int(n as int)),
            _ => None,
        }
    }

    /// The number, if this is an integer that is zero or more.
    pub open spec fn as_u64(self) -> Option<u64> {
        match self {
            Json::Number(JsonNumber::PosInt(n)) => Some(n),
            _ => None,
        }
    }

    /// The number, if this is an integer that a signed 64-bit integer can hold.
    pub open spec fn as_i64(self) -> Option<i64> {
        match self {
            Json::Number(JsonNumber::PosInt(n)) => if n <= i64::MAX {
                Some(n as i64)
            } else {
                None
            },
            Json::Number(JsonNumber::NegInt(n)) => Some(n),
            _ => None,
        }
    }

    /// The truth value, if this is a boolean.
    pub open spec fn as_bool(self) -> Option<bool> {
        match self {
            Json::Bool(b) => Some(b),
            _ => None,
        }
    }

    /// The value under `key`, if this is an object that has such an entry.
    pub open spec fn get(self, key: Seq<char>) -> Option<Json> {
        match self {
            Json::Object(entries) => if entries.contains_key(key) {
                Some(entries[key])
            } else {
                None
            },
            _ => None,
        }
    }

    /// Whether a request for type `ty` is met by this value.
    pub open spec fn has_type(self, ty: JsonType) -> bool {
        match ty {
            JsonType::Object => self is Object,
            JsonType::String => self is Text,
            JsonType::Float => self is Number,
            JsonType::U64 => self.as_u64() is Some,
            JsonType::I64 => self.as_i64() is Some,
            JsonType::Bool => self is Bool,
        }
    }
}

// The three types of `serde_json` that pass through this module. Verus sees
// nothing inside them: what a value holds is `json_of`, what a map holds is
// `entries_of`, and nothing is said of an error.
#[verifier::external_type_specification]
#[verifier::external_body]
pub struct ExValue(serde_json::Value);

#[verifier::external_type_specification]
#[verifier::external_body]
#[verifier::reject_recursive_types(K)]
#[verifier::reject_recursive_types(V)]
pub struct ExObject<K, V>(serde_json::Map<K, V>);

#[verifier::external_type_specification]
#[verifier::external_body]
pub struct ExSyntaxError(serde_json::Error);

/// What a `serde_json::Value` holds.
pub uninterp spec fn json_of(value: serde_json::Value) -> Json;

/// The entries that a `serde_json::Map` holds.
pub uninterp spec fn entries_of(object: serde_json::Map<String, serde_json::Value>) -> Map<
    Seq<char>,
    Json,
>;

/// The double that the cast of an integer to a double gives: the nearest one,
/// ties going to the even mantissa.
pub uninterp spec fn float_of_int(n: int) -> Float;

/// The value that `serde_json` reads from a text, or `None` where the text
/// is not one JSON document.
pub uninterp spec fn parse_json(text: Seq<char>) -> Option<Json>;

/// `Value::as_object` hands out the map of an object and nothing of any
/// other value.
pub assume_specification<'a>[ serde_json::Value::as_object ](
    value: &'a serde_json::Value,
) -> (found: Option<&'a serde_json::Map<String, serde_json::Value>>)
    ensures
        match json_of(*value).as_object() {
            Some(entries) => found is Some && entries_of(*found.unwrap()) == entries,
            None => found is None,
        },
;

/// `Value::as_str` hands out the characters of a string and nothing of any
/// other value.
pub assume_specification<'a>[ serde_json::Value::as_str ](value: &'a serde_json::Value) -> (found:
    Option<&'a str>)
    ensures
        match json_of(*value).as_text() {
            Some(text) => found is Some && found.unwrap()@ == text,
            None => found is None,
        },
;

/// `Value::as_u64` gives a number that is kept as an unsigned integer, and
/// nothing for a negative integer, a double or a value that is no number.
pub assume_specification[ serde_json::Value::as_u64 ](value: &serde_json::Value) -> (found: Option<
    u64,
>)
    ensures
        found == json_of(*value).as_u64(),
;

/// `Value::as_i64` gives a negative integer as it is and an unsigned one
/// where it is at most `i64::MAX`; it gives nothing for a larger one, for a
/// double or for a value that is no number.
pub assume_specification[ serde_json::Value::as_i64 ](value: &serde_json::Value) -> (found: Option<
    i64,
>)
    ensures
        found == json_of(*value).as_i64(),
;

/// `Value::as_bool` gives the truth value of a boolean and nothing of any
/// other value.
pub assume_specification[ serde_json::Value::as_bool ](value: &serde_json::Value) -> (found: Option<
    bool,
>)
    ensures
        found == json_of(*value).as_bool(),
;

/// `Value::as_f64`, with the double handed out by its bit pattern. Every
/// number has one: a double is given as it is, an integer is cast. A value
/// that is no number has none.
#[verifier::external_body]
fn as_float(value: &serde_json::Value) -> (found: Option<Float>)
    ensures
        found == match json_of(*value) {
            Json::Number(JsonNumber::Float(x)) => Some(x),
            Json::Number(JsonNumber::PosInt(n)) => Some(float_of_int(n as int)),
            Json::Number(JsonNumber::NegInt(n)) => Some(float_of_int(n as int)),
            _ => None,
        },
{
    value.as_f64().map(|x| Float { bits: x.to_bits() })
}

/// `Value::get` with a string index: the entry under `key` where the value
/// is an object that has one, and nothing otherwise.
#[verifier::external_body]
fn get_field<'a>(value: &'a serde_json::Value, key: &str) -> (found: Option<&'a serde_json::Value>)
    ensures
        match json_of(*value).get(key@) {
            Some(entry) => found is Some && json_of(*found.unwrap()) == entry,
            None => found is None,
        },
{
    value.get(key)
}

/// `serde_json::from_str` at the type `Value`: whether a text is read, and
/// as what, depends on the text alone.
#[verifier::external_body]
fn from_str(text: &str) -> (read: Result<serde_json::Value, serde_json::Error>)
    ensures
        match read {
            Ok(value) => parse_json(text@) == Some(json_of(value)),
            Err(_) => parse_json(text@) is None,
        },
{
    serde_json::from_str::<serde_json::Value>(text)
}

/// What a request for one type makes of what an accessor found.
pub open spec fn expect<T>(found: Option<T>, ty: JsonType) -> Result<T, JsonError> {
    match found {
        Some(x) => Ok(x),
        None => Err(JsonError::TypeMismatch(ty)),
    }
}

/// What a request for a field makes of the entry: an absent one is missing,
/// one that is there is converted.
pub open spec fn expect_field<T>(entry: Option<Json>, converted: spec_fn(Json) -> Result<T, JsonError>)
    -> Result<T, JsonError> {
    match entry {
        Some(value) => converted(value),
        None => Err(JsonError::MissingField),
    }
}

/// Reads a JSON document into a value, or reports [`JsonError::Parse`].
pub fn parse(text: &str) -> (r: Result<serde_json::Value, JsonError>)
    ensures
        match parse_json(text@) {
            Some(json) => r is Ok && json_of(r.unwrap()) == json,
            None => r is Err && r.unwrap_err() == JsonError::Parse,
        },
{
    value_or_parse_error(from_str(text))
}

/// What [`parse`] makes of the parser's answer: the value as it is, and
/// [`JsonError::Parse`] for every failure.
pub fn value_or_parse_error(read: Result<serde_json::Value, serde_json::Error>) -> (r: Result<
    serde_json::Value,
    JsonError,
>)
    ensures
        match read {
            Ok(value) => r == Ok::<serde_json::Value, JsonError>(value),
            Err(_) => r is Err && r.unwrap_err() == JsonError::Parse,
        },
{
    match read {
        Ok(value) => Ok(value),
        Err(_) => Err(JsonError::Parse),
    }
}

/// Converts a JSON value that is already at hand.
pub struct Convert;

/// Takes a named field out of a JSON object and converts it.
pub struct Extract;

impl Convert {
    /// What [`Convert::try_into_map`] gives for a value with content `json`.
    pub open spec fn spec_try_into_map(json: Json) -> Result<Map<Seq<char>, Json>, JsonError> {
        expect(json.as_object(), JsonType::Object)
    }

    /// What [`Convert::try_into_str`] gives for a value with content `json`.
    pub open spec fn spec_try_into_str(json: Json) -> Result<Seq<char>, JsonError> {
        expect(json.as_text(), JsonType::String)
    }

    /// What [`Convert::try_into_f64`] gives for a value with content `json`.
    pub open spec fn spec_try_into_f64(json: Json) -> Result<Float, JsonError> {
        expect(json.as_float(), JsonType::Float)
    }

    /// What [`Convert::try_into_u64`] gives for a value with content `json`.
    pub open spec fn spec_try_into_u64(json: Json) -> Result<u64, JsonError> {
        expect(json.as_u64(), JsonType::U64)
    }

    /// What [`Convert::try_into_i64`] gives for a value with content `json`.
    pub open spec fn spec_try_into_i64(json: Json) -> Result<i64, JsonError> {
        expect(json.as_i64(), JsonType::I64)
    }

    /// What [`Convert::try_into_bool`] gives for a value with content `json`.
    pub open spec fn spec_try_into_bool(json: Json) -> Result<bool, JsonError> {
        expect(json.as_bool(), JsonType::Bool)
    }

    /// The map of an object; any other value is a type mismatch.
    pub fn try_into_map(value: &serde_json::Value) -> (r: Result<
        &serde_json::Map<String, serde_json::Value>,
        JsonError,
    >)
        ensures
            match Convert::spec_try_into_map(json_of(*value)) {
                Ok(entries) => r is Ok && entries_of(*r.unwrap()) == entries,
                Err(e) => r is Err && r.unwrap_err() == e,
            },
    {
        match value.as_object() {
            Some(object) => Ok(object),
            None => Err(JsonError::TypeMismatch(JsonType::Object)),
        }
    }

    /// The characters of a string; any other value is a type mismatch.
    pub fn try_into_str(value: &serde_json::Value) -> (r: Result<&str, JsonError>)
        ensures
            match Convert::spec_try_into_str(json_of(*value)) {
                Ok(text) => r is Ok && r.unwrap()@ == text,
                Err(e) => r is Err && r.unwrap_err() == e,
            },
    {
        match value.as_str() {
            Some(text) => Ok(text),
            None => Err(JsonError::TypeMismatch(JsonType::String)),
        }
    }

    /// A number as a double; a value that is no number is a type mismatch.
    pub fn try_into_f64(value: &serde_json::Value) -> (r: Result<Float, JsonError>)
        ensures
            r == Convert::spec_try_into_f64(json_of(*value)),
    {
        match as_float(value) {
            Some(x) => Ok(x),
            None => Err(JsonError::TypeMismatch(JsonType::Float)),
        }
    }

    /// A number that is kept as an unsigned integer; any other value is a
    /// type mismatch.
    pub fn try_into_u64(value: &serde_json::Value) -> (r: Result<u64, JsonError>)
        ensures
            r == Convert::spec_try_into_u64(json_of(*value)),
    {
        match value.as_u64() {
            Some(n) => Ok(n),
            None => Err(JsonError::TypeMismatch(JsonType::U64)),
        }
    }

    /// An integer that fits a signed 64-bit integer; any other value is a
    /// type mismatch.
    pub fn try_into_i64(value: &serde_json::Value) -> (r: Result<i64, JsonError>)
        ensures
            r == Convert::spec_try_into_i64(json_of(*value)),
    {
        match value.as_i64() {
            Some(n) => Ok(n),
            None => Err(JsonError::TypeMismatch(JsonType::I64)),
        }
    }

    /// The truth value of a boolean; any other value is a type mismatch.
    pub fn try_into_bool(value: &serde_json::Value) -> (r: Result<bool, JsonError>)
        ensures
            r == Convert::spec_try_into_bool(json_of(*value)),
    {
        match value.as_bool() {
            Some(b) => Ok(b),
            None => Err(JsonError::TypeMismatch(JsonType::Bool)),
        }
    }
}

impl Extract {
    /// What [`Extract::get_map`] gives for a value with content `json`.
    pub open spec fn spec_get_map(json: Json, key: Seq<char>) -> Result<
        Map<Seq<char>, Json>,
        JsonError,
    > {
        expect_field(json.get(key), |entry: Json| Convert::spec_try_into_map(entry))
    }

    /// What [`Extract::get_str`] gives for a value with content `json`.
    pub open spec fn spec_get_str(json: Json, key: Seq<char>) -> Result<Seq<char>, JsonError> {
        expect_field(json.get(key), |entry: Json| Convert::spec_try_into_str(entry))
    }

    /// What [`Extract::get_f64`] gives for a value with content `json`.
    pub open spec fn spec_get_f64(json: Json, key: Seq<char>) -> Result<Float, JsonError> {
        expect_field(json.get(key), |entry: Json| Convert::spec_try_into_f64(entry))
    }

    /// What [`Extract::get_u64`] gives for a value with content `json`.
    pub open spec fn spec_get_u64(json: Json, key: Seq<char>) -> Result<u64, JsonError> {
        expect_field(json.get(key), |entry: Json| Convert::spec_try_into_u64(entry))
    }

    /// What [`Extract::get_i64`] gives for a value with content `json`.
    pub open spec fn spec_get_i64(json: Json, key: Seq<char>) -> Result<i64, JsonError> {
        expect_field(json.get(key), |entry: Json| Convert::spec_try_into_i64(entry))
    }

    /// What [`Extract::get_bool`] gives for a value with content `json`.
    pub open spec fn spec_get_bool(json: Json, key: Seq<char>) -> Result<bool, JsonError> {
        expect_field(json.get(key), |entry: Json| Convert::spec_try_into_bool(entry))
    }

    /// The object under `key`. A value without such an entry gives
    /// [`JsonError::MissingField`]; an entry that is no object, a type
    /// mismatch.
    pub fn get_map<'a>(value: &'a serde_json::Value, key: &str) -> (r: Result<
        &'a serde_json::Map<String, serde_json::Value>,
        JsonError,
    >)
        ensures
            match Extract::spec_get_map(json_of(*value), key@) {
                Ok(entries) => r is Ok && entries_of(*r.unwrap()) == entries,
                Err(e) => r is Err && r.unwrap_err() == e,
            },
    {
        match get_field(value, key) {
            Some(entry) => Convert::try_into_map(entry),
            None => Err(JsonError::MissingField),
        }
    }

    /// The string under `key`. A value without such an entry gives
    /// [`JsonError::MissingField`]; an entry that is no string, a type
    /// mismatch.
    pub fn get_str<'a>(value: &'a serde_json::Value, key: &str) -> (r: Result<&'a str, JsonError>)
        ensures
            match Extract::spec_get_str(json_of(*value), key@) {
                Ok(text) => r is Ok && r.unwrap()@ == text,
                Err(e) => r is Err && r.unwrap_err() == e,
            },
    {
        match get_field(value, key) {
            Some(entry) => Convert::try_into_str(entry),
            None => Err(JsonError::MissingField),
        }
    }

    /// The number under `key`, as a double. A value without such an entry
    /// gives [`JsonError::MissingField`]; an entry that is no number, a type
    /// mismatch.
    pub fn get_f64(value: &serde_json::Value, key: &str) -> (r: Result<Float, JsonError>)
        ensures
            r == Extract::spec_get_f64(json_of(*value), key@),
    {
        match get_field(value, key) {
            Some(entry) => Convert::try_into_f64(entry),
            None => Err(JsonError::MissingField),
        }
    }

    /// The unsigned integer under `key`. A value without such an entry gives
    /// [`JsonError::MissingField`]; an entry that is no unsigned integer, a
    /// type mismatch.
    pub fn get_u64(value: &serde_json::Value, key: &str) -> (r: Result<u64, JsonError>)
        ensures
            r == Extract::spec_get_u64(json_of(*value), key@),
    {
        match get_field(value, key) {
            Some(entry) => Convert::try_into_u64(entry),
            None => Err(JsonError::MissingField),
        }
    }

    /// The signed integer under `key`. A value without such an entry gives
    /// [`JsonError::MissingField`]; an entry that is no integer, or one too
    /// large, a type mismatch.
    pub fn get_i64(value: &serde_json::Value, key: &str) -> (r: Result<i64, JsonError>)
        ensures
            r == Extract::spec_get_i64(json_of(*value), key@),
    {
        match get_field(value, key) {
            Some(entry) => Convert::try_into_i64(entry),
            None => Err(JsonError::MissingField),
        }
    }

    /// The boolean under `key`. A value without such an entry gives
    /// [`JsonError::MissingField`]; an entry that is no boolean, a type
    /// mismatch.
    pub fn get_bool(value: &serde_json::Value, key: &str) -> (r: Result<bool, JsonError>)
        ensures
            r == Extract::spec_get_bool(json_of(*value), key@),
    {
        match get_field(value, key) {
            Some(entry) => Convert::try_into_bool(entry),
            None => Err(JsonError::MissingField),
        }
    }
}

/// A field that is there and of the type asked for is returned as it is.
pub proof fn lemma_present_field_is_returned(object: Json, key: Seq<char>)
    requires
        object.get(key) is Some,
    ensures
        object.get(key).unwrap() matches Json::Object(entries) ==> Extract::spec_get_map(object, key)
            == Ok::<Map<Seq<char>, Json>, JsonError>(entries),
        object.get(key).unwrap() matches Json::Text(text) ==> Extract::spec_get_str(object, key)
            == Ok::<Seq<char>, JsonError>(text),
        object.get(key).unwrap() matches Json::Number(JsonNumber::Float(x))
            ==> Extract::spec_get_f64(object, key) == Ok::<Float, JsonError>(x),
        object.get(key).unwrap() matches Json::Number(JsonNumber::PosInt(n))
            ==> Extract::spec_get_u64(object, key) == Ok::<u64, JsonError>(n),
        object.get(key).unwrap() matches Json::Number(JsonNumber::PosInt(n)) ==> (n <= i64::MAX
            ==> Extract::spec_get_i64(object, key) == Ok::<i64, JsonError>(n as i64)),
        object.get(key).unwrap() matches Json::Number(JsonNumber::NegInt(n))
            ==> Extract::spec_get_i64(object, key) == Ok::<i64, JsonError>(n),
        object.get(key).unwrap() matches Json::Bool(b) ==> Extract::spec_get_bool(object, key)
            == Ok::<bool, JsonError>(b),
{
}

/// A field that is not there is missing, whatever type was asked for.
pub proof fn lemma_absent_field_is_missing(object: Json, key: Seq<char>)
    requires
        object.get(key) is None,
    ensures
        Extract::spec_get_map(object, key) == Err::<Map<Seq<char>, Json>, JsonError>(
            JsonError::MissingField,
        ),
        Extract::spec_get_str(object, key) == Err::<Seq<char>, JsonError>(JsonError::MissingField),
        Extract::spec_get_f64(object, key) == Err::<Float, JsonError>(JsonError::MissingField),
        Extract::spec_get_u64(object, key) == Err::<u64, JsonError>(JsonError::MissingField),
        Extract::spec_get_i64(object, key) == Err::<i64, JsonError>(JsonError::MissingField),
        Extract::spec_get_bool(object, key) == Err::<bool, JsonError>(JsonError::MissingField),
{
}

/// A field that is there, but of another type than the one asked for, is a
/// type mismatch that names the type asked for.
pub proof fn lemma_ill_typed_field_is_mismatch(object: Json, key: Seq<char>, ty: JsonType)
    requires
        object.get(key) is Some,
        !object.get(key).unwrap().has_type(ty),
    ensures
        ty == JsonType::Object ==> Extract::spec_get_map(object, key) == Err::<
            Map<Seq<char>, Json>,
            JsonError,
        >(JsonError::TypeMismatch(ty)),
        ty == JsonType::String ==> Extract::spec_get_str(object, key) == Err::<
            Seq<char>,
            JsonError,
        >(JsonError::TypeMismatch(ty)),
        ty == JsonType::Float ==> Extract::spec_get_f64(object, key) == Err::<Float, JsonError>(
            JsonError::TypeMismatch(ty),
        ),
        ty == JsonType::U64 ==> Extract::spec_get_u64(object, key) == Err::<u64, JsonError>(
            JsonError::TypeMismatch(ty),
        ),
        ty == JsonType::I64 ==> Extract::spec_get_i64(object, key) == Err::<i64, JsonError>(
            JsonError::TypeMismatch(ty),
        ),
        ty == JsonType::Bool ==> Extract::spec_get_bool(object, key) == Err::<bool, JsonError>(
            JsonError::TypeMismatch(ty),
        ),
{
}

} // verus!
