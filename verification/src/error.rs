//! The errors that the helpers report.

use vstd::prelude::*;

verus! {

/// The type that a caller asked a JSON value to have.
#[derive(Clone, Copy, Debug, PartialEq, Eq, Structural)]
pub enum JsonType {
    Object,
    String,
    Float,
    U64,
    I64,
    Bool,
}

/// Why a helper gave no result.
#[derive(Clone, Copy, Debug, PartialEq, Eq, Structural)]
pub enum JsonError {
    /// The value has no entry under the key that was asked for.
    MissingField,
    /// The value is there, but it is not of the type that was asked for.
    TypeMismatch(JsonType),
    /// The text is not a JSON document.
    Parse,
}

impl JsonError {
    /// The words in which the error is reported.
    pub open spec fn spec_message(self) -> Seq<char> {
        match self {
            JsonError::MissingField => "缺失必要字段."@,
            JsonError::TypeMismatch(JsonType::Object) => "字段类型错误,应为对象."@,
            JsonError::TypeMismatch(JsonType::String) => "字段类型错误, 应为字符串."@,
            JsonError::TypeMismatch(JsonType::Float) => "字段类型错误, 应为浮点数."@,
            JsonError::TypeMismatch(JsonType::U64) => "字段类型错误, 应为无符号整数."@,
            JsonError::TypeMismatch(JsonType::I64) => "字段类型错误, 应为有符号整数."@,
            JsonError::TypeMismatch(JsonType::Bool) => "字段类型错误, 应为布尔值."@,
            JsonError::Parse => "JSON 格式错误."@,
        }
    }

    /// The words in which the error is reported: what went wrong and, for a
    /// type mismatch, the type that was asked for.
    pub fn message(&self) -> (text: &'static str)
        ensures
            text@ == self.spec_message(),
    {
        match self {
            JsonError::MissingField => "缺失必要字段.",
            JsonError::TypeMismatch(JsonType::Object) => "字段类型错误,应为对象.",
            JsonError::TypeMismatch(JsonType::String) => "字段类型错误, 应为字符串.",
            JsonError::TypeMismatch(JsonType::Float) => "字段类型错误, 应为浮点数.",
            JsonError::TypeMismatch(JsonType::U64) => "字段类型错误, 应为无符号整数.",
            JsonError::TypeMismatch(JsonType::I64) => "字段类型错误, 应为有符号整数.",
            JsonError::TypeMismatch(JsonType::Bool) => "字段类型错误, 应为布尔值.",
            JsonError::Parse => "JSON 格式错误.",
        }
    }
}

} // verus!
