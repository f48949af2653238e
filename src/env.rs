//! Environment variables as the library receives them, and the rules for reading them.
use vstd::prelude::*;
use crate::errors::ErrorWithHint;

verus! {

/// What the environment holds under one variable's name.
pub enum EnvValue {
    /// The variable is not set.
    Unset,
    /// The variable is set, but its value is not valid Unicode.
    NotUnicode,
    /// The variable is set to this value.
    Value(String),
}

/// The message for a variable whose value is not valid Unicode.
pub open spec fn invalid_message(key: Seq<char>) -> Seq<char> {
    "Env variable "@ + key + " invalid"@
}

/// The message for a required variable that is not set.
pub open spec fn unset_message(key: Seq<char>) -> Seq<char> {
    "Env variable "@ + key + " unset"@
}

/// An optional variable: its value, nothing when unset, or the error message.
pub open spec fn optional_var(key: Seq<char>, value: EnvValue) -> Result<Option<Seq<char>>, Seq<
    char,
>> {
    match value {
        EnvValue::Unset => Ok(None),
        EnvValue::NotUnicode => Err(invalid_message(key)),
        EnvValue::Value(v) => Ok(Some(v@)),
    }
}

/// A required variable: its value, or the error message.
pub open spec fn required_var(key: Seq<char>, value: EnvValue) -> Result<Seq<char>, Seq<char>> {
    match value {
        EnvValue::Unset => Err(unset_message(key)),
        EnvValue::NotUnicode => Err(invalid_message(key)),
        EnvValue::Value(v) => Ok(v@),
    }
}

/// The text of an outcome that carries an optional string.
pub open spec fn optional_text(r: Result<Option<String>, ErrorWithHint>) -> Result<
    Option<Seq<char>>,
    Seq<char>,
> {
    match r {
        Ok(Some(s)) => Ok(Some(s@)),
        Ok(None) => Ok(None),
        Err(e) => Err(e.err@),
    }
}

/// The text of an outcome that carries a string.
pub open spec fn text_result(r: Result<String, ErrorWithHint>) -> Result<Seq<char>, Seq<char>> {
    match r {
        Ok(s) => Ok(s@),
        Err(e) => Err(e.err@),
    }
}

fn env_error(key: &str, tail: &str) -> (r: ErrorWithHint)
    ensures
        r.err@ == "Env variable "@ + key@ + tail@,
        r.hint@.len() == 0,
{
    let mut err = String::from_str("Env variable ");
    err.append(key);
    err.append(tail);
    ErrorWithHint::plain(err)
}

/// Reads an optional variable: an unset one gives `None`, one that is not valid Unicode an
/// error.
pub fn getenv_optional(key: &str, value: EnvValue) -> (r: Result<Option<String>, ErrorWithHint>)
    ensures
        optional_text(r) == optional_var(key@, value),
        r is Err ==> r->Err_0.hint@.len() == 0,
{
    match value {
        EnvValue::Unset => Ok(None),
        EnvValue::NotUnicode => Err(env_error(key, " invalid")),
        EnvValue::Value(v) => Ok(Some(v)),
    }
}

/// Reads a required variable: unset or not valid Unicode is an error.
pub fn getenv_path(key: &str, value: EnvValue) -> (r: Result<String, ErrorWithHint>)
    ensures
        text_result(r) == required_var(key@, value),
        r is Err ==> r->Err_0.hint@.len() == 0,
{
    match getenv_optional(key, value) {
        Ok(Some(v)) => Ok(v),
        Ok(None) => Err(env_error(key, " unset")),
        Err(e) => Err(e),
    }
}

} // verus!
