//! Normalising the free-text fields of requests: surrounding white space is
//! dropped, and the rest must not be longer than the field's cap.

use vstd::prelude::*;

use super::error::ApiError;
use crate::text::{chars_of, concat2, concat3, decimal, decimal_text, opt_view, owned, trim, trim_ws};

verus! {

/// Why the field `field` whose trimmed text is `trimmed` is refused under the
/// cap `max_len`: empty, or longer than the cap; `None` when it is accepted.
pub open spec fn field_problem(field: Seq<char>, trimmed: Seq<char>, max_len: usize) -> Option<Seq<char>> {
    if trimmed.len() == 0 {
        Some(field + " must not be empty"@)
    } else if trimmed.len() > max_len {
        Some(field + " must be at most "@ + decimal_text(max_len as nat) + " characters"@)
    } else {
        None
    }
}

/// The normalised text of a required field, or the message of its refusal.
pub open spec fn normalised_required(field: Seq<char>, value: Seq<char>, max_len: usize) -> Result<Seq<char>, Seq<char>> {
    match field_problem(field, trim_ws(value), max_len) {
        None => Ok(trim_ws(value)),
        Some(m) => Err(m),
    }
}

/// The normalised text of an optional field (absent or blank is absent), or the
/// message of its refusal.
pub open spec fn normalised_optional(field: Seq<char>, value: Option<Seq<char>>, max_len: usize) -> Result<
    Option<Seq<char>>,
    Seq<char>,
> {
    match value {
        None => Ok(None),
        Some(v) => if trim_ws(v).len() == 0 {
            Ok(None)
        } else {
            match field_problem(field, trim_ws(v), max_len) {
                None => Ok(Some(trim_ws(v))),
                Some(m) => Err(m),
            }
        },
    }
}

/// `r` is the outcome `n` of normalising a required field: the text, or invalid
/// input with the message.
pub open spec fn required_outcome(r: Result<String, ApiError>, n: Result<Seq<char>, Seq<char>>) -> bool {
    match n {
        Ok(t) => r matches Ok(s) && s@ == t,
        Err(m) => r matches Err(ApiError::InvalidInput { details }) && details@ == m,
    }
}

/// `r` is the outcome `n` of normalising an optional field.
pub open spec fn optional_outcome(r: Result<Option<String>, ApiError>, n: Result<Option<Seq<char>>, Seq<char>>) -> bool {
    match n {
        Ok(None) => r matches Ok(None),
        Ok(Some(t)) => r matches Ok(Some(s)) && s@ == t,
        Err(m) => r matches Err(ApiError::InvalidInput { details }) && details@ == m,
    }
}

fn too_long(field: &str, max_len: usize) -> (r: ApiError)
    ensures
        r matches ApiError::InvalidInput { details } && details@ == field@ + " must be at most "@ + decimal_text(
            max_len as nat,
        ) + " characters"@,
{
    let cap = decimal(max_len as u64);
    let head = concat3(field, " must be at most ", cap.as_str());
    ApiError::InvalidInput { details: concat2(head.as_str(), " characters") }
}

/// A required field: its text without surrounding white space, which must be
/// neither empty nor longer than `max_len` characters (else invalid input
/// naming the field).
pub fn normalise_required(field: &str, value: &str, max_len: usize) -> (r: Result<String, ApiError>)
    ensures
        required_outcome(r, normalised_required(field@, value@, max_len)),
{
    let t = trim(value);
    let n = chars_of(t).len();
    if n == 0 {
        return Err(ApiError::InvalidInput { details: concat2(field, " must not be empty") });
    }
    if n > max_len {
        return Err(too_long(field, max_len));
    }
    Ok(owned(t))
}

/// An optional field: absent, or blank once trimmed, is absent; otherwise its
/// trimmed text, which must not be longer than `max_len` characters (else
/// invalid input naming the field).
pub fn normalise_optional(field: &str, value: Option<&str>, max_len: usize) -> (r: Result<Option<String>, ApiError>)
    ensures
        optional_outcome(r, normalised_optional(field@, opt_view(value), max_len)),
{
    match value {
        None => Ok(None),
        Some(v) => {
            let t = trim(v);
            let n = chars_of(t).len();
            if n == 0 {
                Ok(None)
            } else if n > max_len {
                Err(too_long(field, max_len))
            } else {
                Ok(Some(owned(t)))
            }
        },
    }
}

} // verus!
