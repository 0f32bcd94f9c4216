//! The JSON and TOON calls the runner makes on CLI output.

use vstd::prelude::*;

verus! {

#[verifier::external_type_specification]
#[verifier::external_body]
pub struct ExJsonValue(serde_json::Value);

#[verifier::external_type_specification]
#[verifier::external_body]
pub struct ExJsonError(serde_json::Error);

/// What `serde_json::from_str::<serde_json::Value>` gives for a text: the
/// parsed value, or the error. It depends on the text alone.
pub uninterp spec fn json_parse_of(text: Seq<char>) -> Result<serde_json::Value, serde_json::Error>;

/// The text that the `Display` impl of `serde_json::Error` writes for an error.
pub uninterp spec fn json_error_display(error: serde_json::Error) -> Seq<char>;

/// The text that `toon::encode` with default options gives for a value.
pub uninterp spec fn toon_encoding(value: serde_json::Value) -> Seq<char>;

/// What `serde_json::to_string_pretty` gives for a value: the pretty-printed
/// text, or `None` where it reports an error.
pub uninterp spec fn pretty_json_of(value: serde_json::Value) -> Option<Seq<char>>;

/// The compact text that the `Display` impl of `serde_json::Value` writes.
pub uninterp spec fn compact_json_of(value: serde_json::Value) -> Seq<char>;

/// Calls `serde_json::from_str::<serde_json::Value>`. Trusted: its result
/// is [`json_parse_of`] of the text; what that is for a given text is not
/// stated here.
#[verifier::external_body]
pub(crate) fn parse_json(text: &str) -> (r: Result<serde_json::Value, serde_json::Error>)
    ensures
        r == json_parse_of(text@),
{
    serde_json::from_str::<serde_json::Value>(text)
}

/// Renders a `serde_json::Error` through its `Display` impl. Trusted: the
/// text is [`json_error_display`] of the error; its wording is not stated.
#[verifier::external_body]
pub(crate) fn json_error_text(error: &serde_json::Error) -> (s: String)
    ensures
        s@ == json_error_display(*error),
{
    error.to_string()
}

/// Calls `toon::encode` with default options. Trusted: the text is
/// [`toon_encoding`] of the value; the TOON syntax itself is not stated.
#[verifier::external_body]
pub(crate) fn encode_toon(value: &serde_json::Value) -> (s: String)
    ensures
        s@ == toon_encoding(*value),
{
    toon::encode(value, None)
}

/// Calls `serde_json::to_string_pretty` on a value; its error becomes
/// `None`. Trusted: the result is [`pretty_json_of`] of the value; the
/// layout of the text is not stated.
#[verifier::external_body]
pub(crate) fn pretty_json_text(value: &serde_json::Value) -> (r: Option<String>)
    ensures
        r.deep_view() == pretty_json_of(*value),
{
    serde_json::to_string_pretty(value).ok()
}

/// Renders a value through the `Display` impl of `serde_json::Value`
/// (compact JSON). Trusted: the text is [`compact_json_of`] of the value.
/// The impl writes the value with `serde_json::to_writer`, which cannot
/// fail for a `Value` (its map keys are strings), so the call does not panic.
#[verifier::external_body]
pub(crate) fn compact_json_text(value: &serde_json::Value) -> (s: String)
    ensures
        s@ == compact_json_of(*value),
{
    value.to_string()
}

} // verus!
