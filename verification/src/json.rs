//! The boundary to `serde_json`: its types, names for what its functions
//! return, and one thin function per call. Nothing here is proved; every other
//! module is proved from what is stated here.

use vstd::prelude::*;

verus! {

/// `serde_json::Value`, a JSON tree. Its inside is not looked at here: a value
/// is obtained from the parser and handed back to the printer.
#[verifier::external_type_specification]
#[verifier::external_body]
pub struct ExValue(serde_json::Value);

/// `serde_json::Error`, what the parser and the printer report on failure.
#[verifier::external_type_specification]
#[verifier::external_body]
pub struct ExError(serde_json::Error);

/// What `serde_json::from_reader` returns for a reader that yields exactly
/// `text`: the parsed tree, or the parser's error.
pub uninterp spec fn json_parse(text: Seq<u8>) -> Result<serde_json::Value, serde_json::Error>;

/// The compact JSON text that `serde_json::to_string` produces for `value`.
pub uninterp spec fn json_text(value: serde_json::Value) -> Seq<char>;

/// The diagnostic text that the `Display` impl of `serde_json::Error` writes
/// for `error`.
pub uninterp spec fn json_error_text(error: serde_json::Error) -> Seq<char>;

/// Calls `serde_json::from_reader` with `bytes` as the reader and
/// `serde_json::Value` as the target. Trusted: the outcome depends on the
/// bytes alone, so it is the one that `json_parse` names. Nothing is claimed
/// about which texts parse.
#[verifier::external_body]
pub(crate) fn parse_json(bytes: &[u8]) -> (outcome: Result<serde_json::Value, serde_json::Error>)
    ensures
        outcome == json_parse(bytes@),
{
    serde_json::from_reader(bytes)
}

/// Calls `serde_json::to_string` on `value`. Trusted, in two parts. The text
/// depends on the value alone, so it is the one that `json_text` names; nothing
/// is claimed about what it holds. And the call succeeds: the printer fails
/// only where the writer fails, where the value's own `Serialize` impl reports
/// an error, or on a map key that is not a string; here the writer is a
/// vector in memory, the impl for `serde_json::Value` reports none of its own,
/// and the keys of its objects are strings.
#[verifier::external_body]
pub(crate) fn render_json(value: &serde_json::Value) -> (outcome: Result<String, serde_json::Error>)
    ensures
        outcome is Ok,
        outcome matches Ok(text) ==> text@ == json_text(*value),
{
    serde_json::to_string(value)
}

/// Formats `error` through the `Display` impl of `serde_json::Error`.
/// Trusted: the text depends on the error alone, so it is the one that
/// `json_error_text` names.
#[verifier::external_body]
pub(crate) fn error_text(error: &serde_json::Error) -> (text: String)
    ensures
        text@ == json_error_text(*error),
{
    error.to_string()
}

} // verus!
