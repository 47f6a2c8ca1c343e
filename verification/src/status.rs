//! HTTP status codes, as the registry's replies carry them.

use vstd::prelude::*;
use vstd::string::StringExecFns;

verus! {

/// The text that `reqwest::StatusCode` prints for a status code between 100
/// and 999: the number, a space, and the reason phrase that the crate's table
/// holds for it.
pub uninterp spec fn status_line(code: u16) -> Seq<char>;

/// A number that can be an HTTP status code.
pub open spec fn valid_status(code: u16) -> bool {
    100 <= code <= 999
}

/// A status that reports success: 200 to 299.
pub open spec fn success_status(code: u16) -> bool {
    200 <= code < 300
}

/// How a status is named in an error message.
pub open spec fn spec_describe_status(code: u16) -> Seq<char> {
    if valid_status(code) {
        status_line(code)
    } else {
        "<invalid status code>"@
    }
}

/// Calls `reqwest::StatusCode::from_u16` and, on the status it gives,
/// `StatusCode::is_success` and the crate's `Display`. The first accepts
/// exactly the codes from 100 to 999; the second holds exactly of the codes
/// from 200 to 299; the text that the third prints depends on the code alone.
#[verifier::external_body]
fn read_status(code: u16) -> (status: Option<(bool, String)>)
    ensures
        status.is_some() == valid_status(code),
        status matches Some(facts) ==> facts.0 == success_status(code) && facts.1@
            == status_line(code),
{
    match reqwest::StatusCode::from_u16(code) {
        Ok(status) => Some((status.is_success(), status.to_string())),
        Err(_) => None,
    }
}

/// Whether a reply with this status counts as a success.
pub fn is_success_status(code: u16) -> (success: bool)
    ensures
        success == success_status(code),
{
    match read_status(code) {
        Some(facts) => facts.0,
        None => false,
    }
}

/// The status as an error message names it.
pub fn describe_status(code: u16) -> (text: String)
    ensures
        text@ == spec_describe_status(code),
{
    match read_status(code) {
        Some(facts) => facts.1,
        None => String::from_str("<invalid status code>"),
    }
}

/// The message of a call that the registry answered with a failing status.
pub open spec fn spec_failure_message(prefix: Seq<char>, code: u16) -> Seq<char> {
    prefix + spec_describe_status(code)
}

/// The prefix followed by the status line, or by a stand-in where the status
/// has none.
pub open spec fn spec_failure_text(prefix: Seq<char>, line: Option<Seq<char>>) -> Seq<char> {
    match line {
        Some(text) => prefix + text,
        None => prefix + "<invalid status code>"@,
    }
}

/// Builds a failure message from its prefix and the status line, if the
/// status has one.
pub fn failure_text(prefix: &str, line: Option<String>) -> (message: String)
    ensures
        message@ == spec_failure_text(
            prefix@,
            match line {
                Some(text) => Some(text@),
                None => None,
            },
        ),
{
    match line {
        Some(text) => String::from_str(prefix).concat(text.as_str()),
        None => String::from_str(prefix).concat("<invalid status code>"),
    }
}

/// Builds the message of a call that the registry answered with `code`:
/// the prefix, then the status.
pub fn failure_message(prefix: &str, code: u16) -> (message: String)
    ensures
        message@ == spec_failure_message(prefix@, code),
{
    let line = match read_status(code) {
        Some(facts) => Some(facts.1),
        None => None,
    };
    failure_text(prefix, line)
}

} // verus!
