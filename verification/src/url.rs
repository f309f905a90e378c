//! The address of a call: a plain prefix that the library writes itself, and
//! the query parameters that the URL parser appends and encodes.

use vstd::prelude::*;
use vstd::string::StringExecFns;

use crate::params::{pairs_of, Parameters};
use crate::{ErrorView, HolidayAPIError, text_outcome};

verus! {

/// The address that the URL parser makes of the absolute URL `input` with the
/// pairs of `parameters` appended to its query, in their order; `None` where
/// `input` is no absolute URL.
pub uninterp spec fn parsed_with_params(
    input: Seq<char>,
    parameters: Seq<(Seq<char>, Seq<char>)>,
) -> Option<Seq<char>>;

/// An optional text by its view.
pub open spec fn text_option(text: Option<String>) -> Option<Seq<char>> {
    match text {
        Some(text) => Some(text@),
        None => None,
    }
}

/// What is reported for an address that the parser refuses.
pub open spec fn refused_message(input: Seq<char>) -> Seq<char> {
    "not an absolute URL: "@ + input
}

/// The address or the error that comes of a parser's answer.
pub open spec fn address_result(input: Seq<char>, parsed: Option<Seq<char>>) -> Result<
    Seq<char>,
    ErrorView,
> {
    match parsed {
        Some(address) => Ok(address),
        None => Err(ErrorView::TransportError(refused_message(input))),
    }
}

/// Calls `reqwest::Url::parse_with_params` and hands back the serialization
/// of the URL it returns, or `None` for its parse error.
///
/// Trusted: the call reads nothing but its two arguments, so its answer is a
/// function of them. Nothing is claimed of what that function is.
#[verifier::external_body]
fn parse_with_params(input: &str, parameters: &Vec<(String, String)>) -> (address: Option<String>)
    ensures
        text_option(address) == parsed_with_params(input@, pairs_of(parameters@)),
{
    match reqwest::Url::parse_with_params(input, parameters) {
        Ok(url) => Some(String::from(url)),
        Err(_) => None,
    }
}

/// Turns the parser's answer for `input` into the address of the call, or
/// into the error that reports the refusal.
pub fn address_outcome(input: &str, parsed: Option<String>) -> (outcome: Result<
    String,
    HolidayAPIError,
>)
    ensures
        text_outcome(outcome) == address_result(input@, text_option(parsed)),
{
    match parsed {
        Some(address) => Ok(address),
        None => Err(
            HolidayAPIError::TransportError(
                String::from_str("not an absolute URL: ").concat(input),
            ),
        ),
    }
}

/// The address made of `input` and the parameters, in the order in which
/// their names were first set.
pub fn address_with(input: &str, parameters: &Parameters) -> (outcome: Result<
    String,
    HolidayAPIError,
>)
    ensures
        text_outcome(outcome) == address_result(
            input@,
            parsed_with_params(input@, parameters.pairs()),
        ),
{
    let parsed = parse_with_params(input, parameters.entries());
    address_outcome(input, parsed)
}

} // verus!
