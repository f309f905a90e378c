//! A typed, transport-free client for the Holiday API.
//!
//! The library validates credentials, accumulates query parameters, composes
//! the address of each call and interprets what the transport brings back.
//! Sending the request is left to the caller.

pub mod key;
pub mod params;
pub mod prelude;
pub mod requests;
pub mod responses;
pub mod text;
pub mod transport;
pub mod url;

use vstd::prelude::*;
use vstd::string::StringExecFns;

use crate::key::{has_key_shape, matches_key_pattern};
use crate::params::{distinct_names, Parameters};
use crate::requests::{
    CountriesRequest, Endpoint, HolidaysRequest, LanguagesRequest, RequestView, WorkdayRequest,
    WorkdaysRequest,
};
use crate::text::{decimal, i32_to_string, u64_to_string};
use crate::transport::{reply_result, status_is_success, Reply, UNAUTHORIZED};
use crate::url::{address_result, address_with, parsed_with_params};

verus! {

/// What can go wrong between a key string and a decoded response.
#[derive(Debug, Clone, PartialEq, Eq)]
pub enum HolidayAPIError {
    /// The key does not have the shape of a key; holds the key.
    InvalidKeyFormat(String),
    /// The service answered 401 to this key; holds the key.
    InvalidOrExpiredKey(String),
    /// The version is not a supported one; holds the explanation.
    InvalidVersion(String),
    /// The call did not bring back a success status; holds the reason.
    TransportError(String),
    /// The body is not the expected JSON; holds the decoder's message.
    DecodeError(String),
}

/// An error with its text as a sequence of characters.
pub enum ErrorView {
    InvalidKeyFormat(Seq<char>),
    InvalidOrExpiredKey(Seq<char>),
    InvalidVersion(Seq<char>),
    TransportError(Seq<char>),
    DecodeError(Seq<char>),
}

impl ErrorView {
    /// The line that describes the error to a reader.
    pub open spec fn message(self) -> Seq<char> {
        match self {
            ErrorView::InvalidKeyFormat(key) => "Invalid key: "@ + key,
            ErrorView::InvalidOrExpiredKey(key) => "Invalid or expired key: "@ + key,
            ErrorView::InvalidVersion(detail) => "Invalid version: "@ + detail,
            ErrorView::TransportError(detail) => "Transport error: "@ + detail,
            ErrorView::DecodeError(detail) => "Decode error: "@ + detail,
        }
    }
}

impl View for HolidayAPIError {
    type V = ErrorView;

    open spec fn view(&self) -> ErrorView {
        match self {
            HolidayAPIError::InvalidKeyFormat(key) => ErrorView::InvalidKeyFormat(key@),
            HolidayAPIError::InvalidOrExpiredKey(key) => ErrorView::InvalidOrExpiredKey(key@),
            HolidayAPIError::InvalidVersion(detail) => ErrorView::InvalidVersion(detail@),
            HolidayAPIError::TransportError(detail) => ErrorView::TransportError(detail@),
            HolidayAPIError::DecodeError(detail) => ErrorView::DecodeError(detail@),
        }
    }
}

impl HolidayAPIError {
    /// The line that describes the error to a reader.
    pub fn to_string(&self) -> (line: String)
        ensures
            line@ == self@.message(),
    {
        match self {
            HolidayAPIError::InvalidKeyFormat(key) => String::from_str("Invalid key: ").concat(
                key.as_str(),
            ),
            HolidayAPIError::InvalidOrExpiredKey(key) => String::from_str(
                "Invalid or expired key: ",
            ).concat(key.as_str()),
            HolidayAPIError::InvalidVersion(detail) => String::from_str(
                "Invalid version: ",
            ).concat(detail.as_str()),
            HolidayAPIError::TransportError(detail) => String::from_str(
                "Transport error: ",
            ).concat(detail.as_str()),
            HolidayAPIError::DecodeError(detail) => String::from_str("Decode error: ").concat(
                detail.as_str(),
            ),
        }
    }
}

/// A text or an error, by their views.
pub open spec fn text_outcome(outcome: Result<String, HolidayAPIError>) -> Result<
    Seq<char>,
    ErrorView,
> {
    match outcome {
        Ok(text) => Ok(text@),
        Err(error) => Err(error@),
    }
}

/// The one version of the service that the library speaks.
pub const SUPPORTED_VERSION: i32 = 1;

/// Whether `version` is a version that the library speaks.
pub open spec fn is_supported_version(version: int) -> bool {
    version == SUPPORTED_VERSION
}

/// The address under which version `version` of the service lives.
pub open spec fn base_url_for(version: int) -> Seq<char> {
    "https://holidayapi.com/v"@ + decimal(version) + "/"@
}

/// What an unsupported version is answered with.
pub open spec fn version_message(version: int) -> Seq<char> {
    "Invalid version: "@ + decimal(version) + ", please choose: [1]"@
}

/// Version 1 lives under `https://holidayapi.com/v1/`.
pub proof fn lemma_base_url_v1()
    ensures
        base_url_for(1) == "https://holidayapi.com/v1/"@,
{
    reveal_strlit("https://holidayapi.com/v");
    reveal_strlit("/");
    reveal_strlit("https://holidayapi.com/v1/");
    assert(decimal(1) =~= seq!['1']);
    assert(base_url_for(1) =~= "https://holidayapi.com/v1/"@);
}

/// The address of a call before its parameters: the base address, the path
/// of the endpoint and the key.
pub open spec fn request_head(api: ClientView, endpoint: Endpoint) -> Seq<char> {
    api.base_url + endpoint.path_text() + "?key="@ + api.key
}

/// The address of a call, or the error that reports that none can be made.
pub open spec fn request_result(
    api: ClientView,
    endpoint: Endpoint,
    parameters: Seq<(Seq<char>, Seq<char>)>,
) -> Result<Seq<char>, ErrorView> {
    address_result(
        request_head(api, endpoint),
        parsed_with_params(request_head(api, endpoint), parameters),
    )
}

/// A client handle by its two texts.
pub struct ClientView {
    pub base_url: Seq<char>,
    pub key: Seq<char>,
}

/// A handle on the service: the address of the supported version and a key
/// of valid shape. Neither changes after construction.
#[derive(Debug)]
pub struct HolidayAPI {
    base_url: String,
    key: String,
}

impl View for HolidayAPI {
    type V = ClientView;

    closed spec fn view(&self) -> ClientView {
        ClientView { base_url: self.base_url@, key: self.key@ }
    }
}

impl HolidayAPI {
    #[verifier::type_invariant]
    spec fn well_formed(&self) -> bool {
        &&& has_key_shape(self.key@)
        &&& self.base_url@ == base_url_for(SUPPORTED_VERSION as int)
    }

    /// Accepts the keys of valid shape and no others. The service is not asked.
    pub fn is_valid_key(key: &str) -> (answer: Result<(), HolidayAPIError>)
        ensures
            answer is Ok <==> has_key_shape(key@),
            answer matches Err(error) ==> error@ == ErrorView::InvalidKeyFormat(key@),
    {
        if matches_key_pattern(key) {
            Ok(())
        } else {
            Err(HolidayAPIError::InvalidKeyFormat(String::from_str(key)))
        }
    }

    /// Accepts the supported version and no other.
    pub fn is_valid_version(version: &i32) -> (answer: Result<(), HolidayAPIError>)
        ensures
            answer is Ok <==> is_supported_version(*version as int),
            answer matches Err(error) ==> error@ == ErrorView::InvalidVersion(
                version_message(*version as int),
            ),
    {
        if *version != SUPPORTED_VERSION {
            let detail = String::from_str("Invalid version: ").concat(
                i32_to_string(*version).as_str(),
            ).concat(", please choose: [1]");
            Err(HolidayAPIError::InvalidVersion(detail))
        } else {
            Ok(())
        }
    }

    fn construct_api(key: &str, version: i32) -> (api: HolidayAPI)
        requires
            has_key_shape(key@),
            is_supported_version(version as int),
        ensures
            api@ == (ClientView { base_url: base_url_for(version as int), key: key@ }),
    {
        let base_url = String::from_str("https://holidayapi.com/v").concat(
            i32_to_string(version).as_str(),
        ).concat("/");
        HolidayAPI { base_url, key: String::from_str(key) }
    }

    /// A handle for `key` on version 1 of the service.
    pub fn new(key: &str) -> (outcome: Result<HolidayAPI, HolidayAPIError>)
        ensures
            outcome is Ok <==> has_key_shape(key@),
            outcome matches Ok(api) ==> api@ == (ClientView {
                base_url: "https://holidayapi.com/v1/"@,
                key: key@,
            }),
            outcome matches Err(error) ==> error@ == ErrorView::InvalidKeyFormat(key@),
    {
        match Self::is_valid_key(key) {
            Ok(()) => {
                proof {
                    lemma_base_url_v1();
                }
                Ok(Self::construct_api(key, SUPPORTED_VERSION))
            },
            Err(error) => Err(error),
        }
    }

    /// A handle for `key` on version `version` of the service. The key is
    /// looked at first, then the version.
    pub fn with_version(key: &str, version: i32) -> (outcome: Result<HolidayAPI, HolidayAPIError>)
        ensures
            outcome is Ok <==> has_key_shape(key@) && is_supported_version(version as int),
            outcome matches Ok(api) ==> api@ == (ClientView {
                base_url: "https://holidayapi.com/v1/"@,
                key: key@,
            }) && api@.base_url == base_url_for(version as int),
            outcome matches Err(error) ==> error@ == if has_key_shape(key@) {
                ErrorView::InvalidVersion(version_message(version as int))
            } else {
                ErrorView::InvalidKeyFormat(key@)
            },
            has_key_shape(key@) && version != 1 ==> outcome is Err
                && outcome->Err_0 is InvalidVersion,
    {
        match Self::is_valid_key(key) {
            Ok(()) => {},
            Err(error) => {
                return Err(error);
            },
        }
        match Self::is_valid_version(&version) {
            Ok(()) => {},
            Err(error) => {
                return Err(error);
            },
        }
        proof {
            lemma_base_url_v1();
        }
        Ok(Self::construct_api(key, version))
    }

    /// The address to send a GET to, for a call of `endpoint` with `parameters`.
    pub fn request(&self, endpoint: Endpoint, parameters: &Parameters) -> (outcome: Result<
        String,
        HolidayAPIError,
    >)
        ensures
            text_outcome(outcome) == request_result(self@, endpoint, parameters.pairs()),
    {
        let head = self.base_url.clone().concat(endpoint.path()).concat("?key=").concat(
            self.key.as_str(),
        );
        address_with(head.as_str(), parameters)
    }

    /// What the reply to a call means: the body of a success as it came, an
    /// expired key for 401, a transport error for everything else.
    pub fn response(&self, reply: Reply) -> (outcome: Result<String, HolidayAPIError>)
        ensures
            text_outcome(outcome) == reply_result(self@.key, reply),
    {
        match reply {
            Reply::Response { status, body } => {
                if status_is_success(status) {
                    Ok(body)
                } else if status == UNAUTHORIZED {
                    Err(HolidayAPIError::InvalidOrExpiredKey(self.key.clone()))
                } else {
                    let detail = String::from_str("HTTP status ").concat(
                        u64_to_string(status as u64).as_str(),
                    );
                    Err(HolidayAPIError::TransportError(detail))
                }
            },
            Reply::Failure { reason } => Err(HolidayAPIError::TransportError(reason)),
        }
    }

    /// A request for the countries that the service knows.
    pub fn countries(&self) -> (request: CountriesRequest)
        ensures
            request@ == (RequestView {
                api: self@,
                endpoint: Endpoint::Countries,
                parameters: Seq::empty(),
            }),
            distinct_names(request@.parameters),
    {
        CountriesRequest::new(self)
    }

    /// A request for the holidays of `country` in `year`.
    pub fn holidays(&self, country: &str, year: i32) -> (request: HolidaysRequest)
        ensures
            request@ == (RequestView {
                api: self@,
                endpoint: Endpoint::Holidays,
                parameters: seq![("country"@, country@), ("year"@, decimal(year as int))],
            }),
            distinct_names(request@.parameters),
    {
        HolidaysRequest::new(self, String::from_str(country), year)
    }

    /// A request for the working day that lies `days` working days after
    /// `start` in `country`.
    pub fn workday(&self, country: &str, start: &str, days: i32) -> (request: WorkdayRequest)
        ensures
            request@ == (RequestView {
                api: self@,
                endpoint: Endpoint::Workday,
                parameters: seq![
                    ("country"@, country@),
                    ("start"@, start@),
                    ("days"@, decimal(days as int)),
                ],
            }),
            distinct_names(request@.parameters),
    {
        WorkdayRequest::new(self, country, start, days)
    }

    /// A request for the number of working days from `start` to `end` in
    /// `country`.
    pub fn workdays(&self, country: &str, start: &str, end: &str) -> (request: WorkdaysRequest)
        ensures
            request@ == (RequestView {
                api: self@,
                endpoint: Endpoint::Workdays,
                parameters: seq![("country"@, country@), ("start"@, start@), ("end"@, end@)],
            }),
            distinct_names(request@.parameters),
    {
        WorkdaysRequest::new(self, country, start, end)
    }

    /// A request for the languages that the service knows.
    pub fn languages(&self) -> (request: LanguagesRequest)
        ensures
            request@ == (RequestView {
                api: self@,
                endpoint: Endpoint::Languages,
                parameters: Seq::empty(),
            }),
            distinct_names(request@.parameters),
    {
        LanguagesRequest::new(self)
    }

    /// The address of the service, up to and including the version.
    pub fn base_url(&self) -> (text: &str)
        ensures
            text@ == self@.base_url,
            text@ == "https://holidayapi.com/v1/"@,
    {
        proof {
            use_type_invariant(self);
            lemma_base_url_v1();
        }
        self.base_url.as_str()
    }

    /// The key that the handle was made with.
    pub fn key(&self) -> (text: &str)
        ensures
            text@ == self@.key,
            has_key_shape(text@),
    {
        proof {
            use_type_invariant(self);
        }
        self.key.as_str()
    }
}

impl Clone for HolidayAPI {
    fn clone(&self) -> (copy: Self)
        ensures
            copy@ == self@,
    {
        proof {
            use_type_invariant(self);
        }
        HolidayAPI { base_url: self.base_url.clone(), key: self.key.clone() }
    }
}

} // verus!
