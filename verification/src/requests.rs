//! Request builders: one kind of request per endpoint, each a client handle
//! with the query parameters set so far.

use core::marker::PhantomData;
use vstd::prelude::*;

use crate::params::{distinct_names, lemma_upsert_commutes, to_map, upsert, Parameters};
use crate::responses::{
    CountriesResponse, Country, Date, Holiday, HolidaysResponse, Language, LanguagesResponse,
    WorkdayResponse, WorkdaysResponse,
};
use crate::text::{decimal, flag_str, flag_text, i32_to_string};
use crate::transport::{reply_result, Reply};
use crate::{request_result, text_outcome, ClientView, ErrorView, HolidayAPI, HolidayAPIError};

verus! {

/// The endpoints of the service.
#[derive(Debug, Clone, Copy, PartialEq, Eq)]
pub enum Endpoint {
    Countries,
    Holidays,
    Workday,
    Workdays,
    Languages,
}

impl Endpoint {
    /// The path segment of the endpoint: its name in lower case.
    pub open spec fn path_text(self) -> Seq<char> {
        match self {
            Endpoint::Countries => "countries"@,
            Endpoint::Holidays => "holidays"@,
            Endpoint::Workday => "workday"@,
            Endpoint::Workdays => "workdays"@,
            Endpoint::Languages => "languages"@,
        }
    }

    /// The path segment of the endpoint.
    pub fn path(&self) -> (segment: &'static str)
        ensures
            segment@ == self.path_text(),
    {
        match self {
            Endpoint::Countries => "countries",
            Endpoint::Holidays => "holidays",
            Endpoint::Workday => "workday",
            Endpoint::Workdays => "workdays",
            Endpoint::Languages => "languages",
        }
    }
}

/// A request by what it stands for: whose it is, where it goes, and the
/// parameters in the order in which their names were first set.
pub struct RequestView {
    pub api: ClientView,
    pub endpoint: Endpoint,
    pub parameters: Seq<(Seq<char>, Seq<char>)>,
}

impl RequestView {
    /// The request with `name` set to `value`.
    pub open spec fn with(self, name: Seq<char>, value: Seq<char>) -> RequestView {
        RequestView {
            api: self.api,
            endpoint: self.endpoint,
            parameters: upsert(self.parameters, name, value),
        }
    }

    /// The parameters as a mapping from names to values.
    pub open spec fn mapping(self) -> Map<Seq<char>, Seq<char>> {
        to_map(self.parameters)
    }
}

/// Two setters of different names give the same parameter mapping in either
/// order, and touch nothing else of the request.
pub proof fn lemma_setters_commute(
    request: RequestView,
    first: Seq<char>,
    first_value: Seq<char>,
    second: Seq<char>,
    second_value: Seq<char>,
)
    requires
        distinct_names(request.parameters),
        first != second,
    ensures
        request.with(first, first_value).with(second, second_value).mapping() == request.with(
            second,
            second_value,
        ).with(first, first_value).mapping(),
        request.with(first, first_value).with(second, second_value).api == request.api,
        request.with(first, first_value).with(second, second_value).endpoint == request.endpoint,
{
    lemma_upsert_commutes(request.parameters, first, first_value, second, second_value);
}

/// `public` then `pretty` gives the same parameter mapping as `pretty` then
/// `public`, whatever the two flags are.
pub proof fn lemma_public_pretty_commute(request: RequestView, public: bool, pretty: bool)
    requires
        distinct_names(request.parameters),
    ensures
        request.with("public"@, flag_text(public)).with("pretty"@, flag_text(pretty)).mapping()
            == request.with("pretty"@, flag_text(pretty)).with(
            "public"@,
            flag_text(public),
        ).mapping(),
{
    reveal_strlit("public");
    reveal_strlit("pretty");
    assert("public"@[1] != "pretty"@[1]);
    lemma_setters_commute(
        request,
        "public"@,
        flag_text(public),
        "pretty"@,
        flag_text(pretty),
    );
}

/// A decoded envelope or an error, by the error's view.
pub open spec fn outcome_view<V>(outcome: Result<V, HolidayAPIError>) -> Result<V, ErrorView> {
    match outcome {
        Ok(value) => Ok(value),
        Err(error) => Err(error@),
    }
}

/// What a reply and the decoding of its body mean to a client that holds
/// `key`: the error of the reply if it is none of success, else the decoded
/// envelope, else the decoder's complaint.
pub open spec fn full_result<V>(key: Seq<char>, reply: Reply, decoded: Result<V, String>) -> Result<
    V,
    ErrorView,
> {
    match reply_result(key, reply) {
        Err(error) => Err(error),
        Ok(_) => match decoded {
            Ok(envelope) => Ok(envelope),
            Err(complaint) => Err(ErrorView::DecodeError(complaint@)),
        },
    }
}

/// A request to the endpoint whose envelope is `T`.
#[derive(Debug)]
pub struct Request<T> {
    parameters: Parameters,
    api: HolidayAPI,
    endpoint: Endpoint,
    _marker: PhantomData<T>,
}

pub type CountriesRequest = Request<CountriesResponse>;

pub type HolidaysRequest = Request<HolidaysResponse>;

pub type WorkdayRequest = Request<WorkdayResponse>;

pub type WorkdaysRequest = Request<WorkdaysResponse>;

pub type LanguagesRequest = Request<LanguagesResponse>;

impl<T> View for Request<T> {
    type V = RequestView;

    closed spec fn view(&self) -> RequestView {
        RequestView {
            api: self.api@,
            endpoint: self.endpoint,
            parameters: self.parameters.pairs(),
        }
    }
}

impl<T> Request<T> {
    #[verifier::type_invariant]
    spec fn names_are_distinct(&self) -> bool {
        distinct_names(self.parameters.pairs())
    }

    /// A request of `api` to `endpoint` with no parameter set.
    fn start(api: &HolidayAPI, endpoint: Endpoint) -> (request: Self)
        ensures
            request@ == (RequestView { api: api@, endpoint, parameters: Seq::empty() }),
            distinct_names(request@.parameters),
    {
        Request { parameters: Parameters::new(), api: api.clone(), endpoint, _marker: PhantomData }
    }

    /// The request with `name` set to `value`.
    fn set(self, name: &str, value: &str) -> (request: Self)
        ensures
            request@ == self@.with(name@, value@),
            distinct_names(request@.parameters),
    {
        Request {
            parameters: self.parameters.insert(name, value),
            api: self.api,
            endpoint: self.endpoint,
            _marker: PhantomData,
        }
    }

    /// Response format (csv, json, php, tsv, yaml and xml). The service
    /// answers in JSON if none is set. Only `get_raw` honours it.
    pub fn format(self, format: &str) -> (request: Self)
        ensures
            request@ == self@.with("format"@, format@),
            distinct_names(request@.parameters),
    {
        self.set("format", format)
    }

    /// Asks for results that are laid out for a human reader.
    pub fn pretty(self, pretty: bool) -> (request: Self)
        ensures
            request@ == self@.with("pretty"@, flag_text(pretty)),
            distinct_names(request@.parameters),
    {
        self.set("pretty", flag_str(pretty))
    }

    /// The client that the request belongs to.
    pub fn api(&self) -> (api: &HolidayAPI)
        ensures
            api@ == self@.api,
    {
        &self.api
    }

    /// The endpoint that the request goes to.
    pub fn endpoint(&self) -> (endpoint: Endpoint)
        ensures
            endpoint == self@.endpoint,
    {
        self.endpoint
    }

    /// The parameters set so far.
    pub fn parameters(&self) -> (parameters: &Parameters)
        ensures
            parameters.pairs() == self@.parameters,
            parameters@ == self@.mapping(),
            distinct_names(self@.parameters),
    {
        proof {
            use_type_invariant(self);
            self.parameters.lemma_view();
        }
        &self.parameters
    }

    /// The address to fetch for `get_raw`: the parameters as they are.
    pub fn url(&self) -> (outcome: Result<String, HolidayAPIError>)
        ensures
            text_outcome(outcome) == request_result(
                self@.api,
                self@.endpoint,
                self@.parameters,
            ),
    {
        self.api.request(self.endpoint, &self.parameters)
    }

    /// The address to fetch for `get_full` and `get`: the parameters with
    /// `format` set to `json`, whatever it was set to.
    pub fn json_url(&self) -> (outcome: Result<String, HolidayAPIError>)
        ensures
            text_outcome(outcome) == request_result(
                self@.api,
                self@.endpoint,
                upsert(self@.parameters, "format"@, "json"@),
            ),
    {
        let parameters = self.parameters.duplicate().insert("format", "json");
        self.api.request(self.endpoint, &parameters)
    }

    /// The body of the reply to this request, as it came.
    pub fn get_raw(self, reply: Reply) -> (outcome: Result<String, HolidayAPIError>)
        ensures
            text_outcome(outcome) == reply_result(self@.api.key, reply),
    {
        self.api.response(reply)
    }

    /// The envelope that the body of the reply decodes to. `decoded` is what
    /// the decoder made of the body; it is looked at for a success only.
    pub fn get_full(self, reply: Reply, decoded: Result<T, String>) -> (outcome: Result<
        T,
        HolidayAPIError,
    >)
        ensures
            outcome_view(outcome) == full_result(self@.api.key, reply, decoded),
    {
        match self.api.response(reply) {
            Err(error) => Err(error),
            Ok(_) => match decoded {
                Ok(envelope) => Ok(envelope),
                Err(complaint) => Err(HolidayAPIError::DecodeError(complaint)),
            },
        }
    }
}

impl<T> Clone for Request<T> {
    fn clone(&self) -> (copy: Self)
        ensures
            copy@ == self@,
    {
        proof {
            use_type_invariant(self);
        }
        Request {
            parameters: self.parameters.duplicate(),
            api: self.api.clone(),
            endpoint: self.endpoint,
            _marker: PhantomData,
        }
    }
}

impl Request<CountriesResponse> {
    /// A request for all countries.
    pub fn new(api: &HolidayAPI) -> (request: Self)
        ensures
            request@ == (RequestView {
                api: api@,
                endpoint: Endpoint::Countries,
                parameters: Seq::empty(),
            }),
            distinct_names(request@.parameters),
    {
        Self::start(api, Endpoint::Countries)
    }

    /// Return only the country with the specified code.
    pub fn country(self, country: &str) -> (request: Self)
        ensures
            request@ == self@.with("country"@, country@),
            distinct_names(request@.parameters),
    {
        self.set("country", country)
    }

    /// Search countries by code and name. Minimum 2 characters.
    pub fn search(self, search: &str) -> (request: Self)
        ensures
            request@ == self@.with("search"@, search@),
            distinct_names(request@.parameters),
    {
        self.set("search", search)
    }

    /// Return only countries that have public holidays.
    pub fn public(self, public: bool) -> (request: Self)
        ensures
            request@ == self@.with("public"@, flag_text(public)),
            distinct_names(request@.parameters),
    {
        self.set("public", flag_str(public))
    }

    /// The countries of the envelope that the reply decodes to.
    pub fn get(self, reply: Reply, decoded: Result<CountriesResponse, String>) -> (outcome: Result<
        Vec<Country>,
        HolidayAPIError,
    >)
        ensures
            outcome_view(outcome) == match full_result(self@.api.key, reply, decoded) {
                Ok(envelope) => Ok(envelope.countries),
                Err(error) => Err(error),
            },
    {
        match self.get_full(reply, decoded) {
            Ok(envelope) => Ok(envelope.countries),
            Err(error) => Err(error),
        }
    }
}

impl Request<HolidaysResponse> {
    /// A request for the holidays of `country` in `year`.
    pub fn new(api: &HolidayAPI, country: String, year: i32) -> (request: Self)
        ensures
            request@ == (RequestView {
                api: api@,
                endpoint: Endpoint::Holidays,
                parameters: seq![("country"@, country@), ("year"@, decimal(year as int))],
            }),
            distinct_names(request@.parameters),
    {
        let request = Self::start(api, Endpoint::Holidays).set("country", country.as_str()).set(
            "year",
            i32_to_string(year).as_str(),
        );
        proof {
            reveal_strlit("country");
            reveal_strlit("year");
            let first = seq![("country"@, country@)];
            assert(upsert(Seq::empty(), "country"@, country@) =~= first);
            assert(first[0].0 == "country"@);
            assert("country"@[0] != "year"@[0]);
            assert(upsert(first, "year"@, decimal(year as int)) =~= seq![
                ("country"@, country@),
                ("year"@, decimal(year as int)),
            ]);
        }
        request
    }

    /// 1 or 2 digit month (1-12).
    pub fn month(self, month: i32) -> (request: Self)
        ensures
            request@ == self@.with("month"@, decimal(month as int)),
            distinct_names(request@.parameters),
    {
        self.set("month", i32_to_string(month).as_str())
    }

    /// 1 or 2 digit day (1-31 depending on the month). Must be used with
    /// `month`; the service, not the library, refuses a day without one.
    pub fn day(self, day: i32) -> (request: Self)
        ensures
            request@ == self@.with("day"@, decimal(day as int)),
            distinct_names(request@.parameters),
    {
        self.set("day", i32_to_string(day).as_str())
    }

    /// Return only public holidays.
    pub fn public(self, public: bool) -> (request: Self)
        ensures
            request@ == self@.with("public"@, flag_text(public)),
            distinct_names(request@.parameters),
    {
        self.set("public", flag_str(public))
    }

    /// Return state / province holidays alongside countrywide holidays.
    pub fn subdivisions(self, subdivisions: bool) -> (request: Self)
        ensures
            request@ == self@.with("subdivisions"@, flag_text(subdivisions)),
            distinct_names(request@.parameters),
    {
        self.set("subdivisions", flag_str(subdivisions))
    }

    /// Search holidays by name. Minimum 5 characters.
    pub fn search(self, search: &str) -> (request: Self)
        ensures
            request@ == self@.with("search"@, search@),
            distinct_names(request@.parameters),
    {
        self.set("search", search)
    }

    /// ISO 639-1 format (with exceptions).
    pub fn language(self, language: &str) -> (request: Self)
        ensures
            request@ == self@.with("language"@, language@),
            distinct_names(request@.parameters),
    {
        self.set("language", language)
    }

    /// Return the first day of holidays that occur before the specific date.
    /// Month and day are required. The service refuses it together with
    /// `upcoming`; the library passes both on.
    pub fn previous(self, previous: bool) -> (request: Self)
        ensures
            request@ == self@.with("previous"@, flag_text(previous)),
            distinct_names(request@.parameters),
    {
        self.set("previous", flag_str(previous))
    }

    /// Return the first day of holidays that occur after the specific date.
    /// Month and day are required. The service refuses it together with
    /// `previous`; the library passes both on.
    pub fn upcoming(self, upcoming: bool) -> (request: Self)
        ensures
            request@ == self@.with("upcoming"@, flag_text(upcoming)),
            distinct_names(request@.parameters),
    {
        self.set("upcoming", flag_str(upcoming))
    }

    /// The holidays of the envelope that the reply decodes to.
    pub fn get(self, reply: Reply, decoded: Result<HolidaysResponse, String>) -> (outcome: Result<
        Vec<Holiday>,
        HolidayAPIError,
    >)
        ensures
            outcome_view(outcome) == match full_result(self@.api.key, reply, decoded) {
                Ok(envelope) => Ok(envelope.holidays),
                Err(error) => Err(error),
            },
    {
        match self.get_full(reply, decoded) {
            Ok(envelope) => Ok(envelope.holidays),
            Err(error) => Err(error),
        }
    }
}

impl Request<WorkdayResponse> {
    /// A request for the working day that lies `days` working days after
    /// `start` in `country`.
    pub fn new(api: &HolidayAPI, country: &str, start: &str, days: i32) -> (request: Self)
        ensures
            request@ == (RequestView {
                api: api@,
                endpoint: Endpoint::Workday,
                parameters: seq![
                    ("country"@, country@),
                    ("start"@, start@),
                    ("days"@, decimal(days as int)),
                ],
            }),
            distinct_names(request@.parameters),
    {
        let request = Self::start(api, Endpoint::Workday).set("country", country).set(
            "start",
            start,
        ).set("days", i32_to_string(days).as_str());
        proof {
            reveal_strlit("country");
            reveal_strlit("start");
            reveal_strlit("days");
            let first = seq![("country"@, country@)];
            let second = seq![("country"@, country@), ("start"@, start@)];
            assert(upsert(Seq::empty(), "country"@, country@) =~= first);
            assert(first[0].0 == "country"@);
            assert("country"@[0] != "start"@[0]);
            assert(upsert(first, "start"@, start@) =~= second);
            assert(second[0].0 == "country"@ && second[1].0 == "start"@);
            assert("country"@[0] != "days"@[0]);
            assert("start"@[0] != "days"@[0]);
            assert(upsert(second, "days"@, decimal(days as int)) =~= seq![
                ("country"@, country@),
                ("start"@, start@),
                ("days"@, decimal(days as int)),
            ]);
        }
        request
    }

    /// The date and the weekday of the envelope that the reply decodes to.
    pub fn get(self, reply: Reply, decoded: Result<WorkdayResponse, String>) -> (outcome: Result<
        (String, Date),
        HolidayAPIError,
    >)
        ensures
            outcome_view(outcome) == match full_result(self@.api.key, reply, decoded) {
                Ok(envelope) => Ok((envelope.date, envelope.weekday)),
                Err(error) => Err(error),
            },
    {
        match self.get_full(reply, decoded) {
            Ok(envelope) => Ok((envelope.date, envelope.weekday)),
            Err(error) => Err(error),
        }
    }
}

impl Request<WorkdaysResponse> {
    /// A request for the number of working days from `start` to `end` in
    /// `country`.
    pub fn new(api: &HolidayAPI, country: &str, start: &str, end: &str) -> (request: Self)
        ensures
            request@ == (RequestView {
                api: api@,
                endpoint: Endpoint::Workdays,
                parameters: seq![("country"@, country@), ("start"@, start@), ("end"@, end@)],
            }),
            distinct_names(request@.parameters),
    {
        let request = Self::start(api, Endpoint::Workdays).set("country", country).set(
            "start",
            start,
        ).set("end", end);
        proof {
            reveal_strlit("country");
            reveal_strlit("start");
            reveal_strlit("end");
            let first = seq![("country"@, country@)];
            let second = seq![("country"@, country@), ("start"@, start@)];
            assert(upsert(Seq::empty(), "country"@, country@) =~= first);
            assert(first[0].0 == "country"@);
            assert("country"@[0] != "start"@[0]);
            assert(upsert(first, "start"@, start@) =~= second);
            assert(second[0].0 == "country"@ && second[1].0 == "start"@);
            assert("country"@[0] != "end"@[0]);
            assert("start"@[0] != "end"@[0]);
            assert(upsert(second, "end"@, end@) =~= seq![
                ("country"@, country@),
                ("start"@, start@),
                ("end"@, end@),
            ]);
        }
        request
    }

    /// The number of working days of the envelope that the reply decodes to.
    pub fn get(self, reply: Reply, decoded: Result<WorkdaysResponse, String>) -> (outcome: Result<
        u32,
        HolidayAPIError,
    >)
        ensures
            outcome_view(outcome) == match full_result(self@.api.key, reply, decoded) {
                Ok(envelope) => Ok(envelope.workdays),
                Err(error) => Err(error),
            },
    {
        match self.get_full(reply, decoded) {
            Ok(envelope) => Ok(envelope.workdays),
            Err(error) => Err(error),
        }
    }
}

impl Request<LanguagesResponse> {
    /// A request for all languages.
    pub fn new(api: &HolidayAPI) -> (request: Self)
        ensures
            request@ == (RequestView {
                api: api@,
                endpoint: Endpoint::Languages,
                parameters: Seq::empty(),
            }),
            distinct_names(request@.parameters),
    {
        Self::start(api, Endpoint::Languages)
    }

    /// Return only the language with the specified code.
    pub fn language(self, language: &str) -> (request: Self)
        ensures
            request@ == self@.with("language"@, language@),
            distinct_names(request@.parameters),
    {
        self.set("language", language)
    }

    /// Search languages by code and name. Minimum 2 characters.
    pub fn search(self, search: &str) -> (request: Self)
        ensures
            request@ == self@.with("search"@, search@),
            distinct_names(request@.parameters),
    {
        self.set("search", search)
    }

    /// The languages of the envelope that the reply decodes to.
    pub fn get(self, reply: Reply, decoded: Result<LanguagesResponse, String>) -> (outcome: Result<
        Vec<Language>,
        HolidayAPIError,
    >)
        ensures
            outcome_view(outcome) == match full_result(self@.api.key, reply, decoded) {
                Ok(envelope) => Ok(envelope.languages),
                Err(error) => Err(error),
            },
    {
        match self.get_full(reply, decoded) {
            Ok(envelope) => Ok(envelope.languages),
            Err(error) => Err(error),
        }
    }
}

} // verus!
