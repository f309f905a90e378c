//! The records that the service answers with: one envelope per endpoint, and
//! the payload records inside them.

use vstd::prelude::*;

verus! {

/// The request allowance of the key, as every envelope reports it.
#[derive(Debug, Clone)]
pub struct APIRequests {
    pub available: u32,
    pub used: u32,
    pub resets: String,
}

/// The envelope of the `countries` endpoint.
#[derive(Debug, Clone)]
pub struct CountriesResponse {
    pub requests: APIRequests,
    pub status: u32,
    pub error: Option<String>,
    pub warning: Option<String>,
    pub countries: Vec<Country>,
}

#[derive(Debug, Clone)]
pub struct Country {
    pub code: String,
    pub name: String,
    pub languages: Vec<String>,
    pub codes: Codes,
    pub flag: String,
    pub subdivisions: Vec<Subdivision>,
}

/// The three ISO 3166 codes of a country; on the wire the first two are
/// called `alpha-2` and `alpha-3`.
#[derive(Debug, Clone)]
pub struct Codes {
    pub alpha_2: String,
    pub alpha_3: String,
    pub numeric: String,
}

#[derive(Debug, Clone)]
pub struct Subdivision {
    pub code: String,
    pub name: String,
    pub languages: Vec<String>,
}

/// The envelope of the `holidays` endpoint.
#[derive(Debug, Clone)]
pub struct HolidaysResponse {
    pub requests: APIRequests,
    pub status: u32,
    pub holidays: Vec<Holiday>,
    pub error: Option<String>,
    pub warning: Option<String>,
}

#[derive(Debug, Clone)]
pub struct Holiday {
    pub name: String,
    pub date: String,
    pub observed: String,
    pub public: bool,
    pub country: String,
    pub uuid: String,
    pub weekday: Weekday,
}

/// The weekdays of a holiday: of its date, and of the day it is observed on.
#[derive(Debug, Clone)]
pub struct Weekday {
    pub date: Date,
    pub observed: Date,
}

/// A day of the week by name and by number.
#[derive(Debug, Clone)]
pub struct Date {
    pub name: String,
    pub numeric: String,
}

/// The envelope of the `workday` endpoint.
#[derive(Debug, Clone)]
pub struct WorkdayResponse {
    pub requests: APIRequests,
    pub status: u32,
    pub date: String,
    pub weekday: Date,
    pub error: Option<String>,
    pub warning: Option<String>,
}

/// The envelope of the `workdays` endpoint.
#[derive(Debug, Clone)]
pub struct WorkdaysResponse {
    pub requests: APIRequests,
    pub status: u32,
    pub workdays: u32,
    pub error: Option<String>,
    pub warning: Option<String>,
}

/// The envelope of the `languages` endpoint.
#[derive(Debug, Clone)]
pub struct LanguagesResponse {
    pub requests: APIRequests,
    pub status: u32,
    pub languages: Vec<Language>,
    pub error: Option<String>,
    pub warning: Option<String>,
}

#[derive(Debug, Clone)]
pub struct Language {
    pub code: String,
    pub name: String,
}

} // verus!
