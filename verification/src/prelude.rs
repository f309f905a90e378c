//! The names that a caller of the library usually needs.

pub use crate::params::Parameters;
pub use crate::requests::{
    CountriesRequest, Endpoint, HolidaysRequest, LanguagesRequest, Request, WorkdayRequest,
    WorkdaysRequest,
};
pub use crate::responses::{
    APIRequests, Codes, CountriesResponse, Country, Date, Holiday, HolidaysResponse, Language,
    LanguagesResponse, Subdivision, Weekday, WorkdayResponse, WorkdaysResponse,
};
pub use crate::transport::Reply;
pub use crate::{HolidayAPI, HolidayAPIError};
