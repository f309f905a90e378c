use holidayapi_rust::responses::{
    APIRequests, Codes, CountriesResponse, Country, Date, Holiday, HolidaysResponse, Language,
    LanguagesResponse, Subdivision, Weekday, WorkdayResponse, WorkdaysResponse,
};
use holidayapi_rust::transport::Reply;
use holidayapi_rust::{HolidayAPI, HolidayAPIError};
use serde_json::Value;

static KEY: &str = "00000000-0000-0000-0000-000000000000";

fn api() -> HolidayAPI {
    HolidayAPI::new(KEY).unwrap()
}

fn text(value: &Value, name: &str) -> Result<String, String> {
    match value.get(name).and_then(Value::as_str) {
        Some(text) => Ok(text.to_string()),
        None => Err(format!("missing field `{}`", name)),
    }
}

fn number(value: &Value, name: &str) -> Result<u32, String> {
    match value.get(name).and_then(Value::as_u64) {
        Some(number) => Ok(number as u32),
        None => Err(format!("missing field `{}`", name)),
    }
}

fn optional(value: &Value, name: &str) -> Option<String> {
    value.get(name).and_then(Value::as_str).map(str::to_string)
}

fn day(value: &Value) -> Result<Date, String> {
    Ok(Date { name: text(value, "name")?, numeric: text(value, "numeric")? })
}

fn allowance(value: &Value) -> Result<APIRequests, String> {
    let requests = value.get("requests").ok_or("missing field `requests`".to_string())?;
    Ok(APIRequests {
        available: number(requests, "available")?,
        used: number(requests, "used")?,
        resets: text(requests, "resets")?,
    })
}

fn holiday(value: &Value) -> Result<Holiday, String> {
    let weekday = value.get("weekday").ok_or("missing field `weekday`".to_string())?;
    Ok(Holiday {
        name: text(value, "name")?,
        date: text(value, "date")?,
        observed: text(value, "observed")?,
        public: value.get("public").and_then(Value::as_bool).ok_or("missing field `public`")?,
        country: text(value, "country")?,
        uuid: text(value, "uuid")?,
        weekday: Weekday {
            date: day(weekday.get("date").ok_or("missing field `date`".to_string())?)?,
            observed: day(weekday.get("observed").ok_or("missing field `observed`".to_string())?)?,
        },
    })
}

fn decode_holidays(body: &str) -> Result<HolidaysResponse, String> {
    let value: Value = serde_json::from_str(body).map_err(|error| error.to_string())?;
    let listed = value
        .get("holidays")
        .and_then(Value::as_array)
        .ok_or("missing field `holidays`".to_string())?;
    let mut holidays = Vec::new();
    for entry in listed {
        holidays.push(holiday(entry)?);
    }
    Ok(HolidaysResponse {
        requests: allowance(&value)?,
        status: number(&value, "status")?,
        holidays,
        error: optional(&value, "error"),
        warning: optional(&value, "warning"),
    })
}

fn body_of(reply: &Reply) -> String {
    match reply {
        Reply::Response { body, .. } => body.clone(),
        Reply::Failure { .. } => String::new(),
    }
}

static HOLIDAYS_BODY: &str = "{\"status\":200,\"requests\":{\"used\":3,\"available\":9997,\
\"resets\":\"2022-01-01 00:00:00\"},\"holidays\":[{\"name\":\"Emperor's Birthday\",\
\"date\":\"2021-12-23\",\"observed\":\"2021-12-23\",\"public\":false,\"country\":\"JP\",\
\"uuid\":\"7b1b6bd5-cc4f-4bd5-9a0e-0a4b5c0f3f6d\",\"weekday\":{\"date\":{\"name\":\"Thursday\",\
\"numeric\":\"4\"},\"observed\":{\"name\":\"Thursday\",\"numeric\":\"4\"}}}]}";

fn requests() -> APIRequests {
    APIRequests { available: 10, used: 1, resets: "2022-01-01 00:00:00".to_string() }
}

#[test]
fn holidays_round_trip_keeps_the_country() {
    let request = api().holidays("JP", 2021).month(12);
    assert_eq!(
        request.json_url().unwrap(),
        format!(
            "https://holidayapi.com/v1/holidays?key={}&country=JP&year=2021&month=12&format=json",
            KEY
        )
    );
    let country = request.parameters().get("country").unwrap().to_string();
    let reply = Reply::Response { status: 200, body: HOLIDAYS_BODY.to_string() };
    let decoded = decode_holidays(&body_of(&reply));
    let holidays = request.get(reply, decoded).unwrap();
    assert_eq!(holidays.len(), 1);
    assert_eq!(holidays[0].country, country);
    assert_eq!(holidays[0].country, "JP");
    assert_eq!(holidays[0].name, "Emperor's Birthday");
    assert_eq!(holidays[0].weekday.date.name, "Thursday");
    assert!(!holidays[0].public);
}

#[test]
fn get_full_keeps_the_whole_envelope() {
    let reply = Reply::Response { status: 200, body: HOLIDAYS_BODY.to_string() };
    let decoded = decode_holidays(&body_of(&reply));
    let envelope = api().holidays("JP", 2021).get_full(reply, decoded).unwrap();
    assert_eq!(envelope.status, 200);
    assert_eq!(envelope.requests.used, 3);
    assert_eq!(envelope.requests.available, 9997);
    assert_eq!(envelope.error, None);
    assert_eq!(envelope.holidays.len(), 1);
}

#[test]
fn malformed_body_fails_get_full_and_not_get_raw() {
    let reply = Reply::Response { status: 200, body: "{\"status\": 200, \"holidays\": [".to_string() };
    let decoded = decode_holidays(&body_of(&reply));
    assert!(decoded.is_err());
    let complaint = decoded.clone().unwrap_err();
    assert_eq!(
        api().holidays("JP", 2021).get_raw(reply.clone()),
        Ok("{\"status\": 200, \"holidays\": [".to_string())
    );
    match api().holidays("JP", 2021).get_full(reply.clone(), decoded.clone()) {
        Err(HolidayAPIError::DecodeError(detail)) => assert_eq!(detail, complaint),
        other => panic!("unexpected outcome: {:?}", other.map(|_| ())),
    }
    match api().holidays("JP", 2021).get(reply, decoded) {
        Err(HolidayAPIError::DecodeError(detail)) => assert_eq!(detail, complaint),
        other => panic!("unexpected outcome: {:?}", other.map(|_| ())),
    }
}

#[test]
fn body_of_another_shape_fails_get_full() {
    let reply = Reply::Response { status: 200, body: "{\"status\":200}".to_string() };
    let decoded = decode_holidays(&body_of(&reply));
    match api().holidays("JP", 2021).get_full(reply, decoded) {
        Err(HolidayAPIError::DecodeError(detail)) => assert_eq!(detail, "missing field `holidays`"),
        other => panic!("unexpected outcome: {:?}", other.map(|_| ())),
    }
}

#[test]
fn error_of_the_reply_comes_before_the_decoding() {
    let denied = Reply::Response { status: 401, body: HOLIDAYS_BODY.to_string() };
    let decoded = decode_holidays(HOLIDAYS_BODY);
    match api().holidays("JP", 2021).get_full(denied, decoded) {
        Err(error) => assert_eq!(error, HolidayAPIError::InvalidOrExpiredKey(KEY.to_string())),
        Ok(_) => panic!("a 401 reply gave an envelope"),
    }
    let broken = Reply::Response { status: 500, body: "oops".to_string() };
    match api().holidays("JP", 2021).get(broken, Err("expected value".to_string())) {
        Err(error) => {
            assert_eq!(error, HolidayAPIError::TransportError("HTTP status 500".to_string()))
        }
        Ok(_) => panic!("a 500 reply gave holidays"),
    }
    let lost = Reply::Failure { reason: "timed out".to_string() };
    match api().countries().get(lost, Err("no body".to_string())) {
        Err(error) => assert_eq!(error, HolidayAPIError::TransportError("timed out".to_string())),
        Ok(_) => panic!("a failed call gave countries"),
    }
}

#[test]
fn envelope_with_an_error_field_is_still_a_success() {
    let envelope = HolidaysResponse {
        requests: requests(),
        status: 200,
        holidays: Vec::new(),
        error: Some("quota nearly used".to_string()),
        warning: Some("free plan".to_string()),
    };
    let reply = Reply::Response { status: 200, body: "{}".to_string() };
    let full = api().holidays("JP", 2021).get_full(reply, Ok(envelope)).unwrap();
    assert_eq!(full.error, Some("quota nearly used".to_string()));
    assert_eq!(full.warning, Some("free plan".to_string()));
}

#[test]
fn countries_get_gives_the_countries() {
    let japan = Country {
        code: "JP".to_string(),
        name: "Japan".to_string(),
        languages: vec!["ja".to_string()],
        codes: Codes {
            alpha_2: "JP".to_string(),
            alpha_3: "JPN".to_string(),
            numeric: "392".to_string(),
        },
        flag: "https://example.org/jp.png".to_string(),
        subdivisions: vec![Subdivision {
            code: "JP-13".to_string(),
            name: "Tokyo".to_string(),
            languages: vec!["ja".to_string()],
        }],
    };
    let envelope = CountriesResponse {
        requests: requests(),
        status: 200,
        error: None,
        warning: None,
        countries: vec![japan],
    };
    let reply = Reply::Response { status: 200, body: "{}".to_string() };
    let countries = api().countries().get(reply, Ok(envelope)).unwrap();
    assert_eq!(countries.len(), 1);
    assert_eq!(countries[0].codes.alpha_3, "JPN");
    assert_eq!(countries[0].subdivisions[0].name, "Tokyo");
}

#[test]
fn workday_get_gives_date_and_weekday() {
    let envelope = WorkdayResponse {
        requests: requests(),
        status: 200,
        date: "2021-07-16".to_string(),
        weekday: Date { name: "Friday".to_string(), numeric: "5".to_string() },
        error: None,
        warning: None,
    };
    let reply = Reply::Response { status: 200, body: "{}".to_string() };
    let (date, weekday) = api().workday("US", "2021-07-01", 10).get(reply, Ok(envelope)).unwrap();
    assert_eq!(date, "2021-07-16");
    assert_eq!(weekday.name, "Friday");
    assert_eq!(weekday.numeric, "5");
}

#[test]
fn workdays_get_gives_the_count() {
    let envelope = WorkdaysResponse {
        requests: requests(),
        status: 200,
        workdays: 21,
        error: None,
        warning: None,
    };
    let reply = Reply::Response { status: 200, body: "{}".to_string() };
    let count = api().workdays("US", "2021-07-01", "2021-07-31").get(reply, Ok(envelope));
    assert_eq!(count, Ok(21));
}

#[test]
fn languages_get_gives_the_languages() {
    let envelope = LanguagesResponse {
        requests: requests(),
        status: 200,
        languages: vec![Language { code: "ja".to_string(), name: "Japanese".to_string() }],
        error: None,
        warning: None,
    };
    let reply = Reply::Response { status: 200, body: "{}".to_string() };
    let languages = api().languages().get(reply, Ok(envelope)).unwrap();
    assert_eq!(languages.len(), 1);
    assert_eq!(languages[0].code, "ja");
    assert_eq!(languages[0].name, "Japanese");
}
