use holidayapi_rust::transport::Reply;
use holidayapi_rust::{HolidayAPI, HolidayAPIError};

static EXPIRED_KEY: &str = "daaaaaab-aaaa-aaaa-aaaa-2aaaada37e14";
static INVALID_KEY: &str = "invalid-key-format";
static ZERO_KEY: &str = "00000000-0000-0000-0000-000000000000";

#[test]
fn test_valid_key() {
    match HolidayAPI::new(EXPIRED_KEY) {
        Ok(_) => assert!(true),
        Err(_) => unreachable!("Should not return an error on valid key"),
    }
    match HolidayAPI::new(INVALID_KEY) {
        Ok(_) => unreachable!("Should return an error on invalid key"),
        Err(_) => assert!(true),
    }
}

#[test]
fn key_of_valid_shape_is_accepted() {
    assert!(HolidayAPI::is_valid_key(ZERO_KEY).is_ok());
    assert!(HolidayAPI::is_valid_key(EXPIRED_KEY).is_ok());
    assert!(HolidayAPI::is_valid_key("0123456789-abcd-ef01-2345-6789abcdef01").is_err());
    assert!(HolidayAPI::is_valid_key("01234567-89ab-cdef-0123-456789abcdef").is_ok());
}

#[test]
fn key_in_upper_case_is_accepted() {
    assert!(HolidayAPI::is_valid_key("DAAAAAAB-AAAA-AAAA-AAAA-2AAAADA37E14").is_ok());
    assert!(HolidayAPI::is_valid_key("01234567-89AB-cdef-0123-456789ABCDEF").is_ok());
}

#[test]
fn key_of_wrong_length_is_refused() {
    assert!(HolidayAPI::is_valid_key("").is_err());
    assert!(HolidayAPI::is_valid_key("00000000-0000-0000-0000-00000000000").is_err());
    assert!(HolidayAPI::is_valid_key("00000000-0000-0000-0000-0000000000000").is_err());
    assert!(HolidayAPI::is_valid_key(" 00000000-0000-0000-0000-000000000000").is_err());
    assert!(HolidayAPI::is_valid_key("00000000-0000-0000-0000-000000000000\n").is_err());
}

#[test]
fn key_with_other_characters_is_refused() {
    assert!(HolidayAPI::is_valid_key("g0000000-0000-0000-0000-000000000000").is_err());
    assert!(HolidayAPI::is_valid_key("00000000-0000-0000-0000-00000000000z").is_err());
    assert!(HolidayAPI::is_valid_key("0000000é-0000-0000-0000-000000000000").is_err());
}

#[test]
fn key_without_separators_is_refused() {
    assert!(HolidayAPI::is_valid_key("000000000000000000000000000000000000").is_err());
    assert!(HolidayAPI::is_valid_key("00000000_0000_0000_0000_000000000000").is_err());
    assert!(HolidayAPI::is_valid_key("0000000-00000-0000-0000-000000000000").is_err());
}

#[test]
fn refused_key_is_reported_with_the_key() {
    match HolidayAPI::is_valid_key(INVALID_KEY) {
        Err(HolidayAPIError::InvalidKeyFormat(key)) => assert_eq!(key, INVALID_KEY),
        other => panic!("unexpected answer: {:?}", other),
    }
    match HolidayAPI::new(INVALID_KEY) {
        Err(error) => assert_eq!(error, HolidayAPIError::InvalidKeyFormat(INVALID_KEY.to_string())),
        Ok(_) => panic!("an invalid key made a client"),
    }
}

#[test]
fn version_one_is_the_supported_version() {
    assert!(HolidayAPI::is_valid_version(&1).is_ok());
    for version in [0, 2, -1, 10, i32::MAX, i32::MIN] {
        match HolidayAPI::is_valid_version(&version) {
            Err(HolidayAPIError::InvalidVersion(detail)) => assert_eq!(
                detail,
                format!("Invalid version: {}, please choose: [1]", version)
            ),
            other => panic!("unexpected answer: {:?}", other),
        }
    }
}

#[test]
fn with_version_refuses_other_versions() {
    for version in [0, 2, 3, -7, i32::MAX, i32::MIN] {
        match HolidayAPI::with_version(ZERO_KEY, version) {
            Err(HolidayAPIError::InvalidVersion(_)) => {}
            other => panic!("unexpected outcome: {:?}", other),
        }
    }
}

#[test]
fn with_version_looks_at_the_key_first() {
    match HolidayAPI::with_version(INVALID_KEY, 2) {
        Err(HolidayAPIError::InvalidKeyFormat(key)) => assert_eq!(key, INVALID_KEY),
        other => panic!("unexpected outcome: {:?}", other),
    }
}

#[test]
fn with_version_one_builds_the_base_url() {
    let api = HolidayAPI::with_version(ZERO_KEY, 1).unwrap();
    assert_eq!(api.base_url(), "https://holidayapi.com/v1/");
    assert_eq!(api.key(), ZERO_KEY);
}

#[test]
fn new_builds_the_base_url_of_version_one() {
    let api = HolidayAPI::new(ZERO_KEY).unwrap();
    assert_eq!(api.base_url(), "https://holidayapi.com/v1/");
    assert_eq!(api.key(), ZERO_KEY);
    let copy = api.clone();
    assert_eq!(copy.base_url(), api.base_url());
    assert_eq!(copy.key(), api.key());
}

#[test]
fn unauthorized_reply_is_an_expired_key() {
    let api = HolidayAPI::new(EXPIRED_KEY).unwrap();
    let reply = Reply::Response { status: 401, body: "{\"status\":401}".to_string() };
    assert_eq!(
        api.response(reply),
        Err(HolidayAPIError::InvalidOrExpiredKey(EXPIRED_KEY.to_string()))
    );
}

#[test]
fn success_reply_gives_the_body_as_it_came() {
    let api = HolidayAPI::new(ZERO_KEY).unwrap();
    for status in [200u16, 201, 204, 299] {
        let reply = Reply::Response { status, body: "{\"error\":\"quota\"}".to_string() };
        assert_eq!(api.response(reply), Ok("{\"error\":\"quota\"}".to_string()));
    }
}

#[test]
fn other_status_is_a_transport_error() {
    let api = HolidayAPI::new(ZERO_KEY).unwrap();
    for status in [100u16, 199, 300, 302, 400, 402, 403, 404, 429, 500, 503] {
        let reply = Reply::Response { status, body: String::new() };
        assert_eq!(
            api.response(reply),
            Err(HolidayAPIError::TransportError(format!("HTTP status {}", status)))
        );
    }
}

#[test]
fn failed_call_is_a_transport_error_with_its_reason() {
    let api = HolidayAPI::new(ZERO_KEY).unwrap();
    let reply = Reply::Failure { reason: "dns error: no such host".to_string() };
    assert_eq!(
        api.response(reply),
        Err(HolidayAPIError::TransportError("dns error: no such host".to_string()))
    );
}

#[test]
fn errors_describe_themselves() {
    assert_eq!(
        HolidayAPIError::InvalidKeyFormat("abc".to_string()).to_string(),
        "Invalid key: abc"
    );
    assert_eq!(
        HolidayAPIError::InvalidVersion("two".to_string()).to_string(),
        "Invalid version: two"
    );
    assert_eq!(
        HolidayAPIError::InvalidOrExpiredKey("abc".to_string()).to_string(),
        "Invalid or expired key: abc"
    );
    assert_eq!(
        HolidayAPIError::TransportError("HTTP status 500".to_string()).to_string(),
        "Transport error: HTTP status 500"
    );
    assert_eq!(
        HolidayAPIError::DecodeError("eof".to_string()).to_string(),
        "Decode error: eof"
    );
}
