use teams_api::error::Error;
use teams_api::request::issuer_endpoint;
use teams_api::response::{classify_api_response, classify_issuer_response, is_success};

#[test]
fn two_hundreds_count_as_success() {
    assert!(is_success(200));
    assert!(is_success(201));
    assert!(is_success(299));
    assert!(!is_success(199));
    assert!(!is_success(300));
    assert!(!is_success(404));
    assert!(!is_success(500));
}

#[test]
fn successful_api_response_hands_body_on() {
    let body = "{\"id\":\"conv-1\"}".to_string();
    assert_eq!(classify_api_response(201, body.clone()), Ok(body));
}

#[test]
fn failed_api_response_carries_payload_verbatim() {
    // A non-2xx bot API answer yields the API error kind with the parsed
    // error body, never a generic transport failure.
    let payload = "{\"error\":{\"code\":\"BadArgument\"}}".to_string();
    assert_eq!(
        classify_api_response(400, payload.clone()),
        Err(Error::Api(payload))
    );
}

#[test]
fn failed_issuer_response_carries_payload_verbatim() {
    let payload = "{\"error\":\"invalid_client\"}".to_string();
    assert_eq!(
        classify_issuer_response(401, payload.clone()),
        Err(Error::Auth(payload))
    );
}

#[test]
fn successful_issuer_response_hands_body_on() {
    let body = "{\"access_token\":\"tok\",\"expires_in\":3600}".to_string();
    assert_eq!(classify_issuer_response(200, body.clone()), Ok(body));
}

#[test]
fn issuer_endpoint_is_the_fixed_exchange_url() {
    assert_eq!(
        issuer_endpoint(),
        "https://login.microsoftonline.com/botframework.com/oauth2/v2.0/token"
    );
}
