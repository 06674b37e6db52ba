use teams_api::request::{build_request, ClientIdentity, HttpMethod};
use teams_api::token::Token;
use teams_api::url::{
    activities_path, activity_path, compose_url, conversations_path, default_base_url,
    trim_trailing_slashes,
};

#[test]
fn trailing_slash_override_joins_cleanly() {
    assert_eq!(compose_url(Some("https://host/"), "/v3/x"), "https://host/v3/x");
}

#[test]
fn slashless_override_joins_cleanly() {
    assert_eq!(compose_url(Some("https://host"), "/v3/x"), "https://host/v3/x");
}

#[test]
fn many_trailing_slashes_are_all_stripped() {
    assert_eq!(compose_url(Some("https://host///"), "/v3/x"), "https://host/v3/x");
}

#[test]
fn missing_override_uses_default_endpoint() {
    assert_eq!(
        compose_url(None, "/v3/conversations"),
        "https://smba.trafficmanager.net/teams/v3/conversations"
    );
}

#[test]
fn default_base_has_no_trailing_slash() {
    assert!(!default_base_url().ends_with('/'));
}

#[test]
fn trim_only_touches_the_tail() {
    assert_eq!(trim_trailing_slashes("https://a/b/"), "https://a/b");
    assert_eq!(trim_trailing_slashes("no-slash"), "no-slash");
    assert_eq!(trim_trailing_slashes("////"), "");
    assert_eq!(trim_trailing_slashes(""), "");
}

#[test]
fn operation_paths_interpolate_ids() {
    assert_eq!(conversations_path(), "/v3/conversations");
    assert_eq!(
        activities_path("conv-1"),
        "/v3/conversations/conv-1/activities"
    );
    assert_eq!(
        activity_path("conv-1", "act-9"),
        "/v3/conversations/conv-1/activities/act-9"
    );
}

#[test]
fn built_request_carries_method_url_and_bearer() {
    let tok = Token::new("tok-A".to_string(), 3600, 0);
    let req = build_request(HttpMethod::Post, None, "/v3/conversations", &tok);
    assert_eq!(req.method, HttpMethod::Post);
    assert_eq!(
        req.url,
        "https://smba.trafficmanager.net/teams/v3/conversations"
    );
    assert_eq!(req.bearer, "tok-A");
}

#[test]
fn exchange_body_carries_identity_and_fixed_scope() {
    let identity = ClientIdentity::new("c1", "s1");
    assert_eq!(identity.client_id, "c1");
    assert_eq!(identity.client_secret, "s1");
    assert_eq!(
        identity.token_request_body(),
        "grant_type=client_credentials&client_id=c1&client_secret=s1&scope=https%3A%2F%2Fapi.botframework.com%2F.default"
    );
}
