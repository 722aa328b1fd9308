use oauth_gate::auth::AuthApi;
use oauth_gate::config::{ConfigError, ProviderConfig};
use oauth_gate::extractor::auth_extractor;
use oauth_gate::redirect::{microsoft_redirect_string, OAuthRedirectResponse};
use oauth_gate::token::{
    evaluate_token_reply, token_exchange_body, OAuthCallbackResponse, TokenEndpointReply,
};

fn config() -> ProviderConfig {
    ProviderConfig::new(
        "https://login.microsoftonline.com/common/oauth2/v2.0/authorize".to_string(),
        "https://login.microsoftonline.com/tenant-1/oauth2/v2.0/token".to_string(),
        "client-123".to_string(),
        "sec!".to_string(),
        "tenant-1".to_string(),
        "http://localhost/api/microsoft/callback".to_string(),
        "https://graph.microsoft.com/user.read".to_string(),
        "http://localhost".to_string(),
    )
    .unwrap()
}

#[test]
fn redirect_url_is_deterministic() {
    let c = config();
    let first = microsoft_redirect_string(&c);
    let second = microsoft_redirect_string(&c);
    assert_eq!(first, second);
}

#[test]
fn redirect_url_exact_value() {
    let c = config();
    let url = microsoft_redirect_string(&c);
    assert_eq!(
        url,
        "https://login.microsoftonline.com/common/oauth2/v2.0/authorize\
         ?redirect_uri=http%3A%2F%2Flocalhost%2Fapi%2Fmicrosoft%2Fcallback\
         &client_id=client-123\
         &access_type=offline\
         &response_type=code\
         &scope=https%3A%2F%2Fgraph.microsoft.com%2Fuser.read"
    );
}

#[test]
fn redirect_response_carries_cached_url() {
    let api = AuthApi::new(config());
    let expected = microsoft_redirect_string(&config());
    match api.microsoft_redirect() {
        OAuthRedirectResponse::SuccessfulRedirect(target) => assert_eq!(target, expected),
    }
}

#[test]
fn config_rejects_empty_field() {
    let r = ProviderConfig::new(
        "https://auth.example".to_string(),
        "https://token.example".to_string(),
        "".to_string(),
        "secret".to_string(),
        "tenant".to_string(),
        "http://localhost/cb".to_string(),
        "scope".to_string(),
        "http://localhost".to_string(),
    );
    assert_eq!(r.err(), Some(ConfigError::EmptyField));
}

#[test]
fn config_accepts_full_values() {
    assert!(ProviderConfig::new(
        "a".to_string(),
        "b".to_string(),
        "c".to_string(),
        "d".to_string(),
        "e".to_string(),
        "f".to_string(),
        "g".to_string(),
        "h".to_string(),
    )
    .is_ok());
}

#[test]
fn token_body_exact_value() {
    let c = config();
    let body = token_exchange_body(&c, "abc123");
    assert_eq!(
        body,
        "code=abc123\
         &client_id=client-123\
         &client_secret=sec%21\
         &redirect_uri=http%3A%2F%2Flocalhost%2Fapi%2Fmicrosoft%2Fcallback\
         &grant_type=authorization_code\
         &scope=https%3A%2F%2Fgraph.microsoft.com%2Fuser.read"
    );
}

#[test]
fn callback_body_matches_free_function() {
    let api = AuthApi::new(config());
    assert_eq!(api.ms_callback_body("abc123"), token_exchange_body(&config(), "abc123"));
}

#[test]
fn well_formed_token_reply_authenticates() {
    let api = AuthApi::new(config());
    let body = "{\"access_token\":\"tok\",\"expires_in\":3600,\"scope\":\"x\",\
                \"token_type\":\"Bearer\",\"id_token\":\"eyJhbGciOiJSUzI1NiJ9.e30.sig\"}";
    let outcome = api.ms_callback_outcome(&TokenEndpointReply::Body(body.to_string()));
    assert_eq!(
        outcome,
        OAuthCallbackResponse::SuccessfullyAuthenticated("http://localhost".to_string())
    );
}

#[test]
fn extra_fields_still_authenticate() {
    let body = "{\"access_token\":\"tok\",\"expires_in\":42,\"scope\":\"s\",\
                \"token_type\":\"Bearer\",\"id_token\":\"jwt\",\"refresh_token\":\"r\"}";
    let outcome = evaluate_token_reply("http://localhost", &TokenEndpointReply::Body(
        body.to_string(),
    ));
    assert_eq!(
        outcome,
        OAuthCallbackResponse::SuccessfullyAuthenticated("http://localhost".to_string())
    );
}

#[test]
fn http_error_statuses_fail() {
    let api = AuthApi::new(config());
    for status in [400u16, 401, 500] {
        let outcome = api.ms_callback_outcome(&TokenEndpointReply::HttpError(status));
        assert_eq!(outcome, OAuthCallbackResponse::AuthenticationError);
    }
}

#[test]
fn transport_error_fails() {
    let api = AuthApi::new(config());
    let outcome = api.ms_callback_outcome(&TokenEndpointReply::TransportError);
    assert_eq!(outcome, OAuthCallbackResponse::AuthenticationError);
}

#[test]
fn unreadable_body_fails() {
    let api = AuthApi::new(config());
    let outcome = api.ms_callback_outcome(&TokenEndpointReply::BodyReadError);
    assert_eq!(outcome, OAuthCallbackResponse::AuthenticationError);
}

#[test]
fn body_missing_access_token_fails() {
    let body = "{\"expires_in\":3600,\"scope\":\"x\",\"token_type\":\"Bearer\",\
                \"id_token\":\"jwt\"}";
    let outcome = evaluate_token_reply("http://localhost", &TokenEndpointReply::Body(
        body.to_string(),
    ));
    assert_eq!(outcome, OAuthCallbackResponse::AuthenticationError);
}

#[test]
fn body_with_mistyped_expiry_fails() {
    let body = "{\"access_token\":\"tok\",\"expires_in\":\"3600\",\"scope\":\"x\",\
                \"token_type\":\"Bearer\",\"id_token\":\"jwt\"}";
    let outcome = evaluate_token_reply("http://localhost", &TokenEndpointReply::Body(
        body.to_string(),
    ));
    assert_eq!(outcome, OAuthCallbackResponse::AuthenticationError);
}

#[test]
fn malformed_json_body_fails() {
    let outcome = evaluate_token_reply("http://localhost", &TokenEndpointReply::Body(
        "not json".to_string(),
    ));
    assert_eq!(outcome, OAuthCallbackResponse::AuthenticationError);
}

#[test]
fn non_object_json_body_fails() {
    let outcome = evaluate_token_reply("http://localhost", &TokenEndpointReply::Body(
        "[1,2,3]".to_string(),
    ));
    assert_eq!(outcome, OAuthCallbackResponse::AuthenticationError);
}

#[test]
fn extractor_grants_nothing() {
    assert!(auth_extractor().is_empty());
}
