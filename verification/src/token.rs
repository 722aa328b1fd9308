//! The token exchange: the form-encoded request body sent to the token
//! endpoint, the provider's reply, and the terminal outcome.

use crate::config::{ProviderConfig, ProviderConfigView};
use crate::redirect::query_param;
use crate::urlenc::{enc_str, qs_encode};
use vstd::prelude::*;

verus! {

/// The token fields the provider returns on a successful exchange.
#[derive(Debug, PartialEq, Eq)]
pub struct GoogleAuthResponse {
    pub access_token: String,
    pub expires_in: i64,
    pub scope: String,
    pub token_type: String,
    pub jwt: String,
}

/// The mathematical content of a [`GoogleAuthResponse`].
pub ghost struct GoogleAuthResponseView {
    pub access_token: Seq<char>,
    pub expires_in: int,
    pub scope: Seq<char>,
    pub token_type: Seq<char>,
    pub jwt: Seq<char>,
}

impl View for GoogleAuthResponse {
    type V = GoogleAuthResponseView;

    open spec fn view(&self) -> GoogleAuthResponseView {
        GoogleAuthResponseView {
            access_token: self.access_token@,
            expires_in: self.expires_in as int,
            scope: self.scope@,
            token_type: self.token_type@,
            jwt: self.jwt@,
        }
    }
}

/// The token fields that a body parses to, if it is a JSON object holding
/// all five with the right types; a function of the text alone.
pub uninterp spec fn token_fields_of(s: Seq<char>) -> Option<GoogleAuthResponseView>;

/// Relies on serde_json::from_str and serde_json::Value's accessors
/// `get`, `as_str` and `as_i64`: whether the body is a JSON object that
/// carries the five token fields with the right types, and what they
/// hold, depend on the text alone.
#[verifier::external_body]
pub(crate) fn parse_token_response(s: &str) -> (r: Option<GoogleAuthResponse>)
    ensures
        r matches Some(t) ==> token_fields_of(s@) == Some(t@),
        r is None ==> token_fields_of(s@) is None,
{
    let v: serde_json::Value = serde_json::from_str(s).ok()?;
    Some(
        GoogleAuthResponse {
            access_token: v.get("access_token")?.as_str()?.to_string(),
            expires_in: v.get("expires_in")?.as_i64()?,
            scope: v.get("scope")?.as_str()?.to_string(),
            token_type: v.get("token_type")?.as_str()?.to_string(),
            jwt: v.get("id_token")?.as_str()?.to_string(),
        },
    )
}

/// What the attempt to reach the token endpoint came back with.  The
/// caller performs the POST and reports it here.
#[derive(Debug, PartialEq, Eq)]
pub enum TokenEndpointReply {
    /// The request could not be sent or timed out.
    TransportError,
    /// The provider answered with a non-success HTTP status.
    HttpError(u16),
    /// The provider answered with a success status, but the body could
    /// not be read.
    BodyReadError,
    /// The provider answered with a success status and this body.
    Body(String),
}

/// The terminal outcome of a callback, consumed once by the caller.
#[derive(Debug, PartialEq, Eq)]
pub enum OAuthCallbackResponse {
    /// The user authenticated; redirect them to this target.
    SuccessfullyAuthenticated(String),
    /// Anything went wrong on the way; deliberately undifferentiated.
    AuthenticationError,
}

/// The form-encoded token-exchange body: exactly the parameters `code`,
/// `client_id`, `client_secret`, `redirect_uri`,
/// `grant_type=authorization_code` and `scope`, in that order, values
/// percent-encoded.
pub open spec fn token_body_spec(c: ProviderConfigView, code: Seq<char>) -> Seq<char> {
    query_param("code"@, enc_str(code)) + "&"@ + query_param("client_id"@, enc_str(c.client_id))
        + "&"@ + query_param("client_secret"@, enc_str(c.client_secret)) + "&"@ + query_param(
        "redirect_uri"@,
        enc_str(c.callback_url),
    ) + "&"@ + query_param("grant_type"@, "authorization_code"@) + "&"@ + query_param(
        "scope"@,
        enc_str(c.scope),
    )
}

/// Builds the token-exchange request body for an authorization code.
pub fn token_exchange_body(c: &ProviderConfig, code: &str) -> (r: String)
    ensures
        r@ == token_body_spec(c@, code@),
{
    let mut r = String::new();
    r.append("code=");
    let e_code = qs_encode(code);
    r.append(e_code.as_str());
    r.append("&client_id=");
    let e_id = qs_encode(c.client_id.as_str());
    r.append(e_id.as_str());
    r.append("&client_secret=");
    let e_secret = qs_encode(c.client_secret.as_str());
    r.append(e_secret.as_str());
    r.append("&redirect_uri=");
    let e_cb = qs_encode(c.callback_url.as_str());
    r.append(e_cb.as_str());
    r.append("&grant_type=authorization_code&scope=");
    let e_scope = qs_encode(c.scope.as_str());
    r.append(e_scope.as_str());
    proof {
        reveal_strlit("code=");
        reveal_strlit("&client_id=");
        reveal_strlit("&client_secret=");
        reveal_strlit("&redirect_uri=");
        reveal_strlit("&grant_type=authorization_code&scope=");
        reveal_strlit("=");
        reveal_strlit("&");
        reveal_strlit("code");
        reveal_strlit("client_id");
        reveal_strlit("client_secret");
        reveal_strlit("redirect_uri");
        reveal_strlit("grant_type");
        reveal_strlit("authorization_code");
        reveal_strlit("scope");
        reveal_strlit("");
        assert(r@ =~= token_body_spec(c@, code@));
    }
    r
}

/// The reply is accepted exactly when the provider answered success and
/// the body parses to the five token fields.
pub open spec fn token_reply_accepted(reply: TokenEndpointReply) -> bool {
    match reply {
        TokenEndpointReply::Body(s) => token_fields_of(s@) is Some,
        _ => false,
    }
}

/// The outcome once the body has, or has not, parsed: any parsed token
/// authenticates the user (no signature or claims check, a known gap),
/// anything else is the one opaque error.
pub fn outcome_for_token(base_url: &str, parsed: Option<GoogleAuthResponse>) -> (r: OAuthCallbackResponse)
    ensures
        parsed is Some ==> (r matches OAuthCallbackResponse::SuccessfullyAuthenticated(t) && t@
            == base_url@),
        parsed is None ==> r == OAuthCallbackResponse::AuthenticationError,
{
    match parsed {
        Some(_token) => OAuthCallbackResponse::SuccessfullyAuthenticated(base_url.to_owned()),
        None => OAuthCallbackResponse::AuthenticationError,
    }
}

/// Decides the outcome of the exchange: transport failure, non-success
/// status and unreadable or unparsable bodies all collapse to the one
/// error; a body carrying the five token fields authenticates.
pub fn evaluate_token_reply(base_url: &str, reply: &TokenEndpointReply) -> (r: OAuthCallbackResponse)
    ensures
        token_reply_accepted(*reply) ==> (r
            matches OAuthCallbackResponse::SuccessfullyAuthenticated(t) && t@ == base_url@),
        !token_reply_accepted(*reply) ==> r == OAuthCallbackResponse::AuthenticationError,
{
    match reply {
        TokenEndpointReply::Body(s) => {
            let parsed = parse_token_response(s.as_str());
            outcome_for_token(base_url, parsed)
        },
        _ => OAuthCallbackResponse::AuthenticationError,
    }
}

} // verus!
