//! The provider redirect: the authorization URL that sends a user to the
//! identity provider's consent page.

use crate::config::{ProviderConfig, ProviderConfigView};
use crate::urlenc::{enc_str, qs_encode};
use vstd::prelude::*;

verus! {

/// One query parameter, `key=value`.
pub open spec fn query_param(k: Seq<char>, v: Seq<char>) -> Seq<char> {
    k + "="@ + v
}

/// The query string of the authorization URL: exactly the parameters
/// `redirect_uri`, `client_id`, `access_type=offline`,
/// `response_type=code` and `scope`, in that order, values
/// percent-encoded.
pub open spec fn authorization_query_spec(c: ProviderConfigView) -> Seq<char> {
    query_param("redirect_uri"@, enc_str(c.callback_url)) + "&"@ + query_param(
        "client_id"@,
        enc_str(c.client_id),
    ) + "&"@ + query_param("access_type"@, "offline"@) + "&"@ + query_param(
        "response_type"@,
        "code"@,
    ) + "&"@ + query_param("scope"@, enc_str(c.scope))
}

/// The full authorization URL: the configured authorization endpoint,
/// `?`, then the query string.
pub open spec fn authorization_url_spec(c: ProviderConfigView) -> Seq<char> {
    c.auth_url + "?"@ + authorization_query_spec(c)
}

/// A redirect of the user's browser to the provider's consent page.
#[derive(Debug, PartialEq, Eq)]
pub enum OAuthRedirectResponse {
    SuccessfulRedirect(String),
}

/// Builds the authorization URL from the configuration alone.
pub fn microsoft_redirect_string(c: &ProviderConfig) -> (r: String)
    ensures
        r@ == authorization_url_spec(c@),
{
    let mut r = String::new();
    r.append(c.auth_url.as_str());
    r.append("?redirect_uri=");
    let cb = qs_encode(c.callback_url.as_str());
    r.append(cb.as_str());
    r.append("&client_id=");
    let id = qs_encode(c.client_id.as_str());
    r.append(id.as_str());
    r.append("&access_type=offline&response_type=code&scope=");
    let sc = qs_encode(c.scope.as_str());
    r.append(sc.as_str());
    proof {
        reveal_strlit("?redirect_uri=");
        reveal_strlit("&client_id=");
        reveal_strlit("&access_type=offline&response_type=code&scope=");
        reveal_strlit("?");
        reveal_strlit("=");
        reveal_strlit("&");
        reveal_strlit("redirect_uri");
        reveal_strlit("client_id");
        reveal_strlit("access_type");
        reveal_strlit("offline");
        reveal_strlit("response_type");
        reveal_strlit("code");
        reveal_strlit("scope");
        reveal_strlit("");
        assert(r@ =~= authorization_url_spec(c@));
    }
    r
}

/// Building the authorization URL is deterministic and idempotent: any
/// two strings built from the same configuration are the same string.
pub proof fn lemma_authorization_url_deterministic(
    c: ProviderConfigView,
    r1: Seq<char>,
    r2: Seq<char>,
)
    requires
        r1 == authorization_url_spec(c),
        r2 == authorization_url_spec(c),
    ensures
        r1 == r2,
{
}

/// The authorization URL starts with the configured authorization
/// endpoint; what follows is `?` and then exactly the query string of
/// [`authorization_query_spec`].
pub proof fn lemma_authorization_url_shape(c: ProviderConfigView)
    ensures
        authorization_url_spec(c).take(c.auth_url.len() as int) == c.auth_url,
        authorization_url_spec(c).skip(c.auth_url.len() as int) == "?"@
            + authorization_query_spec(c),
{
    assert(authorization_url_spec(c).take(c.auth_url.len() as int) =~= c.auth_url);
    assert(authorization_url_spec(c).skip(c.auth_url.len() as int) =~= "?"@
        + authorization_query_spec(c));
}

} // verus!
