//! The per-process authentication service: the configuration and the
//! authorization URL, cached once and reused by every request.

use crate::config::ProviderConfig;
use crate::redirect::{authorization_url_spec, microsoft_redirect_string, OAuthRedirectResponse};
use crate::token::{
    evaluate_token_reply, token_body_spec, token_exchange_body, token_reply_accepted,
    OAuthCallbackResponse, TokenEndpointReply,
};
use vstd::prelude::*;

verus! {

/// The authentication service: read-only after construction and shared
/// across concurrent requests.
pub struct AuthApi {
    pub config: ProviderConfig,
    pub redirect: String,
}

impl AuthApi {
    /// The cached redirect is the authorization URL of the configuration.
    pub open spec fn wf(self) -> bool {
        self.config.wf() && self.redirect@ == authorization_url_spec(self.config@)
    }

    /// Builds the service, caching the authorization URL once.
    pub fn new(config: ProviderConfig) -> (r: AuthApi)
        requires
            config.wf(),
        ensures
            r.config == config,
            r.wf(),
    {
        let redirect = microsoft_redirect_string(&config);
        AuthApi { config, redirect }
    }

    /// The redirect that sends the user's browser to the provider's
    /// consent page: always the cached authorization URL.
    pub fn microsoft_redirect(&self) -> (r: OAuthRedirectResponse)
        ensures
            r matches OAuthRedirectResponse::SuccessfulRedirect(t) && t@ == self.redirect@,
    {
        OAuthRedirectResponse::SuccessfulRedirect(self.redirect.clone())
    }

    /// The form-encoded body of the token exchange for this callback's
    /// authorization code.  The provider guarantees a non-empty code on
    /// success callbacks.
    pub fn ms_callback_body(&self, code: &str) -> (r: String)
        requires
            code@.len() > 0,
        ensures
            r@ == token_body_spec(self.config@, code@),
    {
        token_exchange_body(&self.config, code)
    }

    /// The outcome of the callback, given what the token endpoint came
    /// back with: a parsed token authenticates and redirects to the
    /// service base URL, everything else is the one opaque error.
    pub fn ms_callback_outcome(&self, reply: &TokenEndpointReply) -> (r: OAuthCallbackResponse)
        ensures
            token_reply_accepted(*reply) ==> (r
                matches OAuthCallbackResponse::SuccessfullyAuthenticated(t) && t@
                == self.config@.base_url),
            !token_reply_accepted(*reply) ==> r == OAuthCallbackResponse::AuthenticationError,
    {
        evaluate_token_reply(self.config.base_url.as_str(), reply)
    }
}

} // verus!
