//! Static client configuration for the identity provider.
//!
//! Loaded once at startup; every field must be non-empty, a missing value
//! is a fatal configuration error, never a per-request one.

use vstd::prelude::*;

verus! {

/// The mathematical content of a [`ProviderConfig`].
pub ghost struct ProviderConfigView {
    pub auth_url: Seq<char>,
    pub token_url: Seq<char>,
    pub client_id: Seq<char>,
    pub client_secret: Seq<char>,
    pub tenant: Seq<char>,
    pub callback_url: Seq<char>,
    pub scope: Seq<char>,
    pub base_url: Seq<char>,
}

/// Immutable, process-wide provider configuration: endpoints, client
/// credentials, realm, the callback that the provider redirects to, the
/// scope requested, and the service base URL users land on after login.
pub struct ProviderConfig {
    pub auth_url: String,
    pub token_url: String,
    pub client_id: String,
    pub client_secret: String,
    pub tenant: String,
    pub callback_url: String,
    pub scope: String,
    pub base_url: String,
}

impl View for ProviderConfig {
    type V = ProviderConfigView;

    open spec fn view(&self) -> ProviderConfigView {
        ProviderConfigView {
            auth_url: self.auth_url@,
            token_url: self.token_url@,
            client_id: self.client_id@,
            client_secret: self.client_secret@,
            tenant: self.tenant@,
            callback_url: self.callback_url@,
            scope: self.scope@,
            base_url: self.base_url@,
        }
    }
}

impl ProviderConfigView {
    /// Every configuration field is non-empty.
    pub open spec fn wf(self) -> bool {
        self.auth_url.len() > 0 && self.token_url.len() > 0 && self.client_id.len() > 0
            && self.client_secret.len() > 0 && self.tenant.len() > 0
            && self.callback_url.len() > 0 && self.scope.len() > 0 && self.base_url.len() > 0
    }
}

/// A fatal startup error: some configuration value is absent.
#[derive(Debug, PartialEq, Eq, Clone, Copy)]
pub enum ConfigError {
    EmptyField,
}

impl ProviderConfig {
    pub open spec fn wf(self) -> bool {
        self@.wf()
    }

    /// Builds the configuration, rejecting it when any field is empty.
    pub fn new(
        auth_url: String,
        token_url: String,
        client_id: String,
        client_secret: String,
        tenant: String,
        callback_url: String,
        scope: String,
        base_url: String,
    ) -> (r: Result<ProviderConfig, ConfigError>)
        ensures
            r is Ok <==> auth_url@.len() > 0 && token_url@.len() > 0 && client_id@.len() > 0
                && client_secret@.len() > 0 && tenant@.len() > 0 && callback_url@.len() > 0
                && scope@.len() > 0 && base_url@.len() > 0,
            r matches Ok(c) ==> c@ == (ProviderConfigView {
                auth_url: auth_url@,
                token_url: token_url@,
                client_id: client_id@,
                client_secret: client_secret@,
                tenant: tenant@,
                callback_url: callback_url@,
                scope: scope@,
                base_url: base_url@,
            }) && c.wf(),
            r matches Err(e) ==> e == ConfigError::EmptyField,
    {
        if auth_url.as_str().is_empty() || token_url.as_str().is_empty()
            || client_id.as_str().is_empty() || client_secret.as_str().is_empty()
            || tenant.as_str().is_empty() || callback_url.as_str().is_empty()
            || scope.as_str().is_empty() || base_url.as_str().is_empty() {
            Err(ConfigError::EmptyField)
        } else {
            Ok(
                ProviderConfig {
                    auth_url,
                    token_url,
                    client_id,
                    client_secret,
                    tenant,
                    callback_url,
                    scope,
                    base_url,
                },
            )
        }
    }
}

} // verus!
