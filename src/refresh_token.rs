//! The answer of an identity service to a refresh-token exchange.
use vstd::prelude::*;

verus! {

/// An OAuth2 access or refresh token, carried through unread.
#[verifier::external_type_specification]
#[verifier::external_body]
pub struct ExAccessToken(oauth2::AccessToken);

/// A refresh token response.
#[derive(Debug)]
pub struct RefreshTokenResponse {
    token_type: String,
    scopes: Vec<String>,
    expires_in: u64,
    ext_expires_in: u64,
    access_token: oauth2::AccessToken,
    refresh_token: oauth2::AccessToken,
}

impl RefreshTokenResponse {
    /// The kind of token.
    pub closed spec fn spec_token_type(&self) -> Seq<char> {
        self.token_type@
    }

    /// The scopes, in the order the service gave them.
    pub closed spec fn spec_scopes(&self) -> Seq<String> {
        self.scopes@
    }

    /// Seconds for which the access token is valid.
    pub closed spec fn spec_expires_in(&self) -> u64 {
        self.expires_in
    }

    /// Seconds of the access token's extended lifetime.
    pub closed spec fn spec_ext_expires_in(&self) -> u64 {
        self.ext_expires_in
    }

    /// The access token.
    pub closed spec fn spec_access_token(&self) -> oauth2::AccessToken {
        self.access_token
    }

    /// The refresh token.
    pub closed spec fn spec_refresh_token(&self) -> oauth2::AccessToken {
        self.refresh_token
    }

    /// A response made of the given parts.
    pub fn new(
        token_type: String,
        scopes: Vec<String>,
        expires_in: u64,
        ext_expires_in: u64,
        access_token: oauth2::AccessToken,
        refresh_token: oauth2::AccessToken,
    ) -> (r: Self)
        ensures
            r.spec_token_type() == token_type@,
            r.spec_scopes() == scopes@,
            r.spec_expires_in() == expires_in,
            r.spec_ext_expires_in() == ext_expires_in,
            r.spec_access_token() == access_token,
            r.spec_refresh_token() == refresh_token,
    {
        RefreshTokenResponse {
            token_type,
            scopes,
            expires_in,
            ext_expires_in,
            access_token,
            refresh_token,
        }
    }

    /// Returns the token_type. Always `Bearer` for Azure AD.
    pub fn token_type(&self) -> (r: &str)
        ensures
            r@ == self.spec_token_type(),
    {
        self.token_type.as_str()
    }

    /// The scopes that the `access_token` is valid for.
    pub fn scopes(&self) -> (r: &[String])
        ensures
            r@ == self.spec_scopes(),
    {
        self.scopes.as_slice()
    }

    /// Number of seconds the `access_token` is valid for.
    pub fn expires_in(&self) -> (r: u64)
        ensures
            r == self.spec_expires_in(),
    {
        self.expires_in
    }

    /// Issued for the scopes that were requested.
    pub fn access_token(&self) -> (r: &oauth2::AccessToken)
        ensures
            *r == self.spec_access_token(),
    {
        &self.access_token
    }

    /// The new refresh token, which should replace the old one.
    pub fn refresh_token(&self) -> (r: &oauth2::AccessToken)
        ensures
            *r == self.spec_refresh_token(),
    {
        &self.refresh_token
    }

    /// Indicates the extended lifetime of an `access_token`.
    pub fn ext_expires_in(&self) -> (r: u64)
        ensures
            r == self.spec_ext_expires_in(),
    {
        self.ext_expires_in
    }
}

} // verus!
