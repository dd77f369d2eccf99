//! The OAuth Service is used to request access to the API.

use core::marker::PhantomData;

use vstd::prelude::*;
use vstd::string::StringExecFns;

use crate::client::Client;
use crate::http::Method;
use crate::http::Request;
use crate::http::RequestBody;

verus! {

/// The payload used to exchange an authorization code for an access token
/// ([`AccessToken`]).
#[derive(Debug, PartialEq)]
pub struct OAuthTokenPayload {
    /// The client ID you received from Amphitheatre when you registered the
    /// application.
    pub client_id: String,
    /// The client secret you received from Amphitheatre when you registered
    /// the application.
    pub client_secret: String,
    /// The code acquired in the previous authorization step.
    pub code: String,
    /// Only used to validate that it matches the original /oauth/authorize,
    /// not used to redirect again.
    pub redirect_uri: String,
    /// The state content originally passed to /oauth/authorize.
    pub state: String,
}

/// The wire shape of the token exchange: the caller's payload plus the
/// fixed grant type. This is the one route that translates its payload
/// rather than passing it through.
#[derive(Debug, PartialEq)]
pub struct OAuthTokenParams {
    pub grant_type: String,
    pub client_id: String,
    pub client_secret: String,
    pub code: String,
    pub redirect_uri: String,
    pub state: String,
}

/// An access token containing the token to access the API.
#[derive(Debug, PartialEq)]
pub struct AccessToken {
    /// The token you can use to authenticate.
    pub access_token: String,
    /// The account ID in Amphitheatre this token belongs to.
    pub account_id: u64,
    /// The token scope (not used for now).
    pub scope: Option<String>,
    /// The token type.
    pub token_type: String,
}

/// The OAuth Service is used to request access to the API.
pub struct OAuth<'a> {
    pub client: &'a Client,
}

impl<'a> OAuth<'a> {
    /// Plans the request that exchanges the short-lived authorization code
    /// for an access token: POST `/oauth/access_token` with the caller's
    /// payload and the fixed grant type `authorization_code` — the grant
    /// type is never caller-supplied. The response carries an
    /// [`AccessToken`] record.
    pub fn exchange_authorization_for_token(&self, payload: OAuthTokenPayload) -> (r: Request<
        AccessToken,
    >)
        ensures
            r.method == Method::Post,
            r.path@ == "/oauth/access_token"@,
            r.query is None,
            r.body matches RequestBody::OAuth(data) && data.grant_type@ == "authorization_code"@
                && data.client_id == payload.client_id && data.client_secret
                == payload.client_secret && data.code == payload.code && data.redirect_uri
                == payload.redirect_uri && data.state == payload.state,
    {
        let data = OAuthTokenParams {
            grant_type: String::from_str("authorization_code"),
            client_id: payload.client_id,
            client_secret: payload.client_secret,
            code: payload.code,
            redirect_uri: payload.redirect_uri,
            state: payload.state,
        };
        Request {
            method: Method::Post,
            path: String::from_str("/oauth/access_token"),
            query: None,
            body: RequestBody::OAuth(data),
            decodes: PhantomData,
        }
    }
}

} // verus!
