//! The identity provider's configuration, as the discovery document
//! describes it: the endpoint URIs and the issuer identity. Fetching the
//! document is the caller's transport concern; this module validates the
//! decoded fields and classifies the HTTP outcome.

use vstd::prelude::*;

use crate::errors::Error;
use crate::uri::check_absolute_uri;
use crate::uri::is_absolute_uri;
use vstd::string::StrSliceExecFns;
use vstd::string::StringSliceAdditionalSpecFns;
use vstd::utf8::encode_utf8;

verus! {

/// The configuration of the identity provider, retrieved from its discovery
/// endpoint: five absolute endpoint URIs and the issuer identity string.
#[derive(Debug)]
pub struct OidcConfigResponse {
    pub authorization_endpoint: String,
    pub token_endpoint: String,
    pub end_session_endpoint: String,
    pub revocation_endpoint: String,
    pub jwks_uri: String,
    pub issuer: String,
}

impl OidcConfigResponse {
    /// Well-formedness: every endpoint field is an absolute URI. The issuer
    /// is an opaque identity string.
    pub open spec fn wf(&self) -> bool {
        &&& is_absolute_uri(encode_utf8(self.authorization_endpoint@))
        &&& is_absolute_uri(encode_utf8(self.token_endpoint@))
        &&& is_absolute_uri(encode_utf8(self.end_session_endpoint@))
        &&& is_absolute_uri(encode_utf8(self.revocation_endpoint@))
        &&& is_absolute_uri(encode_utf8(self.jwks_uri@))
    }

    /// Builds a configuration from its six fields, validating that each
    /// endpoint is an absolute URI; rejects the first (in field order) that
    /// is not, carrying it in the error.
    pub fn new(
        authorization_endpoint: String,
        token_endpoint: String,
        end_session_endpoint: String,
        revocation_endpoint: String,
        jwks_uri: String,
        issuer: String,
    ) -> (r: Result<OidcConfigResponse, Error>)
        ensures
            ({
                if !is_absolute_uri(encode_utf8(authorization_endpoint@)) {
                    r matches Err(Error::Uri(m)) && m@ == authorization_endpoint@
                } else if !is_absolute_uri(encode_utf8(token_endpoint@)) {
                    r matches Err(Error::Uri(m)) && m@ == token_endpoint@
                } else if !is_absolute_uri(encode_utf8(end_session_endpoint@)) {
                    r matches Err(Error::Uri(m)) && m@ == end_session_endpoint@
                } else if !is_absolute_uri(encode_utf8(revocation_endpoint@)) {
                    r matches Err(Error::Uri(m)) && m@ == revocation_endpoint@
                } else if !is_absolute_uri(encode_utf8(jwks_uri@)) {
                    r matches Err(Error::Uri(m)) && m@ == jwks_uri@
                } else {
                    r matches Ok(c) && c.wf() && c.authorization_endpoint@
                        == authorization_endpoint@ && c.token_endpoint@ == token_endpoint@
                        && c.end_session_endpoint@ == end_session_endpoint@
                        && c.revocation_endpoint@ == revocation_endpoint@ && c.jwks_uri@
                        == jwks_uri@ && c.issuer@ == issuer@
                }
            }),
    {
        if !check_absolute_uri(authorization_endpoint.as_str().as_bytes_vec().as_slice()) {
            return Err(Error::Uri(authorization_endpoint));
        }
        if !check_absolute_uri(token_endpoint.as_str().as_bytes_vec().as_slice()) {
            return Err(Error::Uri(token_endpoint));
        }
        if !check_absolute_uri(end_session_endpoint.as_str().as_bytes_vec().as_slice()) {
            return Err(Error::Uri(end_session_endpoint));
        }
        if !check_absolute_uri(revocation_endpoint.as_str().as_bytes_vec().as_slice()) {
            return Err(Error::Uri(revocation_endpoint));
        }
        if !check_absolute_uri(jwks_uri.as_str().as_bytes_vec().as_slice()) {
            return Err(Error::Uri(jwks_uri));
        }
        Ok(OidcConfigResponse {
            authorization_endpoint,
            token_endpoint,
            end_session_endpoint,
            revocation_endpoint,
            jwks_uri,
            issuer,
        })
    }
}

/// Classifies the outcome of an HTTP exchange whose decoded body is handed
/// in by the transport: a non-success status is a transport error carrying
/// that status, a failed decode of a successful answer is a decode error,
/// and otherwise the decoded value passes through. Used for the discovery
/// and token-endpoint answers.
pub fn interpret_http_response<T>(status: u16, body: Result<T, String>) -> (r: Result<T, Error>)
    ensures
        !(200 <= status < 300) ==> (r matches Err(Error::Transport { status: s }) && s == status),
        200 <= status < 300 ==> match body {
            Err(m) => r matches Err(Error::Decode(d)) && d == m,
            Ok(v) => r matches Ok(rv) && rv == v,
        },
{
    if !(200 <= status && status < 300) {
        return Err(Error::Transport { status });
    }
    match body {
        Ok(v) => Ok(v),
        Err(m) => Err(Error::Decode(m)),
    }
}

/// Classifies the outcome of a revocation call, which carries no payload on
/// success: success exactly on a 2xx status, and a transport error carrying
/// the status otherwise.
pub fn interpret_revocation_response(status: u16) -> (r: Result<(), Error>)
    ensures
        r is Ok <==> 200 <= status < 300,
        !(200 <= status < 300) ==> (r matches Err(Error::Transport { status: s }) && s == status),
{
    if 200 <= status && status < 300 {
        Ok(())
    } else {
        Err(Error::Transport { status })
    }
}

} // verus!
