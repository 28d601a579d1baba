//! The revocation pre-flight check: a presented identity is trusted for privileged calls
//! only while its credential is not older than the holder's revocation time.
use crate::config::service_url_spec;
use crate::codec::Service;
use crate::context::{bad_url_reason, clock_error, clock_failed, correlation_key, headers_view, push_header, Context, Header, JWTPayload, Method, OutboundRequest};
use crate::error::GatewayError;
use crate::platform::{is_valid_url, unix_now_millis, url_parses};
use crate::text::{int_text, render_int};
use vstd::prelude::*;

verus! {

/// What the identity-owning backend knows of the holder.
#[derive(Clone, Copy, Debug, PartialEq, Eq, Structural)]
pub struct UserProfile {
    /// Credentials that expire before this time (seconds since the Unix epoch) are revoked.
    pub revoke_before: i64,
}

/// The URL of the current holder's profile.
pub open spec fn current_user_url_spec(c: Context) -> Seq<char> {
    service_url_spec(c.config, Service::Users) + "/users/current"@
}

/// The headers of the profile fetch: the credential under check and the correlation token.
pub open spec fn revocation_headers(c: Context, jwt: JWTPayload) -> Seq<(Seq<char>, Seq<char>)> {
    seq![("Authorization"@, int_text(jwt.user_id as int)), ("Correlation-Token"@, correlation_key(c))]
}

/// What preparing the profile fetch gives, for a given URL verdict and start time.
pub open spec fn revocation_prepared(
    c: Context,
    jwt: JWTPayload,
    url_ok: bool,
    started_ms: i64,
    r: Result<OutboundRequest, GatewayError>,
) -> bool {
    if !url_ok {
        r matches Err(GatewayError::DecodeFailure { reason }) && reason@ == bad_url_reason(
            current_user_url_spec(c),
        )
    } else {
        r matches Ok(q) && q.method == Method::Get && q.url@ == current_user_url_spec(c) && q.body
            is None && headers_view(q.headers@) == revocation_headers(c, jwt) && q.correlation@
            == correlation_key(c) && q.started_ms == started_ms && q.timeout_ms
            == c.config.call_timeout_ms
    }
}

/// The verdict on a credential, given what the profile fetch returned.
pub open spec fn revocation_verdict(
    jwt: JWTPayload,
    profile: Result<Option<UserProfile>, GatewayError>,
    r: Result<(), GatewayError>,
) -> bool {
    match profile {
        Err(e) => r == Err::<(), GatewayError>(e),
        Ok(None) => r == Err::<(), GatewayError>(GatewayError::IdentityNotFound),
        Ok(Some(p)) => if jwt.exp >= p.revoke_before {
            r == Ok::<(), GatewayError>(())
        } else {
            r == Err::<(), GatewayError>(GatewayError::JwtRevoked)
        },
    }
}

/// Decides whether a credential still stands: a failed fetch passes its error on, a
/// missing profile is `IdentityNotFound`, and a credential that expires before the
/// profile's revocation time is `JwtRevoked`.
pub fn check_jwt_not_revoked(
    jwt: &JWTPayload,
    profile: Result<Option<UserProfile>, GatewayError>,
) -> (r: Result<(), GatewayError>)
    ensures
        revocation_verdict(*jwt, profile, r),
{
    match profile {
        Err(e) => Err(e),
        Ok(None) => Err(GatewayError::IdentityNotFound),
        Ok(Some(p)) => {
            if jwt.exp >= p.revoke_before {
                Ok(())
            } else {
                Err(GatewayError::JwtRevoked)
            }
        },
    }
}

impl Context {
    /// The URL of the current holder's profile.
    pub fn current_user_url(&self) -> (r: String)
        ensures
            r@ == current_user_url_spec(*self),
    {
        let mut r = self.config.service_url(Service::Users).clone();
        r.append("/users/current");
        r
    }

    /// Prepares the profile fetch that the revocation check of `jwt` rests on, for a given
    /// URL verdict and start time. It presents `jwt` whether or not it has expired: the
    /// fetch is made whenever its URL parses.
    pub fn prepare_revocation_check(&self, jwt: JWTPayload, url_ok: bool, started_ms: i64) -> (r:
        Result<OutboundRequest, GatewayError>)
        ensures
            revocation_prepared(*self, jwt, url_ok, started_ms, r),
    {
        let url = self.current_user_url();
        if !url_ok {
            let mut reason = String::from_str("Malformed request url: ");
            reason.append(url.as_str());
            return Err(GatewayError::DecodeFailure { reason });
        }
        let mut headers: Vec<Header> = Vec::new();
        assert(headers_view(headers@) =~= Seq::empty());
        push_header(&mut headers, "Authorization", render_int(jwt.user_id as i64));
        push_header(&mut headers, "Correlation-Token", self.correlation());
        assert(headers_view(headers@) =~= revocation_headers(*self, jwt));
        Ok(
            OutboundRequest {
                method: Method::Get,
                url,
                body: None,
                headers,
                correlation: self.correlation(),
                started_ms,
                timeout_ms: self.config.call_timeout_ms,
            },
        )
    }

    /// Prepares the profile fetch of the revocation check now.
    pub fn revocation_check_request(&self, jwt: JWTPayload) -> (r: Result<
        OutboundRequest,
        GatewayError,
    >)
        ensures
            clock_failed(r) || exists|started_ms: i64|
                started_ms >= 0 && revocation_prepared(
                    *self,
                    jwt,
                    is_valid_url(current_user_url_spec(*self)),
                    started_ms,
                    r,
                ),
            is_valid_url(current_user_url_spec(*self)) ==> r is Ok || clock_failed(r),
    {
        let started_ms = match unix_now_millis() {
            Some(t) => t,
            None => return Err(clock_error()),
        };
        let url = self.current_user_url();
        let url_ok = url_parses(url.as_str());
        self.prepare_revocation_check(jwt, url_ok, started_ms)
    }
}

/// The permission queries of one request.
pub struct Permissions<'r> {
    pub context: &'r Context,
}

impl Context {
    pub fn permissions(&self) -> (r: Permissions<'_>)
        ensures
            *r.context == *self,
    {
        Permissions { context: self }
    }
}

impl<'r> Permissions<'r> {
    /// Whose store roles apply: the caller's, when it is authenticated. An anonymous
    /// caller has no store roles, so nothing is fetched for it.
    pub fn store_roles_user(&self) -> (r: Option<i32>)
        ensures
            r == (match self.context.user {
                Some(j) => Some(j.user_id),
                None => None::<i32>,
            }),
    {
        match self.context.user {
            Some(j) => Some(j.user_id),
            None => None,
        }
    }

    /// The caller's store roles, given the stores backend's answer for the user that
    /// `store_roles_user` names, if it names one: an anonymous caller has none, and an
    /// answer, roles or error, is passed on.
    pub fn store_roles<R>(&self, fetched: Option<Result<Vec<R>, GatewayError>>) -> (r: Result<
        Vec<R>,
        GatewayError,
    >)
        ensures
            self.context.user is None ==> (r matches Ok(v) && v@.len() == 0),
            self.context.user is Some ==> match fetched {
                Some(answer) => r == answer,
                None => r matches Ok(v) && v@.len() == 0,
            },
    {
        match (self.context.user, fetched) {
            (Some(_), Some(answer)) => answer,
            _ => Ok(Vec::new()),
        }
    }
}

} // verus!
