//! The per-request context and the dispatch pipeline: what an outbound call carries, when
//! it is refused before it is issued, and how its outcome is reported and logged.
use crate::config::Config;
use crate::error::{category_code, details_of, error_message, failure_category, map_failure, mapped, ErrorDetails, ErrorEnvelope, Failure, GatewayError};
use crate::platform::{fresh_uuid, is_v4_uuid_text, is_valid_url, millis_to_secs, unix_now_millis, url_parses};
use crate::text::{int_text, nat_digits, render_int, render_nat};
use vstd::prelude::*;

verus! {

/// The claims of an authenticated caller.
#[derive(Clone, Copy, Debug, PartialEq, Eq, Structural)]
pub struct JWTPayload {
    pub user_id: i32,
    /// Expiry, in seconds since the Unix epoch.
    pub exp: i64,
}

#[derive(Clone, Copy, Debug, PartialEq, Eq, Structural)]
pub enum Method {
    Get,
    Post,
    Put,
    Delete,
}

pub struct Header {
    pub name: String,
    pub value: String,
}

impl View for Header {
    type V = (Seq<char>, Seq<char>);

    open spec fn view(&self) -> (Seq<char>, Seq<char>) {
        (self.name@, self.value@)
    }
}

pub open spec fn headers_view(hs: Seq<Header>) -> Seq<(Seq<char>, Seq<char>)> {
    hs.map_values(|h: Header| h@)
}

/// State of one inbound request, shared read-only by all of its outbound calls.
pub struct Context {
    pub user: Option<JWTPayload>,
    pub session_id: Option<String>,
    pub currency: Option<String>,
    pub fiat_currency: Option<String>,
    pub correlation_token: Option<String>,
    /// Correlation fallback, generated once per inbound request.
    pub uuid: String,
    pub config: Config,
}

/// One call a resolver wants made.
pub struct OutboundCall {
    pub method: Method,
    pub url: String,
    pub body: Option<String>,
    /// An identity to present instead of the context's own.
    pub auth_override: Option<JWTPayload>,
}

/// A call ready to be issued by the transport.
pub struct OutboundRequest {
    pub method: Method,
    pub url: String,
    pub body: Option<String>,
    pub headers: Vec<Header>,
    /// The key that the call's log line carries.
    pub correlation: String,
    /// When the call was prepared, in milliseconds since the Unix epoch.
    pub started_ms: i64,
    /// The call's time budget; a call that exceeds it fails with `Failure::Timeout`.
    pub timeout_ms: u64,
}

/// The end of a dispatch: its error, if it failed, and its one log line.
pub struct Completion {
    pub error: Option<ErrorEnvelope>,
    pub log_line: String,
}

/// Settings for a client of one backend: where it is and which headers every call sends.
pub struct RestApiClientConfig {
    pub base_url: String,
    pub user_id: Option<i32>,
    pub headers: Vec<Header>,
}

pub open spec fn correlation_key(c: Context) -> Seq<char> {
    match c.correlation_token {
        Some(t) => t@,
        None => c.uuid@,
    }
}

pub open spec fn cookie_value(c: Context) -> Seq<char> {
    "UUID="@ + c.uuid@ + match c.session_id {
        Some(s) => "; SESSION_ID="@ + s@,
        None => Seq::<char>::empty(),
    }
}

pub open spec fn opt_header(name: Seq<char>, v: Option<String>) -> Seq<(Seq<char>, Seq<char>)> {
    match v {
        Some(x) => seq![(name, x@)],
        None => Seq::empty(),
    }
}

/// The identity a call presents: its override, else the context's own.
pub open spec fn call_identity(c: Context, call: OutboundCall) -> Option<JWTPayload> {
    if call.auth_override is Some {
        call.auth_override
    } else {
        c.user
    }
}

/// The headers of a call: the credential and the session cookie when it is authenticated,
/// the currency headers when the context has them, and always the correlation token.
pub open spec fn request_headers(
    c: Context,
    identity: Option<JWTPayload>,
    authenticated: bool,
) -> Seq<(Seq<char>, Seq<char>)> {
    let auth = match identity {
        Some(j) => seq![("Authorization"@, int_text(j.user_id as int))],
        None => Seq::empty(),
    };
    let context = opt_header("Currency"@, c.currency) + opt_header("FiatCurrency"@, c.fiat_currency);
    let correlation = seq![("Correlation-Token"@, correlation_key(c))];
    if authenticated {
        auth + context + seq![("Cookie"@, cookie_value(c))] + correlation
    } else {
        context + correlation
    }
}

/// The expiry check and the logged start of a call come from one reading of the clock,
/// taken at or after the Unix epoch.
pub open spec fn one_clock_reading(now_secs: i64, started_ms: i64) -> bool {
    started_ms >= 0 && now_secs as int == started_ms as int / 1000
}

pub open spec fn clock_reason() -> Seq<char> {
    "The system clock reads before the Unix epoch."@
}

/// The call failed because the clock could not be read.
pub open spec fn clock_failed(r: Result<OutboundRequest, GatewayError>) -> bool {
    r matches Err(GatewayError::Unknown { reason }) && reason@ == clock_reason()
}

/// What preparing a call now gives: the prepared call for one reading of the clock and the
/// URL's verdict, or the clock failure when the clock cannot be read.
pub open spec fn dispatched(
    c: Context,
    call: OutboundCall,
    authenticated: bool,
    r: Result<OutboundRequest, GatewayError>,
) -> bool {
    clock_failed(r) || exists|now_secs: i64, started_ms: i64|
        one_clock_reading(now_secs, started_ms) && prepared(
            c,
            call,
            authenticated,
            now_secs,
            is_valid_url(call.url@),
            started_ms,
            r,
        )
}

/// The error for a clock that cannot be read.
pub fn clock_error() -> (e: GatewayError)
    ensures
        clock_failed(Err(e)),
{
    GatewayError::Unknown { reason: String::from_str("The system clock reads before the Unix epoch.") }
}

pub open spec fn is_expired(j: JWTPayload, now_secs: int) -> bool {
    j.exp < now_secs
}

pub open spec fn bad_url_reason(url: Seq<char>) -> Seq<char> {
    "Malformed request url: "@ + url
}

/// What preparing a call gives, for a given current time (seconds), URL verdict and start
/// time (milliseconds).
pub open spec fn prepared(
    c: Context,
    call: OutboundCall,
    authenticated: bool,
    now_secs: i64,
    url_ok: bool,
    started_ms: i64,
    r: Result<OutboundRequest, GatewayError>,
) -> bool {
    let identity = call_identity(c, call);
    if authenticated && identity is Some && is_expired(identity->0, now_secs as int) {
        r == Err::<OutboundRequest, GatewayError>(GatewayError::JwtExpired)
    } else if !url_ok {
        r matches Err(GatewayError::DecodeFailure { reason }) && reason@ == bad_url_reason(
            call.url@,
        )
    } else {
        r matches Ok(q) && q.method == call.method && q.url == call.url && q.body == call.body
            && headers_view(q.headers@) == request_headers(c, identity, authenticated)
            && q.correlation@ == correlation_key(c) && q.started_ms == started_ms
            && q.timeout_ms == c.config.call_timeout_ms
    }
}

/// Three digits, zero-padded, of a number below 1000.
pub open spec fn pad3(n: nat) -> Seq<char> {
    if n < 10 {
        "00"@ + nat_digits(n)
    } else if n < 100 {
        "0"@ + nat_digits(n)
    } else {
        nat_digits(n)
    }
}

/// Elapsed time as seconds and the millisecond remainder: `12.045`.
pub open spec fn elapsed_text(ms: nat) -> Seq<char> {
    nat_digits(ms / 1000) + "."@ + pad3(ms % 1000)
}

/// How a failure is described in a log line.
pub open spec fn detail_text(e: ErrorEnvelope) -> Seq<char> {
    e.message@ + match e.details {
        ErrorDetails::Status { status, .. } => " (status "@ + nat_digits(status as nat) + ")"@,
        ErrorDetails::Text(t) => ": "@ + t@,
    }
}

/// The one log line of a dispatch.
pub open spec fn log_line_spec(
    url: Seq<char>,
    elapsed_ms: nat,
    key: Seq<char>,
    detail: Option<Seq<char>>,
) -> Seq<char> {
    let tail = ", elapsed time: "@ + elapsed_text(elapsed_ms) + ", correlation token: "@ + key;
    match detail {
        None => "Request to microservice: "@ + url + tail,
        Some(d) => "Request to microservice: "@ + url + " failed with error `"@ + d + "`"@ + tail,
    }
}

/// Milliseconds from `start` to `end`; zero if the clock went back.
pub open spec fn elapsed_between(start: i64, end: i64) -> nat {
    if end > start {
        (end - start) as nat
    } else {
        0
    }
}

/// What ending a dispatch at `now_ms` gives: no error and a success line, or the mapped
/// failure in its envelope and a failure line that describes it.
pub open spec fn completed(
    q: OutboundRequest,
    failure: Option<Failure>,
    now_ms: i64,
    r: Completion,
) -> bool {
    match failure {
        None => r.error is None && r.log_line@ == log_line_spec(
            q.url@,
            elapsed_between(q.started_ms, now_ms),
            q.correlation@,
            None,
        ),
        Some(f) => r.error matches Some(env) && env.code == category_code(failure_category(f))
            && (exists|e: GatewayError|
            mapped(f, e) && env.message@ == error_message(e) && details_of(e, env.details))
            && r.log_line@ == log_line_spec(
            q.url@,
            elapsed_between(q.started_ms, now_ms),
            q.correlation@,
            Some(detail_text(env)),
        ),
    }
}

pub(crate) fn push_header(hs: &mut Vec<Header>, name: &str, value: String)
    ensures
        headers_view(final(hs)@) == headers_view(old(hs)@).push((name@, value@)),
{
    let ghost before = old(hs)@;
    hs.push(Header { name: String::from_str(name), value });
    assert(headers_view(hs@) =~= headers_view(before).push((name@, value@)));
}

fn clone_opt(s: &Option<String>) -> (r: Option<String>)
    ensures
        r == *s,
{
    match s {
        Some(x) => Some(x.clone()),
        None => None,
    }
}

impl Context {
    /// A context for one inbound request; its correlation fallback is a fresh UUID.
    pub fn new(
        user: Option<JWTPayload>,
        session_id: Option<String>,
        currency: Option<String>,
        fiat_currency: Option<String>,
        config: Config,
        correlation_token: Option<String>,
    ) -> (r: Context)
        ensures
            r.user == user && r.session_id == session_id && r.currency == currency
                && r.fiat_currency == fiat_currency && r.config == config
                && r.correlation_token == correlation_token,
            is_v4_uuid_text(r.uuid@),
    {
        let uuid = fresh_uuid();
        Context { user, session_id, currency, fiat_currency, correlation_token, uuid, config }
    }

    /// The correlation key of every call of this request.
    pub fn correlation(&self) -> (r: String)
        ensures
            r@ == correlation_key(*self),
    {
        match &self.correlation_token {
            Some(t) => t.clone(),
            None => self.uuid.clone(),
        }
    }

    fn cookie(&self) -> (r: String)
        ensures
            r@ == cookie_value(*self),
    {
        let mut r = String::from_str("UUID=");
        r.append(self.uuid.as_str());
        match &self.session_id {
            Some(s) => {
                r.append("; SESSION_ID=");
                r.append(s.as_str());
            },
            None => {},
        }
        assert(r@ =~= cookie_value(*self));
        r
    }

    fn headers_for(&self, identity: Option<JWTPayload>, authenticated: bool) -> (r: Vec<Header>)
        ensures
            headers_view(r@) == request_headers(*self, identity, authenticated),
    {
        let mut hs: Vec<Header> = Vec::new();
        assert(headers_view(hs@) =~= Seq::empty());
        if authenticated {
            match identity {
                Some(j) => push_header(&mut hs, "Authorization", render_int(j.user_id as i64)),
                None => {},
            }
        }
        let ghost after_auth = headers_view(hs@);
        match &self.currency {
            Some(c) => push_header(&mut hs, "Currency", c.clone()),
            None => {},
        }
        match &self.fiat_currency {
            Some(c) => push_header(&mut hs, "FiatCurrency", c.clone()),
            None => {},
        }
        let ghost after_context = headers_view(hs@);
        assert(after_context =~= after_auth + opt_header("Currency"@, self.currency) + opt_header(
            "FiatCurrency"@,
            self.fiat_currency,
        ));
        if authenticated {
            push_header(&mut hs, "Cookie", self.cookie());
        }
        push_header(&mut hs, "Correlation-Token", self.correlation());
        assert(headers_view(hs@) =~= request_headers(*self, identity, authenticated));
        hs
    }

    /// Prepares a call for a given current time and URL verdict. An authenticated call whose
    /// identity has expired is refused before anything else; then a call whose URL does
    /// not parse; otherwise the request carries the call and its headers.
    pub fn prepare(
        &self,
        call: OutboundCall,
        authenticated: bool,
        now_secs: i64,
        url_ok: bool,
        started_ms: i64,
    ) -> (r: Result<OutboundRequest, GatewayError>)
        ensures
            prepared(*self, call, authenticated, now_secs, url_ok, started_ms, r),
    {
        let identity = match call.auth_override {
            Some(j) => Some(j),
            None => self.user,
        };
        if authenticated {
            match identity {
                Some(j) => {
                    if j.exp < now_secs {
                        return Err(GatewayError::JwtExpired);
                    }
                },
                None => {},
            }
        }
        if !url_ok {
            let mut reason = String::from_str("Malformed request url: ");
            reason.append(call.url.as_str());
            return Err(GatewayError::DecodeFailure { reason });
        }
        let headers = self.headers_for(identity, authenticated);
        Ok(
            OutboundRequest {
                method: call.method,
                url: call.url,
                body: call.body,
                headers,
                correlation: self.correlation(),
                started_ms,
                timeout_ms: self.config.call_timeout_ms,
            },
        )
    }

    /// Prepares a call now: reads the clock and checks the URL.
    pub fn dispatch(&self, call: OutboundCall, authenticated: bool) -> (r: Result<
        OutboundRequest,
        GatewayError,
    >)
        ensures
            dispatched(*self, call, authenticated, r),
    {
        let started_ms = match unix_now_millis() {
            Some(t) => t,
            None => return Err(clock_error()),
        };
        let now_secs = millis_to_secs(started_ms);
        let url_ok = url_parses(call.url.as_str());
        let ghost c = call;
        let r = self.prepare(call, authenticated, now_secs, url_ok, started_ms);
        assert(one_clock_reading(now_secs, started_ms));
        assert(prepared(*self, c, authenticated, now_secs, is_valid_url(c.url@), started_ms, r));
        assert(dispatched(*self, c, authenticated, r));
        r
    }

    /// An authenticated call with the context's identity.
    pub fn request(&self, method: Method, url: String, body: Option<String>) -> (r: Result<
        OutboundRequest,
        GatewayError,
    >)
        ensures
            dispatched(*self, OutboundCall { method, url, body, auth_override: None }, true, r),
    {
        self.dispatch(OutboundCall { method, url, body, auth_override: None }, true)
    }

    /// A call that presents no identity and no session.
    pub fn request_without_auth(&self, method: Method, url: String, body: Option<String>) -> (r:
        Result<OutboundRequest, GatewayError>)
        ensures
            dispatched(*self, OutboundCall { method, url, body, auth_override: None }, false, r),
    {
        self.dispatch(OutboundCall { method, url, body, auth_override: None }, false)
    }

    /// Settings for a client of one backend, sending this request's correlation token.
    pub fn get_rest_api_client(&self, s: crate::codec::Service) -> (r: RestApiClientConfig)
        ensures
            r.base_url@ == crate::config::service_url_spec(self.config, s),
            r.user_id == (match self.user {
                Some(j) => Some(j.user_id),
                None => None::<i32>,
            }),
            headers_view(r.headers@) == seq![("Correlation-Token"@, correlation_key(*self))],
    {
        let mut headers: Vec<Header> = Vec::new();
        assert(headers_view(headers@) =~= Seq::empty());
        push_header(&mut headers, "Correlation-Token", self.correlation());
        assert(headers_view(headers@) =~= seq![("Correlation-Token"@, correlation_key(*self))]);
        let user_id = match self.user {
            Some(j) => Some(j.user_id),
            None => None,
        };
        RestApiClientConfig { base_url: self.config.service_url(s).clone(), user_id, headers }
    }
}

fn pad3_text(n: u64) -> (r: String)
    requires
        n < 1000,
    ensures
        r@ == pad3(n as nat),
{
    let digits = render_nat(n as u128);
    if n < 10 {
        let mut r = String::from_str("00");
        r.append(digits.as_str());
        r
    } else if n < 100 {
        let mut r = String::from_str("0");
        r.append(digits.as_str());
        r
    } else {
        digits
    }
}

/// Renders an elapsed time as seconds and the millisecond remainder.
pub fn elapsed_string(ms: u64) -> (r: String)
    ensures
        r@ == elapsed_text(ms as nat),
{
    let mut r = render_nat((ms / 1000) as u128);
    r.append(".");
    let p = pad3_text(ms % 1000);
    r.append(p.as_str());
    r
}

/// How a failure is described in a log line.
pub fn detail_string(e: &ErrorEnvelope) -> (r: String)
    ensures
        r@ == detail_text(*e),
{
    let mut r = e.message.clone();
    match &e.details {
        ErrorDetails::Status { status, .. } => {
            r.append(" (status ");
            let s = render_nat(*status as u128);
            r.append(s.as_str());
            r.append(")");
        },
        ErrorDetails::Text(t) => {
            r.append(": ");
            r.append(t.as_str());
        },
    }
    r
}

/// The one log line of a dispatch.
pub fn log_line(url: &str, elapsed_ms: u64, key: &str, detail: Option<&str>) -> (r: String)
    ensures
        r@ == log_line_spec(
            url@,
            elapsed_ms as nat,
            key@,
            match detail {
                Some(d) => Some(d@),
                None => None::<Seq<char>>,
            },
        ),
{
    let mut r = String::from_str("Request to microservice: ");
    r.append(url);
    match detail {
        Some(d) => {
            r.append(" failed with error `");
            r.append(d);
            r.append("`");
        },
        None => {},
    }
    r.append(", elapsed time: ");
    let e = elapsed_string(elapsed_ms);
    r.append(e.as_str());
    r.append(", correlation token: ");
    r.append(key);
    r
}

impl OutboundRequest {
    /// Ends a dispatch at a given time: the failure, if any, goes through the error
    /// mapper, and exactly one log line is written either way.
    pub fn finish_at(&self, failure: Option<Failure>, now_ms: i64) -> (r: Completion)
        ensures
            completed(*self, failure, now_ms, r),
    {
        let elapsed: u64 = if now_ms > self.started_ms {
            let d: i128 = now_ms as i128 - self.started_ms as i128;
            d as u64
        } else {
            0
        };
        match failure {
            None => Completion {
                error: None,
                log_line: log_line(self.url.as_str(), elapsed, self.correlation.as_str(), None),
            },
            Some(f) => {
                let e = map_failure(f);
                let env = e.into_envelope();
                let detail = detail_string(&env);
                let line = log_line(
                    self.url.as_str(),
                    elapsed,
                    self.correlation.as_str(),
                    Some(detail.as_str()),
                );
                Completion { error: Some(env), log_line: line }
            },
        }
    }

    /// Ends a dispatch now; an unreadable clock counts no elapsed time.
    pub fn finish(&self, failure: Option<Failure>) -> (r: Completion)
        ensures
            exists|now_ms: i64| completed(*self, failure, now_ms, r),
    {
        let now_ms = match unix_now_millis() {
            Some(t) => t,
            None => self.started_ms,
        };
        self.finish_at(failure, now_ms)
    }
}

/// An authenticated call whose identity expired before the current time is refused with
/// `JwtExpired`: no request comes out, so nothing can be issued.
pub proof fn lemma_expired_identity_refused(
    c: Context,
    call: OutboundCall,
    now_secs: i64,
    url_ok: bool,
    started_ms: i64,
    r: Result<OutboundRequest, GatewayError>,
)
    requires
        prepared(c, call, true, now_secs, url_ok, started_ms, r),
        call_identity(c, call) matches Some(j) && j.exp < now_secs,
    ensures
        r == Err::<OutboundRequest, GatewayError>(GatewayError::JwtExpired),
{
}

/// Calls of one inbound request never mix their correlation: each call prepared from the
/// context carries the context's key, and the log line of each call names its own URL
/// with that key, whatever the other call does.
pub proof fn lemma_correlation_per_call(
    c: Context,
    call1: OutboundCall,
    call2: OutboundCall,
    auth1: bool,
    auth2: bool,
    now1: i64,
    now2: i64,
    started1: i64,
    started2: i64,
    q1: OutboundRequest,
    q2: OutboundRequest,
    failure1: Option<Failure>,
    failure2: Option<Failure>,
    end1: i64,
    end2: i64,
    done1: Completion,
    done2: Completion,
)
    requires
        prepared(c, call1, auth1, now1, true, started1, Ok(q1)),
        prepared(c, call2, auth2, now2, true, started2, Ok(q2)),
        completed(q1, failure1, end1, done1),
        completed(q2, failure2, end2, done2),
    ensures
        q1.correlation@ == correlation_key(c),
        q2.correlation@ == correlation_key(c),
        exists|d: Option<Seq<char>>|
            done1.log_line@ == log_line_spec(
                call1.url@,
                elapsed_between(started1, end1),
                correlation_key(c),
                d,
            ),
        exists|d: Option<Seq<char>>|
            done2.log_line@ == log_line_spec(
                call2.url@,
                elapsed_between(started2, end2),
                correlation_key(c),
                d,
            ),
{
    let id1 = call_identity(c, call1);
    let id2 = call_identity(c, call2);
    if auth1 && id1 is Some && is_expired(id1->0, now1 as int) {
        assert(false);
    }
    if auth2 && id2 is Some && is_expired(id2->0, now2 as int) {
        assert(false);
    }
    match failure1 {
        None => {
            assert(done1.log_line@ == log_line_spec(call1.url@, elapsed_between(started1, end1), correlation_key(c), None));
        },
        Some(f) => {
            let env = done1.error->0;
            assert(done1.log_line@ == log_line_spec(call1.url@, elapsed_between(started1, end1), correlation_key(c), Some(detail_text(env))));
        },
    }
    match failure2 {
        None => {
            assert(done2.log_line@ == log_line_spec(call2.url@, elapsed_between(started2, end2), correlation_key(c), None));
        },
        Some(f) => {
            let env = done2.error->0;
            assert(done2.log_line@ == log_line_spec(call2.url@, elapsed_between(started2, end2), correlation_key(c), Some(detail_text(env))));
        },
    }
}

} // verus!
