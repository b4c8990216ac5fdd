//! The one HTTP exchange every Gmail REST coroutine wraps.
//!
//! [`GmailSend`] builds the authorized request (bearer token, JSON in
//! and out) and interprets the reply: a 2xx body is handed over as JSON
//! bytes, any other status becomes [`GmailSendError::ApiError`] read
//! from Gmail's error envelope, and redirects are never followed.

use crate::coroutine::GmailCoroutine;
use crate::coroutine::GmailCoroutineState;
use crate::coroutine::GmailYield;
use crate::error::api_error_spec;
use crate::error::parse_api_error;
use crate::json::check_json;
use crate::json::json_well_formed;
use crate::v1::http::bearer_authorization;
use crate::v1::http::GmailBearer;
use crate::v1::http::http11_resume;
use crate::v1::http::chunk_scan;
use crate::v1::http::fed_bytes;
use crate::v1::http::http11_finished;
use crate::v1::http::oversized_input;
use crate::v1::http::scan_input;
use crate::v1::http::ChunkScan;
use crate::v1::http::http11_step;
use crate::v1::http::input_view;
use crate::v1::http::GmailHttpExchange;
use crate::v1::http::GmailHttpStepView;
use crate::v1::query::pairs_view;
use crate::v1::http::resolve_url;
use crate::v1::http::url_join;
use crate::v1::http::url_host;
use crate::v1::http::GmailHttpRequest;
use crate::v1::http::GmailHttpStep;
use crate::v1::http::GmailUrl;
use io_http::rfc9112::send::Http11SendError;
use url::ParseError;
use vstd::prelude::*;
use vstd::utf8::encode_utf8;

verus! {

/// Base URL of every Gmail REST v1 method.
pub const GMAIL_API_BASE: &'static str = "https://gmail.googleapis.com/gmail/v1/";

/// Base URL of the Gmail media upload methods.
pub const GMAIL_UPLOAD_BASE: &'static str = "https://gmail.googleapis.com/upload/gmail/v1/";

/// The response of the methods whose reply body carries nothing of use
/// (it must still be a JSON document, or empty).
#[derive(Debug, Clone, Copy, Default, PartialEq, Eq)]
pub struct GmailNoResponse;

/// Another name of [`GmailNoResponse`], kept for existing callers.
pub type NoResponse = GmailNoResponse;

/// Failure of a Gmail exchange.
#[derive(Debug)]
pub enum GmailSendError {
    /// The HTTP/1.1 exchange itself failed.
    SendHttp(Http11SendError),
    /// The request body could not be written as JSON.
    SerializeRequest(serde_json::Error),
    /// The response body could not be read as the expected JSON.
    ParseResponse(serde_json::Error),
    /// The request URL could not be built.
    ParseUrl(ParseError),
    /// The request was refused before being sent.
    InvalidRequest(String),
    /// Gmail answered with a non-2xx status.
    ApiError {
        /// The status (Gmail's own error code when it gives one).
        status: u16,
        /// Gmail's error message.
        message: String,
    },
    /// The server answered with a redirect, which is never followed.
    UnexpectedRedirect,
    /// The reply announced a chunk larger than the HTTP/1.1 reader can
    /// count, so it was not read on.
    ChunkSizeOverflow,
}

impl From<Http11SendError> for GmailSendError {
    /// A failed HTTP/1.1 exchange.
    fn from(err: Http11SendError) -> (r: Self) {
        GmailSendError::SendHttp(err)
    }
}

impl vstd::std_specs::convert::FromSpecImpl<Http11SendError> for GmailSendError {
    open spec fn obeys_from_spec() -> bool {
        true
    }

    open spec fn from_spec(err: Http11SendError) -> Self {
        GmailSendError::SendHttp(err)
    }
}

impl From<ParseError> for GmailSendError {
    /// A request URL that could not be built.
    fn from(err: ParseError) -> (r: Self) {
        GmailSendError::ParseUrl(err)
    }
}

impl vstd::std_specs::convert::FromSpecImpl<ParseError> for GmailSendError {
    open spec fn obeys_from_spec() -> bool {
        true
    }

    open spec fn from_spec(err: ParseError) -> Self {
        GmailSendError::ParseUrl(err)
    }
}

impl GmailSendError {
    /// The API status this error carries, if it is an API error.
    pub open spec fn spec_status(&self) -> Option<u16> {
        match self {
            GmailSendError::ApiError { status, .. } => Some(*status),
            _ => None,
        }
    }

    /// Whether retrying the request later may succeed: rate limiting
    /// (429) and transient server errors (500, 502, 503, 504).
    pub open spec fn spec_is_retryable(&self) -> bool {
        match self.spec_status() {
            Some(s) => s == 429 || s == 500 || s == 502 || s == 503 || s == 504,
            None => false,
        }
    }

    /// Returns the API status of an API error, `None` for any other error.
    pub fn status(&self) -> (r: Option<u16>)
        ensures
            r == self.spec_status(),
    {
        match self {
            GmailSendError::ApiError { status, .. } => Some(*status),
            _ => None,
        }
    }

    /// Returns whether the request is worth retrying later.
    pub fn is_retryable(&self) -> (r: bool)
        ensures
            r == self.spec_is_retryable(),
    {
        match self.status() {
            Some(s) => s == 429 || s == 500 || s == 502 || s == 503 || s == 504,
            None => false,
        }
    }
}

/// Terminal value of a successful exchange: the response plus whether
/// the connection can be reused for the next request.
#[derive(Debug)]
pub struct GmailSendOutput<T> {
    /// The response (for [`GmailSend`], the JSON body bytes).
    pub response: T,
    /// Whether the server allows the connection to be reused.
    pub keep_alive: bool,
}

/// The request as values: method, URL, headers in order, body.
pub struct GmailRequestSpec {
    /// The method.
    pub method: Seq<char>,
    /// The serialization of the URL.
    pub url: Seq<char>,
    /// The headers, in order.
    pub headers: Seq<(Seq<char>, Seq<char>)>,
    /// The body.
    pub body: Seq<u8>,
}

impl View for GmailHttpRequest {
    type V = GmailRequestSpec;

    open spec fn view(&self) -> GmailRequestSpec {
        GmailRequestSpec {
            method: self.method@,
            url: self.url@,
            headers: pairs_view(self.headers@),
            body: self.body@,
        }
    }
}

/// The `Host` header value for a URL: its host, or `localhost`.
pub open spec fn host_header(host: Option<Seq<char>>) -> Seq<char> {
    match host {
        Some(h) => h,
        None => "localhost"@,
    }
}

/// The headers of a Gmail request: `Host`, `Accept: application/json`,
/// `Authorization: <authorization>`, then `Content-Type` when given.
pub open spec fn gmail_headers(
    host: Option<Seq<char>>,
    authorization: Seq<char>,
    content_type: Option<Seq<char>>,
) -> Seq<(Seq<char>, Seq<char>)> {
    seq![
        ("Host"@, host_header(host)),
        ("Accept"@, "application/json"@),
        ("Authorization"@, authorization),
    ] + match content_type {
        Some(c) => seq![("Content-Type"@, c)],
        None => Seq::<(Seq<char>, Seq<char>)>::empty(),
    }
}

/// The Gmail request with the given method, URL, authorization value,
/// content type and body.
pub open spec fn gmail_request(
    method: Seq<char>,
    url: Seq<char>,
    host: Option<Seq<char>>,
    authorization: Seq<char>,
    content_type: Option<Seq<char>>,
    body: Seq<u8>,
) -> GmailRequestSpec {
    GmailRequestSpec {
        method,
        url,
        headers: gmail_headers(host, authorization, content_type),
        body,
    }
}

/// Whether `r` is the Gmail request with the given method, URL, content
/// type and body, authorized by the bearer token `token`
/// (`Authorization: Bearer <token>`).
pub open spec fn is_gmail_request(
    r: GmailRequestSpec,
    token: Seq<char>,
    method: Seq<char>,
    url: Seq<char>,
    content_type: Option<Seq<char>>,
    body: Seq<u8>,
) -> bool {
    r == gmail_request(method, url, url_host(url), "Bearer "@ + token, content_type, body)
}

/// The bytes of a JSON body for a 2xx reply: the body itself, or `null`
/// when it is empty.
pub open spec fn success_body(body: Seq<u8>) -> Seq<u8> {
    if body.len() == 0 {
        encode_utf8("null"@)
    } else {
        body
    }
}

/// The outcome of building the URL of a Gmail REST method from its path
/// relative to [`GMAIL_API_BASE`]: the resolved URL, or a URL error.
pub open spec fn api_url_ok(r: Result<GmailUrl, GmailSendError>, path: Seq<char>) -> bool {
    match url_join(GMAIL_API_BASE@, path) {
        Some(u) => r matches Ok(x) && x@ == u && x.spec_host() == url_host(u),
        None => r matches Err(GmailSendError::ParseUrl(_)),
    }
}

/// What a step of an exchange can come to, whatever the server sent: an
/// I/O request, a non-empty JSON body, or a failure of the HTTP exchange,
/// a refused redirect, or an API error with a message.
pub open spec fn exchange_outcome(
    r: GmailCoroutineState<GmailYield, Result<GmailSendOutput<Vec<u8>>, GmailSendError>>,
) -> bool {
    match r {
        GmailCoroutineState::Yielded(_) => true,
        GmailCoroutineState::Complete(Ok(out)) => out.response@.len() > 0,
        GmailCoroutineState::Complete(Err(e)) => match e {
            GmailSendError::SendHttp(_) => true,
            GmailSendError::UnexpectedRedirect => true,
            GmailSendError::ChunkSizeOverflow => true,
            GmailSendError::ApiError { message, .. } => message@.len() > 0,
            _ => false,
        },
    }
}

/// What a step of an exchange whose reply carries nothing of use can come
/// to: as [`exchange_outcome`], the body being dropped, or a body that is
/// not JSON.
pub open spec fn no_response_outcome(
    r: GmailCoroutineState<GmailYield, Result<GmailSendOutput<GmailNoResponse>, GmailSendError>>,
) -> bool {
    match r {
        GmailCoroutineState::Yielded(_) => true,
        GmailCoroutineState::Complete(Ok(_)) => true,
        GmailCoroutineState::Complete(Err(e)) => match e {
            GmailSendError::SendHttp(_) => true,
            GmailSendError::UnexpectedRedirect => true,
            GmailSendError::ChunkSizeOverflow => true,
            GmailSendError::ParseResponse(_) => true,
            GmailSendError::ApiError { message, .. } => message@.len() > 0,
            _ => false,
        },
    }
}

/// What a step of the HTTP exchange comes to: I/O requests are passed
/// on, a 2xx response completes with its JSON body (`null` when empty),
/// any other status fails with the API error read from the body, a
/// redirect fails, and a transport failure is passed on.
pub open spec fn step_outcome(
    step: GmailHttpStepView,
    r: GmailCoroutineState<GmailYield, Result<GmailSendOutput<Vec<u8>>, GmailSendError>>,
) -> bool {
    match step {
        GmailHttpStepView::WantsRead => r matches GmailCoroutineState::Yielded(GmailYield::WantsRead),
        GmailHttpStepView::WantsWrite(bytes) => r matches GmailCoroutineState::Yielded(
            GmailYield::WantsWrite(out),
        ) && out@ == bytes,
        GmailHttpStepView::Redirect => r matches GmailCoroutineState::Complete(
            Err(GmailSendError::UnexpectedRedirect),
        ),
        GmailHttpStepView::Response { status, body, keep_alive } => if 200 <= status < 300 {
            r matches GmailCoroutineState::Complete(Ok(out)) && out.response@ == success_body(body)
                && out.keep_alive == keep_alive
        } else {
            r matches GmailCoroutineState::Complete(
                Err(GmailSendError::ApiError { status: s, message: m }),
            ) && (s, m@) == api_error_spec(status, body)
        },
        GmailHttpStepView::Failed => r matches GmailCoroutineState::Complete(
            Err(GmailSendError::SendHttp(_)),
        ),
    }
}

/// What a step of the HTTP exchange comes to for a method whose reply
/// carries nothing of use: as [`step_outcome`], except that a 2xx body
/// must be a JSON document (or empty) and is then dropped.
pub open spec fn no_response_step_outcome(
    step: GmailHttpStepView,
    r: GmailCoroutineState<GmailYield, Result<GmailSendOutput<GmailNoResponse>, GmailSendError>>,
) -> bool {
    match step {
        GmailHttpStepView::WantsRead => r matches GmailCoroutineState::Yielded(GmailYield::WantsRead),
        GmailHttpStepView::WantsWrite(bytes) => r matches GmailCoroutineState::Yielded(
            GmailYield::WantsWrite(out),
        ) && out@ == bytes,
        GmailHttpStepView::Redirect => r matches GmailCoroutineState::Complete(
            Err(GmailSendError::UnexpectedRedirect),
        ),
        GmailHttpStepView::Response { status, body, keep_alive } => if 200 <= status < 300 {
            if json_well_formed(success_body(body)) {
                r matches GmailCoroutineState::Complete(Ok(out)) && out.keep_alive == keep_alive
            } else {
                r matches GmailCoroutineState::Complete(Err(GmailSendError::ParseResponse(_)))
            }
        } else {
            r matches GmailCoroutineState::Complete(
                Err(GmailSendError::ApiError { status: s, message: m }),
            ) && (s, m@) == api_error_spec(status, body)
        },
        GmailHttpStepView::Failed => r matches GmailCoroutineState::Complete(
            Err(GmailSendError::SendHttp(_)),
        ),
    }
}

/// One step of a Gmail exchange of `request`, resumed so far with
/// `inputs`, on `arg`: when `arg` would show the HTTP/1.1 reader an
/// oversized chunk size, the exchange stops with
/// [`GmailSendError::ChunkSizeOverflow`] and keeps its inputs; otherwise
/// `arg` is handed on and the step comes to [`step_outcome`].
pub open spec fn exchange_step(
    request: GmailRequestSpec,
    inputs: Seq<Option<Seq<u8>>>,
    arg: Option<Seq<u8>>,
    new_inputs: Seq<Option<Seq<u8>>>,
    halted: bool,
    r: GmailCoroutineState<GmailYield, Result<GmailSendOutput<Vec<u8>>, GmailSendError>>,
) -> bool {
    if oversized_input(inputs, arg) {
        &&& r matches GmailCoroutineState::Complete(Err(GmailSendError::ChunkSizeOverflow))
        &&& halted
        &&& new_inputs == inputs
    } else {
        &&& new_inputs == inputs.push(arg)
        &&& !halted
        &&& step_outcome(http11_step(request, inputs.push(arg)), r)
    }
}

/// As [`exchange_step`], for a method whose reply carries nothing of use
/// ([`no_response_step_outcome`]).
pub open spec fn no_response_exchange_step(
    request: GmailRequestSpec,
    inputs: Seq<Option<Seq<u8>>>,
    arg: Option<Seq<u8>>,
    new_inputs: Seq<Option<Seq<u8>>>,
    halted: bool,
    r: GmailCoroutineState<GmailYield, Result<GmailSendOutput<GmailNoResponse>, GmailSendError>>,
) -> bool {
    if oversized_input(inputs, arg) {
        &&& r matches GmailCoroutineState::Complete(Err(GmailSendError::ChunkSizeOverflow))
        &&& halted
        &&& new_inputs == inputs
    } else {
        &&& new_inputs == inputs.push(arg)
        &&& !halted
        &&& no_response_step_outcome(http11_step(request, inputs.push(arg)), r)
    }
}

/// Resolves the path of a Gmail REST method against [`GMAIL_API_BASE`].
pub fn api_url(path: &str) -> (r: Result<GmailUrl, GmailSendError>)
    ensures
        api_url_ok(r, path@),
{
    match resolve_url(GMAIL_API_BASE, path) {
        Ok(url) => Ok(url),
        Err(err) => Err(GmailSendError::ParseUrl(err)),
    }
}

/// I/O-free coroutine performing one authorized Gmail request.
pub struct GmailSend {
    exchange: GmailHttpExchange,
    scan: ChunkScan,
    stopped: bool,
}

impl GmailSend {
    /// The request this exchange sends.
    pub closed spec fn request(&self) -> GmailRequestSpec {
        self.exchange@.request
    }

    /// The bytes this exchange has been resumed with so far, in order.
    pub closed spec fn inputs(&self) -> Seq<Option<Seq<u8>>> {
        self.exchange@.inputs
    }

    /// Whether the exchange has stopped on a reply it would not read on.
    pub closed spec fn halted(&self) -> bool {
        ||| self.stopped
        ||| self.scan != chunk_scan(fed_bytes(self.exchange@.inputs))
        ||| self.scan.over
    }

    /// Builds the request with the given method, URL, authorization
    /// header value, optional content type and body.
    pub fn build_request(
        authorization: String,
        method: &str,
        url: GmailUrl,
        content_type: Option<&str>,
        body: Vec<u8>,
    ) -> (r: GmailHttpRequest)
        ensures
            r@ == gmail_request(
                method@,
                url@,
                url.spec_host(),
                authorization@,
                match content_type {
                    Some(c) => Some(c@),
                    None => None,
                },
                body@,
            ),
    {
        let host = match url.host() {
            Some(h) => h.to_string(),
            None => "localhost".to_string(),
        };
        let mut headers: Vec<(String, String)> = Vec::new();
        headers.push(("Host".to_string(), host));
        headers.push(("Accept".to_string(), "application/json".to_string()));
        headers.push(("Authorization".to_string(), authorization));
        match content_type {
            Some(c) => headers.push(("Content-Type".to_string(), c.to_string())),
            None => {},
        }
        let r = GmailHttpRequest { method: method.to_string(), url, headers, body };
        assert(r@.headers =~= gmail_headers(
            url.spec_host(),
            authorization@,
            match content_type {
                Some(c) => Some(c@),
                None => None,
            },
        ));
        r
    }

    /// Prepares the exchange for a request with the given method, URL,
    /// optional content type and body, authorized by the bearer token.
    pub fn with_method(
        auth: &GmailBearer,
        method: &str,
        url: GmailUrl,
        content_type: Option<&str>,
        body: Vec<u8>,
    ) -> (r: Self)
        requires
            url.spec_host() == url_host(url@),
        ensures
            is_gmail_request(
                r.request(),
                auth@,
                method@,
                url@,
                match content_type {
                    Some(c) => Some(c@),
                    None => None,
                },
                body@,
            ),
            r.inputs() == Seq::<Option<Seq<u8>>>::empty(),
            !r.halted(),
    {
        let authorization = bearer_authorization(auth.token());
        let request = Self::build_request(authorization, method, url, content_type, body);
        let r = GmailSend {
            exchange: GmailHttpExchange::new(request),
            scan: ChunkScan { mode: 0, run: 0, cr: false, over: false },
            stopped: false,
        };
        assert(fed_bytes(r.exchange@.inputs) =~= Seq::<u8>::empty());
        r
    }

    /// Prepares a `GET` exchange.
    pub fn get(auth: &GmailBearer, url: GmailUrl) -> (r: Self)
        requires
            url.spec_host() == url_host(url@),
        ensures
            is_gmail_request(r.request(), auth@, "GET"@, url@, None, Seq::empty()),
            r.inputs() == Seq::<Option<Seq<u8>>>::empty(),
            !r.halted(),
    {
        Self::with_method(auth, "GET", url, None, Vec::new())
    }

    /// Prepares a `DELETE` exchange.
    pub fn delete(auth: &GmailBearer, url: GmailUrl) -> (r: Self)
        requires
            url.spec_host() == url_host(url@),
        ensures
            is_gmail_request(r.request(), auth@, "DELETE"@, url@, None, Seq::empty()),
            r.inputs() == Seq::<Option<Seq<u8>>>::empty(),
            !r.halted(),
    {
        Self::with_method(auth, "DELETE", url, None, Vec::new())
    }

    /// Prepares a `POST` exchange carrying the given JSON body.
    pub fn post_json(auth: &GmailBearer, url: GmailUrl, body: Vec<u8>) -> (r: Self)
        requires
            url.spec_host() == url_host(url@),
        ensures
            is_gmail_request(r.request(), auth@, "POST"@, url@, Some("application/json"@), body@),
            r.inputs() == Seq::<Option<Seq<u8>>>::empty(),
            !r.halted(),
    {
        Self::with_method(auth, "POST", url, Some("application/json"), body)
    }

    /// Prepares a `PUT` exchange carrying the given JSON body.
    pub fn put_json(auth: &GmailBearer, url: GmailUrl, body: Vec<u8>) -> (r: Self)
        requires
            url.spec_host() == url_host(url@),
        ensures
            is_gmail_request(r.request(), auth@, "PUT"@, url@, Some("application/json"@), body@),
            r.inputs() == Seq::<Option<Seq<u8>>>::empty(),
            !r.halted(),
    {
        Self::with_method(auth, "PUT", url, Some("application/json"), body)
    }

    /// Prepares a `PATCH` exchange carrying the given JSON body.
    pub fn patch_json(auth: &GmailBearer, url: GmailUrl, body: Vec<u8>) -> (r: Self)
        requires
            url.spec_host() == url_host(url@),
        ensures
            is_gmail_request(r.request(), auth@, "PATCH"@, url@, Some("application/json"@), body@),
            r.inputs() == Seq::<Option<Seq<u8>>>::empty(),
            !r.halted(),
    {
        Self::with_method(auth, "PATCH", url, Some("application/json"), body)
    }

    /// Interprets one step of the HTTP exchange: I/O requests are passed
    /// on, a 2xx response completes with its JSON body (`null` when
    /// empty), any other status fails with the API error read from the
    /// body, a redirect fails, and a transport failure is passed on.
    pub fn finish(step: GmailHttpStep) -> (r: GmailCoroutineState<
        GmailYield,
        Result<GmailSendOutput<Vec<u8>>, GmailSendError>,
    >)
        ensures
            step_outcome(step@, r),
            step matches GmailHttpStep::Failed(e) ==> r matches GmailCoroutineState::Complete(
                Err(GmailSendError::SendHttp(e2)),
            ) && e2 == e,
            exchange_outcome(r),
    {
        match step {
            GmailHttpStep::WantsRead => GmailCoroutineState::Yielded(GmailYield::WantsRead),
            GmailHttpStep::WantsWrite(bytes) => GmailCoroutineState::Yielded(
                GmailYield::WantsWrite(bytes),
            ),
            GmailHttpStep::Redirect => GmailCoroutineState::Complete(
                Err(GmailSendError::UnexpectedRedirect),
            ),
            GmailHttpStep::Response { status, body, keep_alive } => {
                let ghost b = body@;
                if 200 <= status && status < 300 {
                    let response = if body.len() == 0 {
                        let mut null: Vec<u8> = Vec::new();
                        null.extend_from_slice("null".as_bytes());
                        proof {
                            reveal_strlit("null");
                        }
                        null
                    } else {
                        body
                    };
                    assert(response@ == success_body(b));
                    GmailCoroutineState::Complete(Ok(GmailSendOutput { response, keep_alive }))
                } else {
                    let (s, message) = parse_api_error(status, body.as_slice());
                    GmailCoroutineState::Complete(
                        Err(GmailSendError::ApiError { status: s, message }),
                    )
                }
            },
            GmailHttpStep::Failed(err) => GmailCoroutineState::Complete(
                Err(GmailSendError::SendHttp(err)),
            ),
        }
    }
}

impl GmailCoroutine for GmailSend {
    type Yield = GmailYield;

    type Return = Result<GmailSendOutput<Vec<u8>>, GmailSendError>;

    /// Whether the exchange has ended, or stopped.
    open spec fn completed(&self) -> bool {
        http11_finished(self.request(), self.inputs()) || self.halted()
    }

    /// Advances the exchange: feeds the bytes read to the HTTP/1.1
    /// coroutine and interprets its step as [`GmailSend::finish`] does,
    /// unless they would show the reader an oversized chunk size.
    fn resume(&mut self, arg: Option<&[u8]>) -> (r: GmailCoroutineState<
        GmailYield,
        Result<GmailSendOutput<Vec<u8>>, GmailSendError>,
    >)
        ensures
            final(self).request() == old(self).request(),
            exchange_step(
                old(self).request(),
                old(self).inputs(),
                input_view(arg),
                final(self).inputs(),
                final(self).halted(),
                r,
            ),
            exchange_outcome(r),
    {
        let next = scan_input(self.scan, Ghost(self.exchange@.inputs), arg);
        if next.over {
            self.stopped = true;
            return GmailCoroutineState::Complete(Err(GmailSendError::ChunkSizeOverflow));
        }
        self.scan = next;
        let step = http11_resume(&mut self.exchange, arg);
        Self::finish(step)
    }
}

impl GmailSendOutput<Vec<u8>> {
    /// Checks that the JSON body is a JSON document and drops it, for the
    /// methods whose reply carries nothing of use.
    pub fn into_no_response(self) -> (r: Result<GmailSendOutput<GmailNoResponse>, GmailSendError>)
        ensures
            json_well_formed(self.response@) ==> (r matches Ok(out) && out.keep_alive
                == self.keep_alive),
            !json_well_formed(self.response@) ==> r matches Err(GmailSendError::ParseResponse(_)),
    {
        match check_json(self.response.as_slice()) {
            Ok(()) => Ok(GmailSendOutput { response: GmailNoResponse, keep_alive: self.keep_alive }),
            Err(err) => Err(GmailSendError::ParseResponse(err)),
        }
    }
}

} // verus!
