//! URLs and HTTP/1.1 requests as the Gmail coroutines see them.
//!
//! URL resolution and query serialization are done by the `url` crate,
//! the wire exchange by io-http's HTTP/1.1 send coroutine; this module
//! holds the trusted items that reach them and the plain types the rest
//! of the library reasons about.

use crate::v1::query::pairs_view;
use crate::v1::send::GmailRequestSpec;
use io_http::coroutine::HttpCoroutine;
use io_http::coroutine::HttpCoroutineState;
use io_http::rfc6750::bearer::HttpAuthBearer;
use io_http::rfc9110::request::HttpRequest;
use io_http::rfc9110::send::HttpSendYield;
use io_http::rfc9112::send::Http11Send;
use io_http::rfc9112::send::Http11SendError;
use url::ParseError;
use url::Url;
use vstd::prelude::*;

verus! {

#[verifier::external_type_specification]
#[verifier::external_body]
pub struct ExUrl(Url);

#[verifier::external_type_specification]
#[verifier::external_body]
pub struct ExParseError(ParseError);

#[verifier::external_type_specification]
#[verifier::external_body]
pub struct ExHttp11Send(Http11Send);

#[verifier::external_type_specification]
#[verifier::external_body]
pub struct ExHttp11SendError(Http11SendError);

#[verifier::external_type_specification]
#[verifier::external_body]
pub struct ExHttpAuthBearer(HttpAuthBearer);

/// The serialization of the URL that two chained calls give:
/// `url::Url::parse` of `base`, then `Url::join` of the reference `input`
/// against it; `None` when either does not parse.
pub uninterp spec fn url_join(base: Seq<char>, input: Seq<char>) -> Option<Seq<char>>;

/// The host that `url::Url::host_str` reports for the URL whose
/// serialization is `url`.
pub uninterp spec fn url_host(url: Seq<char>) -> Option<Seq<char>>;

/// The serialization of the URL `url` once `url::form_urlencoded`'s
/// serializer (`Url::query_pairs_mut().extend_pairs`) has appended the
/// given name/value pairs to its query.
pub uninterp spec fn url_with_query(url: Seq<char>, pairs: Seq<(Seq<char>, Seq<char>)>) -> Seq<char>;

/// A parsed absolute URL, kept together with its serialization and host.
pub struct GmailUrl {
    url: Url,
    text: String,
    host: Option<String>,
}

impl View for GmailUrl {
    type V = Seq<char>;

    /// The serialization of the URL.
    closed spec fn view(&self) -> Seq<char> {
        self.text@
    }
}

impl GmailUrl {
    /// The host of the URL, as `url::Url::host_str` reports it.
    pub closed spec fn spec_host(&self) -> Option<Seq<char>> {
        match self.host {
            Some(h) => Some(h@),
            None => None,
        }
    }

    /// Returns the serialization of the URL.
    pub fn as_str(&self) -> (r: &str)
        ensures
            r@ == self@,
    {
        self.text.as_str()
    }

    /// Returns the host of the URL, if it has one.
    pub fn host(&self) -> (r: Option<&str>)
        ensures
            match r {
                Some(h) => self.spec_host() == Some(h@),
                None => self.spec_host() is None,
            },
    {
        match &self.host {
            Some(h) => Some(h.as_str()),
            None => None,
        }
    }
}

/// `url::Url::parse` of `base` followed by `url::Url::join` of `input`;
/// the contract claims that the result is the URL named `url_join` of
/// the two strings, carrying the host named `url_host` of it.
#[verifier::external_body]
pub(crate) fn resolve_url(base: &str, input: &str) -> (r: Result<GmailUrl, ParseError>)
    ensures
        r is Ok <==> url_join(base@, input@) is Some,
        r matches Ok(u) ==> u@ == url_join(base@, input@)->0 && u.spec_host() == url_host(u@),
{
    let url = Url::parse(base)?.join(input)?;
    let text = String::from(url.as_str());
    let host = match url.host_str() {
        Some(h) => Some(String::from(h)),
        None => None,
    };
    Ok(GmailUrl { url, text, host })
}

/// `Url::query_pairs_mut().extend_pairs(..)` on the URL; the contract
/// claims that the result is the URL named `url_with_query`, with the
/// host named `url_host` of it.
#[verifier::external_body]
pub(crate) fn append_query(url: GmailUrl, pairs: &Vec<(String, String)>) -> (r: GmailUrl)
    ensures
        r@ == url_with_query(url@, pairs_view(pairs@)),
        r.spec_host() == url_host(r@),
{
    let mut url = url.url;
    url.query_pairs_mut().extend_pairs(pairs.iter());
    let text = String::from(url.as_str());
    let host = match url.host_str() {
        Some(h) => Some(String::from(h)),
        None => None,
    };
    GmailUrl { url, text, host }
}

/// An OAuth 2.0 bearer token, the credential every Gmail request carries.
pub struct GmailBearer {
    token: String,
}

impl View for GmailBearer {
    type V = Seq<char>;

    /// The token.
    closed spec fn view(&self) -> Seq<char> {
        self.token@
    }
}

impl GmailBearer {
    /// Wraps the token.
    pub fn new(token: &str) -> (r: GmailBearer)
        ensures
            r@ == token@,
    {
        GmailBearer { token: token.to_string() }
    }

    /// Returns the token.
    pub fn token(&self) -> (r: &str)
        ensures
            r@ == self@,
    {
        self.token.as_str()
    }
}

/// `HttpAuthBearer::new(token).to_authorization()`, which formats the
/// `Authorization` value `Bearer <token>`; the contract states that value.
#[verifier::external_body]
pub(crate) fn bearer_authorization(token: &str) -> (r: String)
    ensures
        r@ == "Bearer "@ + token@,
{
    HttpAuthBearer::new(token).to_authorization()
}

/// An outgoing HTTP request: method, URL, headers in order, body.
pub struct GmailHttpRequest {
    /// The request method, uppercase.
    pub method: String,
    /// The request URL.
    pub url: GmailUrl,
    /// The request headers, in order.
    pub headers: Vec<(String, String)>,
    /// The request body.
    pub body: Vec<u8>,
}

/// One step of io-http's HTTP/1.1 send coroutine, as plain values.
pub enum GmailHttpStep {
    /// Bytes must be read from the stream.
    WantsRead,
    /// The bytes must be written to the stream.
    WantsWrite(Vec<u8>),
    /// The server answered with a redirect.
    Redirect,
    /// The whole response was received.
    Response {
        /// The status code.
        status: u16,
        /// The body, decoded when chunked.
        body: Vec<u8>,
        /// Whether the connection can be reused.
        keep_alive: bool,
    },
    /// The exchange failed.
    Failed(Http11SendError),
}

impl View for GmailHttpStep {
    type V = GmailHttpStepView;

    open spec fn view(&self) -> GmailHttpStepView {
        match self {
            GmailHttpStep::WantsRead => GmailHttpStepView::WantsRead,
            GmailHttpStep::WantsWrite(bytes) => GmailHttpStepView::WantsWrite(bytes@),
            GmailHttpStep::Redirect => GmailHttpStepView::Redirect,
            GmailHttpStep::Response { status, body, keep_alive } => GmailHttpStepView::Response {
                status: *status,
                body: body@,
                keep_alive: *keep_alive,
            },
            GmailHttpStep::Failed(_) => GmailHttpStepView::Failed,
        }
    }
}

/// A step of the HTTP/1.1 send coroutine as values; a failure is known
/// only as a failure.
pub enum GmailHttpStepView {
    /// Bytes must be read from the stream.
    WantsRead,
    /// The bytes must be written to the stream.
    WantsWrite(Seq<u8>),
    /// The server answered with a redirect.
    Redirect,
    /// The whole response was received.
    Response {
        /// The status code.
        status: u16,
        /// The body, decoded when chunked.
        body: Seq<u8>,
        /// Whether the connection can be reused.
        keep_alive: bool,
    },
    /// The exchange failed.
    Failed,
}

/// The bytes handed to a step of the exchange, as values.
pub open spec fn input_view(arg: Option<&[u8]>) -> Option<Seq<u8>> {
    match arg {
        Some(bytes) => Some(bytes@),
        None => None,
    }
}

/// The step that io-http's HTTP/1.1 send coroutine, built for `request`,
/// hands back on the last of `inputs`, having been resumed with each of
/// them in turn (converted as [`http11_resume`] converts it). The
/// coroutine holds no other state: the same request and inputs give the
/// same step.
pub uninterp spec fn http11_step(request: GmailRequestSpec, inputs: Seq<Option<Seq<u8>>>) -> GmailHttpStepView;

/// Whether the step ends the exchange: a response, a redirect or a
/// failure.
pub open spec fn step_ends(step: GmailHttpStepView) -> bool {
    step is Response || step is Redirect || step is Failed
}

/// Whether the exchange of `request`, resumed with `inputs`, has ended:
/// its last step ended it. Its coroutine must not be resumed then.
pub open spec fn http11_finished(request: GmailRequestSpec, inputs: Seq<Option<Seq<u8>>>) -> bool {
    inputs.len() > 0 && step_ends(http11_step(request, inputs))
}

/// The bytes of the inputs, in order.
pub open spec fn fed_bytes(inputs: Seq<Option<Seq<u8>>>) -> Seq<u8>
    decreases inputs.len(),
{
    if inputs.len() == 0 {
        Seq::empty()
    } else {
        fed_bytes(inputs.drop_last()) + match inputs.last() {
            Some(bytes) => bytes,
            None => Seq::empty(),
        }
    }
}

/// Where a scan for oversized chunk sizes stands in a byte stream.
///
/// io-http's chunked-body reader reads a chunk size as the hexadecimal
/// number that stands, up to ASCII white space, before a `;` or a CRLF,
/// and adds 2 to it unchecked. The scan looks at every maximal run of hex
/// digits so placed, wherever it starts, and flags one whose value (at
/// least that of any size read from its end) leaves no room for that
/// addition in a `usize`.
#[derive(Clone, Copy)]
pub struct ChunkScan {
    /// 0: outside a run; 1: in a run of hex digits; 2: after a run, in
    /// white space.
    pub mode: u8,
    /// The value of the last run, saturated at `u64::MAX`.
    pub run: u64,
    /// Whether the last byte was a carriage return after a run.
    pub cr: bool,
    /// Whether an oversized chunk size was seen.
    pub over: bool,
}

/// The value of a hex digit.
pub open spec fn hex_digit(c: u8) -> Option<u64> {
    if 0x30 <= c <= 0x39 {
        Some((c - 0x30) as u64)
    } else if 0x61 <= c <= 0x66 {
        Some((c - 0x61 + 10) as u64)
    } else if 0x41 <= c <= 0x46 {
        Some((c - 0x41 + 10) as u64)
    } else {
        None
    }
}

/// Whether a run value is too large to be a chunk size.
pub open spec fn oversized(run: u64) -> bool {
    run >= usize::MAX - 1
}

/// The scan before any byte.
pub open spec fn chunk_scan_start() -> ChunkScan {
    ChunkScan { mode: 0, run: 0, cr: false, over: false }
}

/// The scan after one more byte.
pub open spec fn chunk_scan_step(s: ChunkScan, c: u8) -> ChunkScan {
    match hex_digit(c) {
        Some(d) => {
            let v: int = if s.mode == 1 { s.run * 16 + d } else { d as int };
            ChunkScan {
                mode: 1,
                run: if v > u64::MAX { u64::MAX } else { v as u64 },
                cr: false,
                over: s.over,
            }
        },
        None => {
            let candidate = s.mode == 1 || s.mode == 2;
            if c == 0x3B {
                ChunkScan { mode: 0, run: s.run, cr: false, over: s.over || (candidate && oversized(s.run)) }
            } else if c == 0x0D {
                ChunkScan { mode: if candidate { 2 } else { 0 }, run: s.run, cr: candidate, over: s.over }
            } else if c == 0x0A {
                ChunkScan {
                    mode: if candidate { 2 } else { 0 },
                    run: s.run,
                    cr: false,
                    over: s.over || (candidate && s.cr && oversized(s.run)),
                }
            } else if c == 0x20 || c == 0x09 || c == 0x0C {
                ChunkScan { mode: if candidate { 2 } else { 0 }, run: s.run, cr: false, over: s.over }
            } else {
                ChunkScan { mode: 0, run: s.run, cr: false, over: s.over }
            }
        },
    }
}

/// The scan after the bytes.
pub open spec fn chunk_scan(bytes: Seq<u8>) -> ChunkScan
    decreases bytes.len(),
{
    if bytes.len() == 0 {
        chunk_scan_start()
    } else {
        chunk_scan_step(chunk_scan(bytes.drop_last()), bytes.last())
    }
}

/// Whether handing `arg` to an exchange resumed with `inputs` would show
/// its chunked-body reader an oversized chunk size.
pub open spec fn oversized_input(inputs: Seq<Option<Seq<u8>>>, arg: Option<Seq<u8>>) -> bool {
    chunk_scan(fed_bytes(inputs.push(arg))).over
}

/// Returns the value of a hex digit.
fn hex_digit_value(c: u8) -> (r: Option<u64>)
    ensures
        r == hex_digit(c),
{
    if 0x30 <= c && c <= 0x39 {
        Some((c - 0x30) as u64)
    } else if 0x61 <= c && c <= 0x66 {
        Some((c - 0x61 + 10) as u64)
    } else if 0x41 <= c && c <= 0x46 {
        Some((c - 0x41 + 10) as u64)
    } else {
        None
    }
}

/// Advances the scan over one byte.
fn scan_byte(s: ChunkScan, c: u8) -> (r: ChunkScan)
    ensures
        r == chunk_scan_step(s, c),
{
    match hex_digit_value(c) {
        Some(d) => {
            let run = if s.mode == 1 {
                if s.run > (u64::MAX - d) / 16 {
                    assert(s.run * 16 + d > u64::MAX) by (nonlinear_arith)
                        requires
                            s.run > (u64::MAX - d) / 16,
                            d < 16,
                    ;
                    u64::MAX
                } else {
                    assert(s.run * 16 + d <= u64::MAX) by (nonlinear_arith)
                        requires
                            s.run <= (u64::MAX - d) / 16,
                            d < 16,
                    ;
                    s.run * 16 + d
                }
            } else {
                d
            };
            ChunkScan { mode: 1, run, cr: false, over: s.over }
        },
        None => {
            let candidate = s.mode == 1 || s.mode == 2;
            let big = s.run >= (usize::MAX as u64) - 1;
            if c == 0x3B {
                ChunkScan { mode: 0, run: s.run, cr: false, over: s.over || (candidate && big) }
            } else if c == 0x0D {
                ChunkScan { mode: if candidate { 2 } else { 0 }, run: s.run, cr: candidate, over: s.over }
            } else if c == 0x0A {
                ChunkScan {
                    mode: if candidate { 2 } else { 0 },
                    run: s.run,
                    cr: false,
                    over: s.over || (candidate && s.cr && big),
                }
            } else if c == 0x20 || c == 0x09 || c == 0x0C {
                ChunkScan { mode: if candidate { 2 } else { 0 }, run: s.run, cr: false, over: s.over }
            } else {
                ChunkScan { mode: 0, run: s.run, cr: false, over: s.over }
            }
        },
    }
}

/// Advances the scan over the bytes handed to an exchange.
pub(crate) fn scan_input(s: ChunkScan, inputs: Ghost<Seq<Option<Seq<u8>>>>, arg: Option<&[u8]>) -> (r: ChunkScan)
    requires
        s == chunk_scan(fed_bytes(inputs@)),
    ensures
        r == chunk_scan(fed_bytes(inputs@.push(input_view(arg)))),
{
    let ghost before = fed_bytes(inputs@);
    assert(inputs@.push(input_view(arg)).drop_last() =~= inputs@);
    match arg {
        None => {
            assert(fed_bytes(inputs@.push(input_view(arg))) =~= before);
            s
        },
        Some(bytes) => {
            let mut t = s;
            let mut i: usize = 0;
            assert(before + bytes@.subrange(0, 0) =~= before);
            while i < bytes.len()
                invariant
                    i <= bytes@.len(),
                    t == chunk_scan(before + bytes@.subrange(0, i as int)),
                decreases bytes@.len() - i,
            {
                let ghost prev = before + bytes@.subrange(0, i as int);
                assert((before + bytes@.subrange(0, i + 1)).drop_last() =~= prev);
                assert((before + bytes@.subrange(0, i + 1)).last() == bytes@[i as int]);
                t = scan_byte(t, bytes[i]);
                i = i + 1;
            }
            assert(bytes@.subrange(0, bytes@.len() as int) =~= bytes@);
            assert(fed_bytes(inputs@.push(input_view(arg))) =~= before + bytes@);
            t
        },
    }
}

/// An HTTP/1.1 exchange in progress, with the request it sends and the
/// inputs it has been resumed with so far.
pub struct GmailHttpExchange {
    send: Http11Send,
    request: Ghost<GmailRequestSpec>,
    inputs: Ghost<Seq<Option<Seq<u8>>>>,
}

/// An HTTP/1.1 exchange as values.
pub struct GmailHttpExchangeView {
    /// The request the exchange sends.
    pub request: GmailRequestSpec,
    /// The inputs it has been resumed with, in order.
    pub inputs: Seq<Option<Seq<u8>>>,
}

impl View for GmailHttpExchange {
    type V = GmailHttpExchangeView;

    closed spec fn view(&self) -> GmailHttpExchangeView {
        GmailHttpExchangeView { request: self.request@, inputs: self.inputs@ }
    }
}

impl GmailHttpExchange {
    /// Starts the exchange of the request; it has been resumed with
    /// nothing yet.
    pub fn new(request: GmailHttpRequest) -> (r: GmailHttpExchange)
        ensures
            r@.request == request@,
            r@.inputs == Seq::<Option<Seq<u8>>>::empty(),
    {
        let ghost spec = request@;
        GmailHttpExchange { send: http11_send(request), request: Ghost(spec), inputs: Ghost(Seq::empty()) }
    }
}

/// `Http11Send::new` on the request. The coroutine is opaque, so nothing
/// is claimed of it here; [`GmailHttpExchange::new`] records the request
/// it was built for, and [`http11_resume`] names its steps by it.
#[verifier::external_body]
pub(crate) fn http11_send(request: GmailHttpRequest) -> (r: Http11Send) {
    Http11Send::new(HttpRequest {
        method: request.method,
        url: request.url.url,
        headers: request.headers,
        body: request.body,
    })
}

/// `Http11Send::resume`: one step of the exchange, converted variant by
/// variant. The contract claims that the step is the one named
/// `http11_step` of the request and of the inputs so far, this one
/// included, and records the input; which error a failure carries is
/// not claimed. Two inputs on which it panics are left out: resuming
/// after a step has ended the exchange (its response is gone), and bytes
/// holding a chunk size that the chunked-body reader would overflow
/// adding 2 to (see [`ChunkScan`]).
#[verifier::external_body]
pub(crate) fn http11_resume(exchange: &mut GmailHttpExchange, arg: Option<&[u8]>) -> (r: GmailHttpStep)
    requires
        !http11_finished(old(exchange)@.request, old(exchange)@.inputs),
        !oversized_input(old(exchange)@.inputs, input_view(arg)),
    ensures
        final(exchange)@.request == old(exchange)@.request,
        final(exchange)@.inputs == old(exchange)@.inputs.push(input_view(arg)),
        r@ == http11_step(old(exchange)@.request, old(exchange)@.inputs.push(input_view(arg))),
{
    match exchange.send.resume(arg) {
        HttpCoroutineState::Yielded(HttpSendYield::WantsRead) => GmailHttpStep::WantsRead,
        HttpCoroutineState::Yielded(HttpSendYield::WantsWrite(bytes)) => GmailHttpStep::WantsWrite(bytes),
        HttpCoroutineState::Yielded(HttpSendYield::WantsRedirect { .. }) => GmailHttpStep::Redirect,
        HttpCoroutineState::Complete(Ok(out)) => GmailHttpStep::Response {
            status: out.response.status.0,
            body: out.response.body,
            keep_alive: out.keep_alive,
        },
        HttpCoroutineState::Complete(Err(err)) => GmailHttpStep::Failed(err),
    }
}

} // verus!
