//! Gmail's error envelope, and the crate-level error.
//!
//! A non-2xx Gmail reply carries `{"error": {"code": .., "message": ..}}`;
//! the status and message of the API error are read from it, falling
//! back to the HTTP status and the body text.

use crate::json::count_key;
use crate::json::find_member;
use crate::json::key_count;
use crate::json::json_elements;
use crate::json::json_members;
use crate::json::json_opt_string;
use crate::json::json_opt_u16;
use crate::json::member;
use crate::json::read_json_elements;
use crate::json::read_json_members;
use crate::json::read_json_opt_string;
use crate::json::read_json_opt_u16;
use crate::text::is_blank;
use crate::text::char_white_space;
use crate::text::is_blank_spec;
use crate::text::lemma_trimmed_not_blank;
use crate::text::trim;
use crate::text::trim_spec;
use crate::v1::send::GmailSendError;
use vstd::prelude::*;
use vstd::utf8::encode_utf8;

verus! {

#[verifier::external_type_specification]
#[verifier::external_body]
pub struct ExDecodeError(base64::DecodeError);

/// The message of an API error whose reply explains nothing.
pub const UNKNOWN_API_ERROR: &'static str = "unknown Gmail API error";

/// The text `String::from_utf8_lossy` reads from the bytes.
pub uninterp spec fn utf8_lossy(bytes: Seq<u8>) -> Seq<char>;

/// `String::from_utf8_lossy`; the contract names its result.
#[verifier::external_body]
pub(crate) fn read_utf8_lossy(bytes: &[u8]) -> (r: String)
    ensures
        r@ == utf8_lossy(bytes@),
{
    String::from_utf8_lossy(bytes).into_owned()
}

/// An optional member of an object, read with `read`: absent means
/// `Some(None)`, present means what `read` gives of its text.
pub open spec fn optional_member<T>(
    m: Seq<(Seq<char>, Seq<char>)>,
    key: Seq<char>,
    read: spec_fn(Seq<char>) -> Option<Option<T>>,
) -> Option<Option<T>> {
    match member(m, key) {
        None => Some(None),
        Some(text) => read(text),
    }
}

/// The text of the `error` field of Gmail's error envelope in `body`:
/// the `error` member of an object that has exactly one member so named,
/// or the one element of a one-element array (the sequence form serde
/// also takes for a struct); `None` when `body` has no such field, or
/// names it twice (serde refuses a repeated field).
pub open spec fn envelope_error(body: Seq<u8>) -> Option<Seq<char>> {
    match json_members(body) {
        Some(top) => if key_count(body, "error"@) == 1 {
            member(top, "error"@)
        } else {
            None
        },
        None => match json_elements(body) {
            Some(items) => if items.len() == 1 {
                Some(items[0])
            } else {
                None
            },
            None => None,
        },
    }
}

/// The `code` and `message` of the error body `text`: an object whose
/// `code` is an optional `u16` and whose `message` is an optional string,
/// neither named twice (other members ignored), or a two-element array of
/// the two in that order; `None` when `text` is neither.
pub open spec fn error_body(text: Seq<char>) -> Option<(Option<u16>, Option<Seq<char>>)> {
    let bytes = encode_utf8(text);
    match json_members(bytes) {
        Some(fields) => if key_count(bytes, "code"@) > 1 || key_count(bytes, "message"@) > 1 {
            None
        } else {
            match optional_member(fields, "code"@, |t| json_opt_u16(t)) {
                None => None,
                Some(code) => match optional_member(fields, "message"@, |t| json_opt_string(t)) {
                    None => None,
                    Some(message) => Some((code, message)),
                },
            }
        },
        None => match json_elements(bytes) {
            Some(items) => if items.len() == 2 {
                match json_opt_u16(items[0]) {
                    None => None,
                    Some(code) => match json_opt_string(items[1]) {
                        None => None,
                        Some(message) => Some((code, message)),
                    },
                }
            } else {
                None
            },
            None => None,
        },
    }
}

/// The `code` and `message` of Gmail's error envelope
/// `{"error": {"code": .., "message": ..}}` in `body`, or `None` when the
/// body is not such an envelope.
pub open spec fn error_envelope(body: Seq<u8>) -> Option<(Option<u16>, Option<Seq<char>>)> {
    match envelope_error(body) {
        Some(text) => error_body(text),
        None => None,
    }
}

/// Status and message of the API error for a reply with the given HTTP
/// status and body: from the envelope when there is one (its code
/// overriding the status, a blank message counting as none), else the
/// HTTP status and the trimmed body text; an empty message becomes
/// [`UNKNOWN_API_ERROR`].
pub open spec fn api_error_spec(http_status: u16, body: Seq<u8>) -> (u16, Seq<char>) {
    match error_envelope(body) {
        Some((code, message)) => (
            match code {
                Some(c) => c,
                None => http_status,
            },
            match message {
                Some(m) => if is_blank_spec(m) {
                    UNKNOWN_API_ERROR@
                } else {
                    m
                },
                None => UNKNOWN_API_ERROR@,
            },
        ),
        None => {
            let text = trim_spec(utf8_lossy(body));
            if text.len() == 0 {
                (http_status, UNKNOWN_API_ERROR@)
            } else {
                (http_status, text)
            }
        },
    }
}

/// The message of an API error is never blank: it holds a character
/// that is not white space, and a reply that explains nothing gets
/// [`UNKNOWN_API_ERROR`].
pub proof fn lemma_api_error_message_not_blank(http_status: u16, body: Seq<u8>)
    ensures
        !is_blank_spec(api_error_spec(http_status, body).1),
        api_error_spec(http_status, body).1.len() > 0,
{
    reveal_strlit("unknown Gmail API error");
    assert(!char_white_space(UNKNOWN_API_ERROR@[0]));
    lemma_trimmed_not_blank(utf8_lossy(body));
}

/// Reads the error body described by [`error_body`].
fn read_error_body(text: &str) -> (r: Option<(Option<u16>, Option<String>)>)
    ensures
        match r {
            None => error_body(text@) is None,
            Some((code, message)) => error_body(text@) == Some(
                (
                    code,
                    match message {
                        Some(m) => Some(m@),
                        None => None,
                    },
                ),
            ),
        },
{
    let bytes = text.as_bytes();
    match read_json_members(bytes) {
        Some(fields) => {
            if count_key(bytes, "code") > 1 || count_key(bytes, "message") > 1 {
                return None;
            }
            let code: Option<u16> = match find_member(&fields, "code") {
                None => None,
                Some(t) => match read_json_opt_u16(t.as_str()) {
                    Some(code) => code,
                    None => return None,
                },
            };
            let message: Option<String> = match find_member(&fields, "message") {
                None => None,
                Some(t) => match read_json_opt_string(t.as_str()) {
                    Some(message) => message,
                    None => return None,
                },
            };
            Some((code, message))
        },
        None => match read_json_elements(bytes) {
            Some(items) => {
                if items.len() != 2 {
                    return None;
                }
                assert(items@[0]@ == json_elements(bytes@)->0[0]);
                assert(items@[1]@ == json_elements(bytes@)->0[1]);
                let code: Option<u16> = match read_json_opt_u16(items[0].as_str()) {
                    Some(code) => code,
                    None => return None,
                };
                let message: Option<String> = match read_json_opt_string(items[1].as_str()) {
                    Some(message) => message,
                    None => return None,
                };
                Some((code, message))
            },
            None => None,
        },
    }
}

/// Reads the envelope described by [`error_envelope`].
fn read_error_envelope(body: &[u8]) -> (r: Option<(Option<u16>, Option<String>)>)
    ensures
        match r {
            None => error_envelope(body@) is None,
            Some((code, message)) => error_envelope(body@) == Some(
                (
                    code,
                    match message {
                        Some(m) => Some(m@),
                        None => None,
                    },
                ),
            ),
        },
{
    let inner: String = match read_json_members(body) {
        Some(top) => match find_member(&top, "error") {
            Some(_) if count_key(body, "error") != 1 => return None,
            Some(inner) => inner.clone(),
            None => return None,
        },
        None => match read_json_elements(body) {
            Some(items) => {
                if items.len() != 1 {
                    return None;
                }
                assert(items@[0]@ == json_elements(body@)->0[0]);
                items[0].clone()
            },
            None => return None,
        },
    };
    read_error_body(inner.as_str())
}

/// Status and message of the API error for a non-2xx reply, as
/// [`api_error_spec`] states them.
pub fn parse_api_error(http_status: u16, body: &[u8]) -> (r: (u16, String))
    ensures
        (r.0, r.1@) == api_error_spec(http_status, body@),
        !is_blank_spec(r.1@),
        r.1@.len() > 0,
{
    proof {
        lemma_api_error_message_not_blank(http_status, body@);
    }
    match read_error_envelope(body) {
        Some((code, message)) => {
            let status = match code {
                Some(c) => c,
                None => http_status,
            };
            let message = match message {
                Some(m) => if is_blank(m.as_str()) {
                    UNKNOWN_API_ERROR.to_string()
                } else {
                    m
                },
                None => UNKNOWN_API_ERROR.to_string(),
            };
            (status, message)
        },
        None => {
            let text = read_utf8_lossy(body);
            let message = trim(text.as_str());
            if message.as_str().is_empty() {
                (http_status, UNKNOWN_API_ERROR.to_string())
            } else {
                (http_status, message)
            }
        },
    }
}

/// Failure of the crate-level helpers: a Gmail exchange, or decoding a
/// raw message.
#[derive(Debug)]
pub enum GmailError {
    /// A Gmail exchange failed.
    Send(GmailSendError),
    /// A `raw` field was not valid base64url.
    DecodeRaw(base64::DecodeError),
}

impl From<GmailSendError> for GmailError {
    /// A failed Gmail exchange.
    fn from(err: GmailSendError) -> (r: Self) {
        GmailError::Send(err)
    }
}

impl vstd::std_specs::convert::FromSpecImpl<GmailSendError> for GmailError {
    open spec fn obeys_from_spec() -> bool {
        true
    }

    open spec fn from_spec(err: GmailSendError) -> Self {
        GmailError::Send(err)
    }
}

impl From<base64::DecodeError> for GmailError {
    /// A `raw` field that is not valid base64url.
    fn from(err: base64::DecodeError) -> (r: Self) {
        GmailError::DecodeRaw(err)
    }
}

impl vstd::std_specs::convert::FromSpecImpl<base64::DecodeError> for GmailError {
    open spec fn obeys_from_spec() -> bool {
        true
    }

    open spec fn from_spec(err: base64::DecodeError) -> Self {
        GmailError::DecodeRaw(err)
    }
}

} // verus!
