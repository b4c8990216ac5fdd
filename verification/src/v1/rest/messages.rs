//! Gmail messages (`users.messages`): the message resource, its parts,
//! and the base64url codec of its raw RFC 5322 form.

use crate::json::json_string;
use crate::v1::query::array;
use crate::v1::query::chunks_view;
use crate::v1::query::json_array;
use crate::v1::query::json_member;
use crate::v1::query::json_null;
use crate::v1::query::json_number;
use crate::v1::query::json_object;
use crate::v1::query::member;
use crate::v1::query::null;
use crate::v1::query::number;
use crate::v1::query::object;
use crate::v1::query::string;
use crate::v1::rest::labels::nonempty_string_member;
use crate::v1::rest::labels::optional;
use crate::v1::rest::labels::optional_number_member;
use crate::v1::rest::labels::optional_string_member;
use crate::v1::rest::labels::optional_string_json;
use crate::v1::rest::labels::optional_number_json;
use crate::v1::query::optional_pair;
use crate::v1::query::values_named;
use crate::v1::query::field_members;
use crate::v1::query::fields_json;
use crate::v1::query::lemma_values_named_add;
use crate::v1::query::lemma_values_named_optional;
use crate::v1::query::lemma_field_members_add;
use crate::v1::query::lemma_field_members_optional;
use crate::v1::rest::labels::push_optional;
use base64::engine::general_purpose::URL_SAFE_NO_PAD;
use base64::Engine;
use vstd::prelude::*;

pub mod delete;
pub mod get;
pub mod list;
pub mod modify;
pub mod send;
pub mod trash;
pub mod untrash;

verus! {

/// A Gmail message resource.
///
/// Populated fields depend on the requested [`GmailMessageFormat`]:
/// `payload` comes with the full format, `raw` with the raw format.
#[derive(Debug, Default, PartialEq, Eq)]
pub struct GmailMessage {
    /// The immutable id of the message.
    pub id: String,
    /// The id of the thread the message belongs to.
    pub thread_id: Option<String>,
    /// The ids of the labels applied to the message.
    pub label_ids: Vec<String>,
    /// The internal creation timestamp (epoch milliseconds).
    pub internal_date: Option<String>,
    /// A short part of the message text.
    pub snippet: Option<String>,
    /// The parsed email structure in the message parts.
    pub payload: Option<GmailMessagePayload>,
    /// The entire message as a base64url-encoded RFC 5322 string.
    pub raw: Option<String>,
    /// The estimated size of the message in bytes.
    pub size_estimate: Option<u64>,
    /// The id of the last history record that modified the message.
    pub history_id: Option<String>,
}

/// A lightweight Gmail message resource carrying only its ids.
#[derive(Debug, Clone, Default, PartialEq, Eq)]
pub struct GmailMessageId {
    /// The immutable id of the message.
    pub id: String,
    /// The id of the thread the message belongs to.
    pub thread_id: Option<String>,
}

/// A single MIME part of a Gmail message; multipart containers nest
/// their children in `parts`.
#[derive(Debug, Default, PartialEq, Eq)]
pub struct GmailMessagePayload {
    /// The immutable id of the message part.
    pub part_id: Option<String>,
    /// The MIME type of the part.
    pub mime_type: Option<String>,
    /// The body of the part, possibly empty for containers.
    pub body: Option<GmailMessagePartBody>,
    /// The filename of the attachment; empty for other parts.
    pub filename: String,
    /// The headers of the part, such as To, From or Subject.
    pub headers: Vec<GmailMessageHeader>,
    /// The child parts of a container MIME part.
    pub parts: Vec<GmailMessagePayload>,
}

/// The body of a single MIME part of a Gmail message.
#[derive(Debug, Clone, Default, PartialEq, Eq)]
pub struct GmailMessagePartBody {
    /// The id of an external attachment.
    pub attachment_id: Option<String>,
    /// The number of bytes of the part data.
    pub size: u32,
    /// The body data, base64url-encoded; absent for external attachments.
    pub data: Option<String>,
}

/// A single header of a Gmail message part.
#[derive(Debug, Clone, PartialEq, Eq)]
pub struct GmailMessageHeader {
    /// The name of the header.
    pub name: String,
    /// The value of the header.
    pub value: String,
}

/// Amount of message detail to return (`format` query parameter).
#[derive(Debug, Clone, Copy, PartialEq, Eq)]
pub enum GmailMessageFormat {
    /// Only the message id and labels.
    Minimal,
    /// The full message data, with the body parsed in the payload.
    Full,
    /// The full message as a base64url-encoded string in `raw`.
    Raw,
    /// Only the message id, labels and headers.
    Metadata,
}

/// Whether messages carrying a label show up in the message list.
#[derive(Debug, Clone, Copy, PartialEq, Eq)]
pub enum GmailMessageListVisibility {
    /// Messages with the label show in the message list.
    Show,
    /// Messages with the label are hidden from the message list.
    Hide,
}

/// Source of the internal date of an imported or inserted message.
#[derive(Debug, Clone, Copy, PartialEq, Eq)]
pub enum GmailInternalDateSource {
    /// The time the message was received.
    ReceivedTime,
    /// The Date header of the message.
    DateHeader,
}

impl GmailMessageFormat {
    /// The wire name of the format.
    pub open spec fn spec_name(self) -> Seq<char> {
        match self {
            GmailMessageFormat::Minimal => "MINIMAL"@,
            GmailMessageFormat::Full => "FULL"@,
            GmailMessageFormat::Raw => "RAW"@,
            GmailMessageFormat::Metadata => "METADATA"@,
        }
    }

    /// Returns the wire name of the format.
    pub fn as_str(&self) -> (r: &'static str)
        ensures
            r@ == self.spec_name(),
    {
        match self {
            GmailMessageFormat::Minimal => "MINIMAL",
            GmailMessageFormat::Full => "FULL",
            GmailMessageFormat::Raw => "RAW",
            GmailMessageFormat::Metadata => "METADATA",
        }
    }
}

impl GmailMessageListVisibility {
    /// The wire name of the visibility.
    pub open spec fn spec_name(self) -> Seq<char> {
        match self {
            GmailMessageListVisibility::Show => "show"@,
            GmailMessageListVisibility::Hide => "hide"@,
        }
    }

    /// Returns the wire name of the visibility.
    pub fn as_str(&self) -> (r: &'static str)
        ensures
            r@ == self.spec_name(),
    {
        match self {
            GmailMessageListVisibility::Show => "show",
            GmailMessageListVisibility::Hide => "hide",
        }
    }
}

impl GmailInternalDateSource {
    /// The wire name of the source.
    pub open spec fn spec_name(self) -> Seq<char> {
        match self {
            GmailInternalDateSource::ReceivedTime => "RECEIVED_TIME"@,
            GmailInternalDateSource::DateHeader => "DATE_HEADER"@,
        }
    }

    /// Returns the wire name of the source.
    pub fn as_str(&self) -> (r: &'static str)
        ensures
            r@ == self.spec_name(),
    {
        match self {
            GmailInternalDateSource::ReceivedTime => "RECEIVED_TIME",
            GmailInternalDateSource::DateHeader => "DATE_HEADER",
        }
    }
}

/// The code point of `c` with ASCII upper case letters mapped to lower
/// case.
pub open spec fn ascii_lower(c: char) -> int {
    if 0x41 <= (c as u32) <= 0x5A {
        (c as u32) + 32
    } else {
        c as int
    }
}

/// Whether two strings are equal up to ASCII case, as
/// `str::eq_ignore_ascii_case` decides.
pub open spec fn ascii_case_eq(a: Seq<char>, b: Seq<char>) -> bool {
    a.len() == b.len() && forall|i: int| 0 <= i < a.len() ==> ascii_lower(#[trigger] a[i])
        == ascii_lower(b[i])
}

/// Returns the code point of `c` lower-cased as ASCII.
fn ascii_lower_code(c: char) -> (r: u32)
    ensures
        r == ascii_lower(c),
{
    let v = c as u32;
    if 0x41 <= v && v <= 0x5A {
        v + 32
    } else {
        v
    }
}

/// Returns whether the two strings are equal up to ASCII case.
pub fn eq_ignore_ascii_case(a: &str, b: &str) -> (r: bool)
    ensures
        r == ascii_case_eq(a@, b@),
{
    let n = a.unicode_len();
    if n != b.unicode_len() {
        return false;
    }
    let mut i: usize = 0;
    while i < n
        invariant
            n == a@.len(),
            n == b@.len(),
            i <= n,
            forall|k: int| 0 <= k < i ==> ascii_lower(#[trigger] a@[k]) == ascii_lower(b@[k]),
        decreases n - i,
    {
        if ascii_lower_code(a.get_char(i)) != ascii_lower_code(b.get_char(i)) {
            return false;
        }
        i = i + 1;
    }
    true
}

/// The value of the first header whose name matches `name` up to ASCII
/// case.
pub open spec fn first_header(headers: Seq<GmailMessageHeader>, name: Seq<char>) -> Option<Seq<char>>
    decreases headers.len(),
{
    if headers.len() == 0 {
        None
    } else if ascii_case_eq(headers[0].name@, name) {
        Some(headers[0].value@)
    } else {
        first_header(headers.drop_first(), name)
    }
}

impl GmailMessagePayload {
    /// Returns the value of the first header matching the given name,
    /// case-insensitively.
    pub fn header(&self, name: &str) -> (r: Option<&str>)
        ensures
            match r {
                Some(v) => first_header(self.headers@, name@) == Some(v@),
                None => first_header(self.headers@, name@) is None,
            },
    {
        let mut i: usize = 0;
        assert(self.headers@.subrange(0, self.headers@.len() as int) =~= self.headers@);
        while i < self.headers.len()
            invariant
                i <= self.headers@.len(),
                first_header(self.headers@, name@) == first_header(
                    self.headers@.subrange(i as int, self.headers@.len() as int),
                    name@,
                ),
            decreases self.headers@.len() - i,
        {
            let ghost rest = self.headers@.subrange(i as int, self.headers@.len() as int);
            assert(rest[0] == self.headers@[i as int]);
            if eq_ignore_ascii_case(self.headers[i].name.as_str(), name) {
                return Some(self.headers[i].value.as_str());
            }
            assert(rest.drop_first() =~= self.headers@.subrange(i + 1, self.headers@.len() as int));
            i = i + 1;
        }
        None
    }
}

/// The character of the URL-safe base64 alphabet for the 6-bit value `v`:
/// `A`-`Z`, `a`-`z`, `0`-`9`, `-`, `_`.
pub open spec fn base64url_char(v: int) -> char {
    if v < 26 {
        ('A' as int + v) as char
    } else if v < 52 {
        ('a' as int + (v - 26)) as char
    } else if v < 62 {
        ('0' as int + (v - 52)) as char
    } else if v == 62 {
        '-'
    } else {
        '_'
    }
}

/// The unpadded URL-safe base64 encoding of `b` (RFC 4648 section 5,
/// without `=` padding): each group of three bytes becomes four
/// characters, a trailing group of one or two bytes two or three.
pub open spec fn base64url(b: Seq<u8>) -> Seq<char>
    decreases b.len(),
{
    if b.len() == 0 {
        Seq::empty()
    } else if b.len() == 1 {
        seq![base64url_char((b[0] as int) / 4), base64url_char(((b[0] as int) % 4) * 16)]
    } else if b.len() == 2 {
        seq![
            base64url_char((b[0] as int) / 4),
            base64url_char(((b[0] as int) % 4) * 16 + (b[1] as int) / 16),
            base64url_char(((b[1] as int) % 16) * 4),
        ]
    } else {
        seq![
            base64url_char((b[0] as int) / 4),
            base64url_char(((b[0] as int) % 4) * 16 + (b[1] as int) / 16),
            base64url_char(((b[1] as int) % 16) * 4 + (b[2] as int) / 64),
            base64url_char((b[2] as int) % 64),
        ] + base64url(b.subrange(3, b.len() as int))
    }
}

/// Whether `text` is the canonical unpadded URL-safe base64 encoding of
/// some bytes.
pub open spec fn is_base64url(text: Seq<char>) -> bool {
    exists|b: Seq<u8>| text == #[trigger] base64url(b)
}

/// `URL_SAFE_NO_PAD.encode` of the base64 crate, which its
/// documentation defines as the unpadded URL-safe encoding.
#[verifier::external_body]
pub(crate) fn base64url_encode(bytes: &[u8]) -> (r: String)
    ensures
        r@ == base64url(bytes@),
{
    URL_SAFE_NO_PAD.encode(bytes)
}

/// `URL_SAFE_NO_PAD.decode` of the base64 crate. Its configuration refuses
/// padding and non-zero trailing bits, so the contract states that it
/// succeeds exactly on canonical unpadded URL-safe encodings and gives
/// back the bytes they encode.
#[verifier::external_body]
pub(crate) fn base64url_decode(text: &str) -> (r: Result<Vec<u8>, base64::DecodeError>)
    ensures
        r is Ok <==> is_base64url(text@),
        r matches Ok(b) ==> text@ == base64url(b@),
{
    URL_SAFE_NO_PAD.decode(text)
}

/// Whether `c` is in the URL-safe base64 alphabet: `A`-`Z`, `a`-`z`,
/// `0`-`9`, `-`, `_`.
pub open spec fn base64url_alphabet(c: char) -> bool {
    ||| 'A' <= c <= 'Z'
    ||| 'a' <= c <= 'z'
    ||| '0' <= c <= '9'
    ||| c == '-'
    ||| c == '_'
}

proof fn lemma_base64url_char_alphabet(v: int)
    requires
        0 <= v < 64,
    ensures
        base64url_alphabet(base64url_char(v)),
{
    let c = base64url_char(v);
    if v < 26 {
        assert(65 <= c as int <= 90);
    } else if v < 52 {
        assert(97 <= c as int <= 122);
    } else if v < 62 {
        assert(48 <= c as int <= 57);
    }
}

/// The encoding of `n` bytes uses only the URL-safe alphabet (no `+`,
/// `/` or `=` padding) and has ⌈4n/3⌉ characters.
pub proof fn lemma_base64url_shape(b: Seq<u8>)
    ensures
        base64url(b).len() == (4 * b.len() + 2) / 3,
        forall|i: int| 0 <= i < base64url(b).len() ==> base64url_alphabet(#[trigger] base64url(b)[i]),
    decreases b.len(),
{
    if b.len() >= 1 {
        lemma_base64url_char_alphabet((b[0] as int) / 4);
        lemma_base64url_char_alphabet(((b[0] as int) % 4) * 16);
    }
    if b.len() >= 2 {
        lemma_base64url_char_alphabet(((b[0] as int) % 4) * 16 + (b[1] as int) / 16);
        lemma_base64url_char_alphabet(((b[1] as int) % 16) * 4);
    }
    if b.len() >= 3 {
        lemma_base64url_char_alphabet(((b[1] as int) % 16) * 4 + (b[2] as int) / 64);
        lemma_base64url_char_alphabet((b[2] as int) % 64);
        let rest = b.subrange(3, b.len() as int);
        lemma_base64url_shape(rest);
        let e = base64url(b);
        assert forall|i: int| 0 <= i < e.len() implies base64url_alphabet(#[trigger] e[i]) by {
            if i >= 4 {
                assert(e[i] == base64url(rest)[i - 4]);
            }
        }
    }
}

/// The alphabet is one to one on 6-bit values.
proof fn lemma_base64url_char_injective(v: int, w: int)
    requires
        0 <= v < 64,
        0 <= w < 64,
        base64url_char(v) == base64url_char(w),
    ensures
        v == w,
{
    let c = base64url_char(v);
    let d = base64url_char(w);
    assert(c as int == d as int);
    if v < 26 {
        assert(c as int == 65 + v);
    } else if v < 52 {
        assert(c as int == 97 + (v - 26));
    } else if v < 62 {
        assert(c as int == 48 + (v - 52));
    }
    if w < 26 {
        assert(d as int == 65 + w);
    } else if w < 52 {
        assert(d as int == 97 + (w - 26));
    } else if w < 62 {
        assert(d as int == 48 + (w - 52));
    }
}

/// Two bytes are given back by the three 6-bit values that encode them
/// with the first bits of a third.
proof fn lemma_sextets_pair(a: u8, b: u8, c: u8, d: u8)
    requires
        a / 4 == c / 4,
        (a % 4) * 16 + b / 16 == (c % 4) * 16 + d / 16,
    ensures
        a == c,
        b / 16 == d / 16,
{
    assert(a == c && b / 16 == d / 16) by (bit_vector)
        requires
            a / 4 == c / 4,
            (a % 4) * 16 + b / 16 == (c % 4) * 16 + d / 16,
    ;
}

/// The leading characters of an encoding and its length, from the first
/// bytes.
proof fn lemma_base64url_head(b: Seq<u8>)
    requires
        b.len() >= 1,
    ensures
        base64url(b)[0] == base64url_char((b[0] as int) / 4),
        b.len() == 1 ==> base64url(b).len() == 2 && base64url(b)[1] == base64url_char(
            ((b[0] as int) % 4) * 16,
        ),
        b.len() >= 2 ==> base64url(b).len() >= 3 && base64url(b)[1] == base64url_char(
            ((b[0] as int) % 4) * 16 + (b[1] as int) / 16,
        ),
        b.len() == 2 ==> base64url(b).len() == 3 && base64url(b)[2] == base64url_char(
            ((b[1] as int) % 16) * 4,
        ),
        b.len() >= 3 ==> base64url(b).len() >= 4 && base64url(b)[2] == base64url_char(
            ((b[1] as int) % 16) * 4 + (b[2] as int) / 64,
        ) && base64url(b)[3] == base64url_char((b[2] as int) % 64),
{
}

/// The unpadded URL-safe encoding is one to one: an encoding gives back
/// the bytes it encodes.
pub proof fn lemma_base64url_injective(b1: Seq<u8>, b2: Seq<u8>)
    requires
        base64url(b1) == base64url(b2),
    ensures
        b1 == b2,
    decreases b1.len(),
{
    let e = base64url(b1);
    if b1.len() >= 1 {
        lemma_base64url_head(b1);
    }
    if b2.len() >= 1 {
        lemma_base64url_head(b2);
    }
    if b1.len() == 0 || b2.len() == 0 {
        assert(b1.len() == 0 && b2.len() == 0) by {
            if b1.len() > 0 {
                assert(e.len() >= 2);
            }
            if b2.len() > 0 {
                assert(base64url(b2).len() >= 2);
            }
        }
        assert(b1 =~= b2);
        return;
    }
    let (a0, c0) = (b1[0], b2[0]);
    lemma_base64url_char_injective((a0 as int) / 4, (c0 as int) / 4);
    if b1.len() == 1 || b2.len() == 1 {
        assert(b1.len() == 1 && b2.len() == 1) by {
            if b1.len() >= 2 {
                assert(e.len() >= 3);
            }
            if b2.len() >= 2 {
                assert(base64url(b2).len() >= 3);
            }
        }
        lemma_base64url_char_injective(((a0 as int) % 4) * 16, ((c0 as int) % 4) * 16);
        lemma_sextets_pair(a0, 0, c0, 0);
        assert(b1 =~= b2);
        return;
    }
    let (a1, c1) = (b1[1], b2[1]);
    lemma_base64url_char_injective(
        ((a0 as int) % 4) * 16 + (a1 as int) / 16,
        ((c0 as int) % 4) * 16 + (c1 as int) / 16,
    );
    lemma_sextets_pair(a0, a1, c0, c1);
    if b1.len() == 2 || b2.len() == 2 {
        assert(b1.len() == 2 && b2.len() == 2) by {
            if b1.len() >= 3 {
                assert(e.len() >= 4);
            }
            if b2.len() >= 3 {
                assert(base64url(b2).len() >= 4);
            }
        }
        lemma_base64url_char_injective(((a1 as int) % 16) * 4, ((c1 as int) % 16) * 4);
        lemma_sextets_pair(a1, 0, c1, 0);
        assert(a1 == c1) by (bit_vector)
            requires
                a1 / 16 == c1 / 16,
                (a1 % 16) * 4 == (c1 % 16) * 4,
        ;
        assert(b1 =~= b2);
        return;
    }
    let (a2, c2) = (b1[2], b2[2]);
    lemma_base64url_char_injective(
        ((a1 as int) % 16) * 4 + (a2 as int) / 64,
        ((c1 as int) % 16) * 4 + (c2 as int) / 64,
    );
    lemma_base64url_char_injective((a2 as int) % 64, (c2 as int) % 64);
    assert(a1 == c1 && a2 == c2) by (bit_vector)
        requires
            a1 / 16 == c1 / 16,
            (a1 % 16) * 4 + a2 / 64 == (c1 % 16) * 4 + c2 / 64,
            a2 % 64 == c2 % 64,
    ;
    let r1 = b1.subrange(3, b1.len() as int);
    let r2 = b2.subrange(3, b2.len() as int);
    assert(base64url(r1) =~= e.subrange(4, e.len() as int));
    assert(base64url(r2) =~= base64url(b2).subrange(4, e.len() as int));
    lemma_base64url_injective(r1, r2);
    assert(b1 =~= b2) by {
        assert forall|i: int| 0 <= i < b1.len() implies b1[i] == b2[i] by {
            if i >= 3 {
                assert(b1[i] == r1[i - 3]);
                assert(b2[i] == r2[i - 3]);
            }
        }
    }
}

/// Whether `c` is ASCII white space as `char::is_ascii_whitespace`
/// defines it: space, tab, line feed, form feed, carriage return.
pub open spec fn ascii_white_space(c: char) -> bool {
    c == ' ' || c == '\t' || c == '\n' || c == '\x0C' || c == '\r'
}

/// `text` without its ASCII white space.
pub open spec fn without_ascii_white_space(text: Seq<char>) -> Seq<char> {
    text.filter(|c: char| !ascii_white_space(c))
}

/// `text` without its trailing `=` characters.
pub open spec fn without_trailing_padding(text: Seq<char>) -> Seq<char>
    decreases text.len(),
{
    if text.len() > 0 && text.last() == '=' {
        without_trailing_padding(text.drop_last())
    } else {
        text
    }
}

/// The text `decode_raw` hands to the decoder: white space removed,
/// then trailing padding removed.
pub open spec fn normalized_raw(raw: Seq<char>) -> Seq<char> {
    without_trailing_padding(without_ascii_white_space(raw))
}

/// Removing trailing padding keeps a prefix of the text, and removing it
/// again changes nothing.
proof fn lemma_padding_prefix(x: Seq<char>)
    ensures
        without_trailing_padding(x).len() <= x.len(),
        forall|i: int|
            0 <= i < without_trailing_padding(x).len() ==> #[trigger] without_trailing_padding(x)[i]
                == x[i],
        without_trailing_padding(without_trailing_padding(x)) == without_trailing_padding(x),
    decreases x.len(),
{
    if x.len() > 0 && x.last() == '=' {
        lemma_padding_prefix(x.drop_last());
    }
}

/// Normalizing a raw text twice is normalizing it once: a text and its
/// white-space-free, padding-free form decode alike.
pub proof fn lemma_normalized_raw_idempotent(raw: Seq<char>)
    ensures
        normalized_raw(normalized_raw(raw)) == normalized_raw(raw),
{
    let pred = |c: char| !ascii_white_space(c);
    let x = without_ascii_white_space(raw);
    let y = without_trailing_padding(x);
    lemma_padding_prefix(x);
    assert forall|i: int| 0 <= i < y.len() implies !ascii_white_space(#[trigger] y[i]) by {
        assert(y[i] == x[i]);
        raw.lemma_filter_pred(pred, i);
    }
    lemma_filter_all_kept(y);
}

/// `String::push`, appending one character.
#[verifier::external_body]
fn string_push(s: &mut String, c: char)
    ensures
        final(s)@ == old(s)@.push(c),
{
    s.push(c)
}

proof fn lemma_base64url_char_plain(v: int)
    requires
        0 <= v < 64,
    ensures
        !ascii_white_space(base64url_char(v)),
        base64url_char(v) != '=',
{
    let c = base64url_char(v);
    if v < 26 {
        assert(65 <= c as int <= 90);
    } else if v < 52 {
        assert(97 <= c as int <= 122);
    } else if v < 62 {
        assert(48 <= c as int <= 57);
    }
}

proof fn lemma_base64url_plain(b: Seq<u8>)
    ensures
        forall|i: int|
            0 <= i < base64url(b).len() ==> !ascii_white_space(#[trigger] base64url(b)[i])
                && base64url(b)[i] != '=',
    decreases b.len(),
{
    if b.len() >= 1 {
        lemma_base64url_char_plain((b[0] as int) / 4);
        lemma_base64url_char_plain(((b[0] as int) % 4) * 16);
    }
    if b.len() >= 2 {
        lemma_base64url_char_plain(((b[0] as int) % 4) * 16 + (b[1] as int) / 16);
        lemma_base64url_char_plain(((b[1] as int) % 16) * 4);
    }
    if b.len() >= 3 {
        lemma_base64url_char_plain(((b[1] as int) % 16) * 4 + (b[2] as int) / 64);
        lemma_base64url_char_plain((b[2] as int) % 64);
        let rest = b.subrange(3, b.len() as int);
        lemma_base64url_plain(rest);
        let e = base64url(b);
        assert forall|i: int| 0 <= i < e.len() implies !ascii_white_space(#[trigger] e[i]) && e[i] != '=' by {
            if i >= 4 {
                assert(e[i] == base64url(rest)[i - 4]);
            }
        }
    }
}

proof fn lemma_filter_all_kept(text: Seq<char>)
    requires
        forall|i: int| 0 <= i < text.len() ==> !ascii_white_space(#[trigger] text[i]),
    ensures
        without_ascii_white_space(text) == text,
    decreases text.len(),
{
    reveal_with_fuel(Seq::filter, 1);
    if text.len() > 0 {
        lemma_filter_all_kept(text.drop_last());
        assert(text.drop_last().push(text.last()) =~= text);
    } else {
        assert(without_ascii_white_space(text) =~= text);
    }
}

/// Decodes a base64url-encoded (URL-safe, no padding) raw string back
/// into RFC 5322 message bytes.
///
/// Whitespace and trailing padding are stripped beforehand, so both
/// padded and unpadded inputs decode; whatever [`encode_raw`] wrote
/// decodes back to the bytes it encoded.
pub fn decode_raw(raw: &str) -> (r: Result<Vec<u8>, base64::DecodeError>)
    ensures
        r is Ok <==> is_base64url(normalized_raw(raw@)),
        r matches Ok(b) ==> normalized_raw(raw@) == base64url(b@),
        forall|b: Seq<u8>| raw@ == #[trigger] base64url(b) ==> (r matches Ok(v) && v@ == b),
{
    let n = raw.unicode_len();
    let mut kept = String::new();
    let mut i: usize = 0;
    while i < n
        invariant
            n == raw@.len(),
            i <= n,
            kept@ == without_ascii_white_space(raw@.subrange(0, i as int)),
        decreases n - i,
    {
        let c = raw.get_char(i);
        proof {
            reveal_with_fuel(Seq::filter, 1);
            assert(raw@.subrange(0, i + 1).drop_last() =~= raw@.subrange(0, i as int));
        }
        if !(c == ' ' || c == '\t' || c == '\n' || c == '\x0C' || c == '\r') {
            string_push(&mut kept, c);
        }
        i = i + 1;
    }
    assert(raw@.subrange(0, n as int) =~= raw@);
    let ghost filtered = kept@;
    let m = kept.as_str().unicode_len();
    let mut j: usize = m;
    assert(filtered.subrange(0, m as int) =~= filtered);
    while j > 0 && kept.as_str().get_char(j - 1) == '='
        invariant
            m == filtered.len(),
            kept@ == filtered,
            j <= m,
            without_trailing_padding(filtered) == without_trailing_padding(filtered.subrange(0, j as int)),
        decreases j,
    {
        assert(filtered.subrange(0, j as int).drop_last() =~= filtered.subrange(0, j - 1));
        j = j - 1;
    }
    proof {
        let t = filtered.subrange(0, j as int);
        if j > 0 {
            assert(t.last() == filtered[j - 1]);
        }
        assert(without_trailing_padding(t) == t);
    }
    let normalized = kept.as_str().substring_char(0, j);
    let r = base64url_decode(normalized);
    proof {
        assert forall|b: Seq<u8>| raw@ == #[trigger] base64url(b) implies (r matches Ok(v) && v@ == b) by {
            lemma_base64url_plain(b);
            lemma_filter_all_kept(raw@);
            assert(filtered == raw@);
            if j < m {
                assert(filtered[j as int] == '=');
            }
            assert(filtered.subrange(0, j as int) =~= filtered);
            assert(normalized@ == base64url(b));
            if let Ok(v) = r {
                lemma_base64url_injective(v@, b);
            }
        }
    }
    r
}

/// Encodes raw RFC 5322 message bytes into the base64url (URL-safe,
/// no padding) string expected by the `raw` field.
pub fn encode_raw(raw: &[u8]) -> (r: String)
    ensures
        r@ == base64url(raw@),
        r@.len() == (4 * raw@.len() + 2) / 3,
        forall|i: int| 0 <= i < r@.len() ==> base64url_alphabet(#[trigger] r@[i]),
{
    proof {
        lemma_base64url_shape(raw@);
    }
    base64url_encode(raw)
}

/// The JSON array of strings.
pub open spec fn strings_json(items: Seq<String>) -> Seq<u8> {
    json_array(items.map_values(|s: String| json_string(s@)))
}

/// Writes the JSON array of the strings.
pub fn strings_to_json(items: &[String]) -> (r: Vec<u8>)
    ensures
        r@ == strings_json(items@),
{
    let mut encoded: Vec<Vec<u8>> = Vec::new();
    let mut i: usize = 0;
    while i < items.len()
        invariant
            i <= items@.len(),
            chunks_view(encoded@) == items@.subrange(0, i as int).map_values(
                |s: String| json_string(s@),
            ),
        decreases items@.len() - i,
    {
        let ghost before = chunks_view(encoded@);
        encoded.push(string(items[i].as_str()));
        assert(chunks_view(encoded@) =~= before.push(json_string(items@[i as int]@)));
        assert(items@.subrange(0, i + 1) =~= items@.subrange(0, i as int).push(items@[i as int]));
        assert(chunks_view(encoded@) =~= items@.subrange(0, i + 1).map_values(
            |s: String| json_string(s@),
        ));
        i = i + 1;
    }
    assert(items@.subrange(0, items@.len() as int) =~= items@);
    array(&encoded)
}

/// A string member written even when absent, as `null`.
pub open spec fn nullable_string_json(value: Option<String>) -> Seq<u8> {
    match value {
        Some(v) => json_string(v@),
        None => json_null(),
    }
}

fn nullable_string_to_json(value: &Option<String>) -> (r: Vec<u8>)
    ensures
        r@ == nullable_string_json(*value),
{
    match value {
        Some(v) => string(v.as_str()),
        None => null(),
    }
}

/// The JSON object of a part body: every member written, absent ones
/// as `null`.
pub open spec fn part_body_json(b: GmailMessagePartBody) -> Seq<u8> {
    json_object(
        seq![
            json_member("attachmentId"@, nullable_string_json(b.attachment_id)),
            json_member("size"@, json_number(b.size as nat)),
            json_member("data"@, nullable_string_json(b.data)),
        ],
    )
}

/// The JSON object of a header.
pub open spec fn header_json(h: GmailMessageHeader) -> Seq<u8> {
    json_object(seq![json_member("name"@, json_string(h.name@)), json_member("value"@, json_string(h.value@))])
}

/// The JSON object of a message part: every member written (absent ones
/// as `null`), children nested under `parts`.
pub open spec fn payload_json(p: GmailMessagePayload) -> Seq<u8>
    decreases p, 1nat,
{
    json_object(
        seq![
            json_member("partId"@, nullable_string_json(p.part_id)),
            json_member("mimeType"@, nullable_string_json(p.mime_type)),
            json_member(
                "body"@,
                match p.body {
                    Some(b) => part_body_json(b),
                    None => json_null(),
                },
            ),
            json_member("filename"@, json_string(p.filename@)),
            json_member("headers"@, json_array(p.headers@.map_values(|h: GmailMessageHeader| header_json(h)))),
            json_member("parts"@, json_array(parts_json(p.parts@))),
        ],
    )
}

/// The JSON objects of a list of message parts.
pub open spec fn parts_json(parts: Seq<GmailMessagePayload>) -> Seq<Seq<u8>>
    decreases parts, 0nat,
{
    if parts.len() == 0 {
        Seq::empty()
    } else {
        parts_json(parts.drop_last()).push(payload_json(parts.last()))
    }
}

/// The JSON object of a message, as Gmail takes it in request bodies:
/// camel-case member names, empty strings, empty lists and absent values
/// left out.
pub open spec fn message_json(m: GmailMessage) -> Seq<u8> {
    json_object(
        optional(nonempty_string_member("id"@, m.id@))
        + optional(optional_string_member("threadId"@, m.thread_id))
        + optional(if m.label_ids@.len() > 0 {
            Some(json_member("labelIds"@, strings_json(m.label_ids@)))
        } else {
            None
        })
        + optional(optional_string_member("internalDate"@, m.internal_date))
        + optional(optional_string_member("snippet"@, m.snippet))
        + optional(match m.payload {
            Some(p) => Some(json_member("payload"@, payload_json(p))),
            None => None,
        })
        + optional(optional_string_member("raw"@, m.raw))
        + optional(optional_number_member("sizeEstimate"@, m.size_estimate))
        + optional(optional_string_member("historyId"@, m.history_id)),
    )
}

/// The members of the message JSON, each a key and its encoded value.
pub open spec fn message_fields(m: GmailMessage) -> Seq<(Seq<char>, Seq<u8>)> {
    optional_pair("id"@, if m.id@.len() > 0 { Some(json_string(m.id@)) } else { None })
        + optional_pair("threadId"@, optional_string_json(m.thread_id))
        + optional_pair("labelIds"@, if m.label_ids@.len() > 0 { Some(strings_json(m.label_ids@)) } else { None })
        + optional_pair("internalDate"@, optional_string_json(m.internal_date))
        + optional_pair("snippet"@, optional_string_json(m.snippet))
        + optional_pair("payload"@, match m.payload { Some(p) => Some(payload_json(p)), None => None })
        + optional_pair("raw"@, optional_string_json(m.raw))
        + optional_pair("sizeEstimate"@, optional_number_json(m.size_estimate))
        + optional_pair("historyId"@, optional_string_json(m.history_id))
}

/// The values the fields of `message_json` hold under `name`, field by field.
#[verifier::rlimit(40)]
proof fn lemma_message_fields_named(m: GmailMessage, name: Seq<char>)
    ensures
        values_named(message_fields(m), name) == (if "id"@ == name {
            match (if m.id@.len() > 0 { Some(json_string(m.id@)) } else { None }) {
                Some(v) => seq![v],
                None => Seq::<Seq<u8>>::empty(),
            }
        } else {
            Seq::<Seq<u8>>::empty()
        })
            + (if "threadId"@ == name {
            match (optional_string_json(m.thread_id)) {
                Some(v) => seq![v],
                None => Seq::<Seq<u8>>::empty(),
            }
        } else {
            Seq::<Seq<u8>>::empty()
        })
            + (if "labelIds"@ == name {
            match (if m.label_ids@.len() > 0 { Some(strings_json(m.label_ids@)) } else { None }) {
                Some(v) => seq![v],
                None => Seq::<Seq<u8>>::empty(),
            }
        } else {
            Seq::<Seq<u8>>::empty()
        })
            + (if "internalDate"@ == name {
            match (optional_string_json(m.internal_date)) {
                Some(v) => seq![v],
                None => Seq::<Seq<u8>>::empty(),
            }
        } else {
            Seq::<Seq<u8>>::empty()
        })
            + (if "snippet"@ == name {
            match (optional_string_json(m.snippet)) {
                Some(v) => seq![v],
                None => Seq::<Seq<u8>>::empty(),
            }
        } else {
            Seq::<Seq<u8>>::empty()
        })
            + (if "payload"@ == name {
            match (match m.payload { Some(p) => Some(payload_json(p)), None => None }) {
                Some(v) => seq![v],
                None => Seq::<Seq<u8>>::empty(),
            }
        } else {
            Seq::<Seq<u8>>::empty()
        })
            + (if "raw"@ == name {
            match (optional_string_json(m.raw)) {
                Some(v) => seq![v],
                None => Seq::<Seq<u8>>::empty(),
            }
        } else {
            Seq::<Seq<u8>>::empty()
        })
            + (if "sizeEstimate"@ == name {
            match (optional_number_json(m.size_estimate)) {
                Some(v) => seq![v],
                None => Seq::<Seq<u8>>::empty(),
            }
        } else {
            Seq::<Seq<u8>>::empty()
        })
            + (if "historyId"@ == name {
            match (optional_string_json(m.history_id)) {
                Some(v) => seq![v],
                None => Seq::<Seq<u8>>::empty(),
            }
        } else {
            Seq::<Seq<u8>>::empty()
        }),
{
    let f0 = optional_pair("id"@, if m.id@.len() > 0 { Some(json_string(m.id@)) } else { None });
    let f1 = optional_pair("threadId"@, optional_string_json(m.thread_id));
    let f2 = optional_pair("labelIds"@, if m.label_ids@.len() > 0 { Some(strings_json(m.label_ids@)) } else { None });
    let f3 = optional_pair("internalDate"@, optional_string_json(m.internal_date));
    let f4 = optional_pair("snippet"@, optional_string_json(m.snippet));
    let f5 = optional_pair("payload"@, match m.payload { Some(p) => Some(payload_json(p)), None => None });
    let f6 = optional_pair("raw"@, optional_string_json(m.raw));
    let f7 = optional_pair("sizeEstimate"@, optional_number_json(m.size_estimate));
    let f8 = optional_pair("historyId"@, optional_string_json(m.history_id));
    lemma_values_named_add(f0, f1, name);
    lemma_values_named_add(f0 + f1, f2, name);
    lemma_values_named_add(f0 + f1 + f2, f3, name);
    lemma_values_named_add(f0 + f1 + f2 + f3, f4, name);
    lemma_values_named_add(f0 + f1 + f2 + f3 + f4, f5, name);
    lemma_values_named_add(f0 + f1 + f2 + f3 + f4 + f5, f6, name);
    lemma_values_named_add(f0 + f1 + f2 + f3 + f4 + f5 + f6, f7, name);
    lemma_values_named_add(f0 + f1 + f2 + f3 + f4 + f5 + f6 + f7, f8, name);
    lemma_values_named_optional("id"@, if m.id@.len() > 0 { Some(json_string(m.id@)) } else { None }, name);
    lemma_values_named_optional("threadId"@, optional_string_json(m.thread_id), name);
    lemma_values_named_optional("labelIds"@, if m.label_ids@.len() > 0 { Some(strings_json(m.label_ids@)) } else { None }, name);
    lemma_values_named_optional("internalDate"@, optional_string_json(m.internal_date), name);
    lemma_values_named_optional("snippet"@, optional_string_json(m.snippet), name);
    lemma_values_named_optional("payload"@, match m.payload { Some(p) => Some(payload_json(p)), None => None }, name);
    lemma_values_named_optional("raw"@, optional_string_json(m.raw), name);
    lemma_values_named_optional("sizeEstimate"@, optional_number_json(m.size_estimate), name);
    lemma_values_named_optional("historyId"@, optional_string_json(m.history_id), name);
}

/// `message_json` writes the members of `message_fields`, in order.
proof fn lemma_message_json_is_fields(m: GmailMessage)
    ensures
        message_json(m) == fields_json(message_fields(m)),
{
    let f0 = optional_pair("id"@, if m.id@.len() > 0 { Some(json_string(m.id@)) } else { None });
    let f1 = optional_pair("threadId"@, optional_string_json(m.thread_id));
    let f2 = optional_pair("labelIds"@, if m.label_ids@.len() > 0 { Some(strings_json(m.label_ids@)) } else { None });
    let f3 = optional_pair("internalDate"@, optional_string_json(m.internal_date));
    let f4 = optional_pair("snippet"@, optional_string_json(m.snippet));
    let f5 = optional_pair("payload"@, match m.payload { Some(p) => Some(payload_json(p)), None => None });
    let f6 = optional_pair("raw"@, optional_string_json(m.raw));
    let f7 = optional_pair("sizeEstimate"@, optional_number_json(m.size_estimate));
    let f8 = optional_pair("historyId"@, optional_string_json(m.history_id));
    lemma_field_members_add(f0, f1);
    lemma_field_members_add(f0 + f1, f2);
    lemma_field_members_add(f0 + f1 + f2, f3);
    lemma_field_members_add(f0 + f1 + f2 + f3, f4);
    lemma_field_members_add(f0 + f1 + f2 + f3 + f4, f5);
    lemma_field_members_add(f0 + f1 + f2 + f3 + f4 + f5, f6);
    lemma_field_members_add(f0 + f1 + f2 + f3 + f4 + f5 + f6, f7);
    lemma_field_members_add(f0 + f1 + f2 + f3 + f4 + f5 + f6 + f7, f8);
    lemma_field_members_optional("id"@, if m.id@.len() > 0 { Some(json_string(m.id@)) } else { None });
    assert(field_members(f0) == optional(nonempty_string_member("id"@, m.id@)));
    lemma_field_members_optional("threadId"@, optional_string_json(m.thread_id));
    assert(field_members(f1) == optional(optional_string_member("threadId"@, m.thread_id)));
    lemma_field_members_optional("labelIds"@, if m.label_ids@.len() > 0 { Some(strings_json(m.label_ids@)) } else { None });
    assert(field_members(f2) == optional(if m.label_ids@.len() > 0 { Some(json_member("labelIds"@, strings_json(m.label_ids@))) } else { None }));
    lemma_field_members_optional("internalDate"@, optional_string_json(m.internal_date));
    assert(field_members(f3) == optional(optional_string_member("internalDate"@, m.internal_date)));
    lemma_field_members_optional("snippet"@, optional_string_json(m.snippet));
    assert(field_members(f4) == optional(optional_string_member("snippet"@, m.snippet)));
    lemma_field_members_optional("payload"@, match m.payload { Some(p) => Some(payload_json(p)), None => None });
    assert(field_members(f5) == optional(match m.payload { Some(p) => Some(json_member("payload"@, payload_json(p))), None => None }));
    lemma_field_members_optional("raw"@, optional_string_json(m.raw));
    assert(field_members(f6) == optional(optional_string_member("raw"@, m.raw)));
    lemma_field_members_optional("sizeEstimate"@, optional_number_json(m.size_estimate));
    assert(field_members(f7) == optional(optional_number_member("sizeEstimate"@, m.size_estimate)));
    lemma_field_members_optional("historyId"@, optional_string_json(m.history_id));
    assert(field_members(f8) == optional(optional_string_member("historyId"@, m.history_id)));
}

/// Every field of a message that is set is written under its camel-case
/// name, whatever the other fields hold: `id` when the id is not empty,
/// `threadId` with the JSON string of `t` exactly when the thread id is
/// `Some(t)`, `labelIds` with the array of the label ids when there is
/// one, and each other present value under its own name; absent values
/// and empty strings or lists are left out.
#[verifier::rlimit(40)]
pub proof fn lemma_message_json_members(m: GmailMessage)
    ensures
        message_json(m) == fields_json(message_fields(m)),
        values_named(message_fields(m), "id"@) == if m.id@.len() > 0 {
            seq![json_string(m.id@)]
        } else {
            Seq::<Seq<u8>>::empty()
        },
        values_named(message_fields(m), "threadId"@) == match m.thread_id {
            Some(v) => seq![json_string(v@)],
            None => Seq::<Seq<u8>>::empty(),
        },
        values_named(message_fields(m), "labelIds"@) == if m.label_ids@.len() > 0 {
            seq![strings_json(m.label_ids@)]
        } else {
            Seq::<Seq<u8>>::empty()
        },
        values_named(message_fields(m), "internalDate"@) == match m.internal_date {
            Some(v) => seq![json_string(v@)],
            None => Seq::<Seq<u8>>::empty(),
        },
        values_named(message_fields(m), "snippet"@) == match m.snippet {
            Some(v) => seq![json_string(v@)],
            None => Seq::<Seq<u8>>::empty(),
        },
        values_named(message_fields(m), "payload"@) == match m.payload {
            Some(p) => seq![payload_json(p)],
            None => Seq::<Seq<u8>>::empty(),
        },
        values_named(message_fields(m), "raw"@) == match m.raw {
            Some(v) => seq![json_string(v@)],
            None => Seq::<Seq<u8>>::empty(),
        },
        values_named(message_fields(m), "sizeEstimate"@) == match m.size_estimate {
            Some(n) => seq![json_number(n as nat)],
            None => Seq::<Seq<u8>>::empty(),
        },
        values_named(message_fields(m), "historyId"@) == match m.history_id {
            Some(v) => seq![json_string(v@)],
            None => Seq::<Seq<u8>>::empty(),
        },
{
    reveal_strlit("id");
    reveal_strlit("threadId");
    reveal_strlit("labelIds");
    reveal_strlit("internalDate");
    reveal_strlit("snippet");
    reveal_strlit("payload");
    reveal_strlit("raw");
    reveal_strlit("sizeEstimate");
    reveal_strlit("historyId");
    assert("id"@.len() == 2 && "threadId"@.len() == 8 && "labelIds"@.len() == 8);
    assert("internalDate"@.len() == 12 && "snippet"@.len() == 7 && "payload"@.len() == 7);
    assert("raw"@.len() == 3 && "sizeEstimate"@.len() == 12 && "historyId"@.len() == 9);
    assert("threadId"@[0] == 't' && "labelIds"@[0] == 'l');
    assert("internalDate"@[0] == 'i' && "sizeEstimate"@[0] == 's');
    assert("snippet"@[0] == 's' && "payload"@[0] == 'p');
    lemma_message_json_is_fields(m);
    assert(values_named(message_fields(m), "id"@) =~= if m.id@.len() > 0 {
            seq![json_string(m.id@)]
        } else {
            Seq::<Seq<u8>>::empty()
        }) by {
        lemma_message_fields_named(m, "id"@);
    }
    assert(values_named(message_fields(m), "threadId"@) =~= match m.thread_id {
            Some(v) => seq![json_string(v@)],
            None => Seq::<Seq<u8>>::empty(),
        }) by {
        lemma_message_fields_named(m, "threadId"@);
    }
    assert(values_named(message_fields(m), "labelIds"@) =~= if m.label_ids@.len() > 0 {
            seq![strings_json(m.label_ids@)]
        } else {
            Seq::<Seq<u8>>::empty()
        }) by {
        lemma_message_fields_named(m, "labelIds"@);
    }
    assert(values_named(message_fields(m), "internalDate"@) =~= match m.internal_date {
            Some(v) => seq![json_string(v@)],
            None => Seq::<Seq<u8>>::empty(),
        }) by {
        lemma_message_fields_named(m, "internalDate"@);
    }
    assert(values_named(message_fields(m), "snippet"@) =~= match m.snippet {
            Some(v) => seq![json_string(v@)],
            None => Seq::<Seq<u8>>::empty(),
        }) by {
        lemma_message_fields_named(m, "snippet"@);
    }
    assert(values_named(message_fields(m), "payload"@) =~= match m.payload {
            Some(p) => seq![payload_json(p)],
            None => Seq::<Seq<u8>>::empty(),
        }) by {
        lemma_message_fields_named(m, "payload"@);
    }
    assert(values_named(message_fields(m), "raw"@) =~= match m.raw {
            Some(v) => seq![json_string(v@)],
            None => Seq::<Seq<u8>>::empty(),
        }) by {
        lemma_message_fields_named(m, "raw"@);
    }
    assert(values_named(message_fields(m), "sizeEstimate"@) =~= match m.size_estimate {
            Some(n) => seq![json_number(n as nat)],
            None => Seq::<Seq<u8>>::empty(),
        }) by {
        lemma_message_fields_named(m, "sizeEstimate"@);
    }
    assert(values_named(message_fields(m), "historyId"@) =~= match m.history_id {
            Some(v) => seq![json_string(v@)],
            None => Seq::<Seq<u8>>::empty(),
        }) by {
        lemma_message_fields_named(m, "historyId"@);
    }
}




impl GmailMessagePartBody {
    /// Writes the part body as [`part_body_json`] describes.
    pub fn to_json(&self) -> (r: Vec<u8>)
        ensures
            r@ == part_body_json(*self),
    {
        let mut ms: Vec<Vec<u8>> = Vec::new();
        ms.push(member("attachmentId", nullable_string_to_json(&self.attachment_id)));
        ms.push(member("size", number(self.size as u64)));
        ms.push(member("data", nullable_string_to_json(&self.data)));
        assert(chunks_view(ms@) =~= seq![
            json_member("attachmentId"@, nullable_string_json(self.attachment_id)),
            json_member("size"@, json_number(self.size as nat)),
            json_member("data"@, nullable_string_json(self.data)),
        ]);
        object(&ms)
    }
}

impl GmailMessageHeader {
    /// Writes the header as [`header_json`] describes.
    pub fn to_json(&self) -> (r: Vec<u8>)
        ensures
            r@ == header_json(*self),
    {
        let mut ms: Vec<Vec<u8>> = Vec::new();
        ms.push(member("name", string(self.name.as_str())));
        ms.push(member("value", string(self.value.as_str())));
        assert(chunks_view(ms@) =~= seq![
            json_member("name"@, json_string(self.name@)),
            json_member("value"@, json_string(self.value@)),
        ]);
        object(&ms)
    }
}

impl GmailMessagePayload {
    /// Writes the part as [`payload_json`] describes.
    pub fn to_json(&self) -> (r: Vec<u8>)
        ensures
            r@ == payload_json(*self),
        decreases *self,
    {
        let mut headers: Vec<Vec<u8>> = Vec::new();
        let mut i: usize = 0;
        while i < self.headers.len()
            invariant
                i <= self.headers@.len(),
                chunks_view(headers@) == self.headers@.subrange(0, i as int).map_values(
                    |h: GmailMessageHeader| header_json(h),
                ),
            decreases self.headers@.len() - i,
        {
            let ghost before = chunks_view(headers@);
            headers.push(self.headers[i].to_json());
            assert(chunks_view(headers@) =~= before.push(header_json(self.headers@[i as int])));
            assert(self.headers@.subrange(0, i + 1) =~= self.headers@.subrange(0, i as int).push(self.headers@[i as int]));
            assert(chunks_view(headers@) =~= self.headers@.subrange(0, i + 1).map_values(
                |h: GmailMessageHeader| header_json(h),
            ));
            i = i + 1;
        }
        assert(self.headers@.subrange(0, self.headers@.len() as int) =~= self.headers@);
        let mut parts: Vec<Vec<u8>> = Vec::new();
        let mut j: usize = 0;
        while j < self.parts.len()
            invariant
                j <= self.parts@.len(),
                chunks_view(parts@) == parts_json(self.parts@.subrange(0, j as int)),
            decreases self.parts@.len() - j,
        {
            proof {
                assert(decreases_to!(*self => self.parts));
                assert(decreases_to!(self.parts => self.parts@));
                assert(decreases_to!(self.parts@ => self.parts@[j as int]));
            }
            let encoded = self.parts[j].to_json();
            parts.push(encoded);
            assert(self.parts@.subrange(0, j + 1).drop_last() =~= self.parts@.subrange(0, j as int));
            assert(chunks_view(parts@) =~= parts_json(self.parts@.subrange(0, j + 1)));
            j = j + 1;
        }
        assert(self.parts@.subrange(0, self.parts@.len() as int) =~= self.parts@);
        let body = match &self.body {
            Some(b) => b.to_json(),
            None => null(),
        };
        let mut ms: Vec<Vec<u8>> = Vec::new();
        ms.push(member("partId", nullable_string_to_json(&self.part_id)));
        ms.push(member("mimeType", nullable_string_to_json(&self.mime_type)));
        ms.push(member("body", body));
        ms.push(member("filename", string(self.filename.as_str())));
        ms.push(member("headers", array(&headers)));
        ms.push(member("parts", array(&parts)));
        assert(chunks_view(ms@) =~= seq![
            json_member("partId"@, nullable_string_json(self.part_id)),
            json_member("mimeType"@, nullable_string_json(self.mime_type)),
            json_member(
                "body"@,
                match self.body {
                    Some(b) => part_body_json(b),
                    None => json_null(),
                },
            ),
            json_member("filename"@, json_string(self.filename@)),
            json_member("headers"@, json_array(self.headers@.map_values(|h: GmailMessageHeader| header_json(h)))),
            json_member("parts"@, json_array(parts_json(self.parts@))),
        ]);
        object(&ms)
    }
}

impl GmailMessage {
    /// Writes the message as [`message_json`] describes.
    pub fn to_json(&self) -> (r: Vec<u8>)
        ensures
            r@ == message_json(*self),
    {
        let mut ms: Vec<Vec<u8>> = Vec::new();
        let id = if self.id.as_str().is_empty() {
            None
        } else {
            Some(member("id", string(self.id.as_str())))
        };
        push_optional(&mut ms, id);
        let v = match &self.thread_id {
            Some(v) => Some(member("threadId", string(v.as_str()))),
            None => None,
        };
        push_optional(&mut ms, v);
        let v = if self.label_ids.len() > 0 {
            Some(member("labelIds", strings_to_json(self.label_ids.as_slice())))
        } else {
            None
        };
        push_optional(&mut ms, v);
        let v = match &self.internal_date {
            Some(v) => Some(member("internalDate", string(v.as_str()))),
            None => None,
        };
        push_optional(&mut ms, v);
        let v = match &self.snippet {
            Some(v) => Some(member("snippet", string(v.as_str()))),
            None => None,
        };
        push_optional(&mut ms, v);
        let v = match &self.payload {
            Some(p) => Some(member("payload", p.to_json())),
            None => None,
        };
        push_optional(&mut ms, v);
        let v = match &self.raw {
            Some(v) => Some(member("raw", string(v.as_str()))),
            None => None,
        };
        push_optional(&mut ms, v);
        let v = match self.size_estimate {
            Some(n) => Some(member("sizeEstimate", number(n))),
            None => None,
        };
        push_optional(&mut ms, v);
        let v = match &self.history_id {
            Some(v) => Some(member("historyId", string(v.as_str()))),
            None => None,
        };
        push_optional(&mut ms, v);
        object(&ms)
    }
}

} // verus!
