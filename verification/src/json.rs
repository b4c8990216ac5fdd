//! The JSON primitives the library takes from `serde_json`: reading an
//! object's members, reading optional numbers and strings, escaping a
//! string, and checking that a body is a JSON document.
//!
//! Everything above these primitives (which member to look up, how an
//! envelope or a request body is framed) is this library's own logic.

use serde_json::value::RawValue;
use std::collections::BTreeMap;
use vstd::prelude::*;
use vstd::utf8::encode_utf8;

verus! {

#[verifier::external_type_specification]
#[verifier::external_body]
pub struct ExJsonError(serde_json::Error);

/// The members of the JSON object in `bytes`, each with the JSON text of
/// its value exactly as it stands in `bytes`: two chained calls,
/// `serde_json::from_slice` into a map of raw values ordered by name (a
/// repeated name keeps its last value), then `RawValue::get` of each;
/// `None` when `bytes` is not one JSON object.
pub uninterp spec fn json_members(bytes: Seq<u8>) -> Option<Seq<(Seq<char>, Seq<char>)>>;

/// The elements of the JSON array in `bytes`, each as the JSON text of
/// its value exactly as it stands in `bytes`, as `serde_json` reads them
/// into a `Vec`; `None` when `bytes` is not one JSON array.
pub uninterp spec fn json_elements(bytes: Seq<u8>) -> Option<Seq<Seq<char>>>;

/// What `serde_json` reads from `text` as an `Option<u16>`: `Some(None)`
/// for `null`, `Some(Some(n))` for an integer in range, `None` otherwise.
pub uninterp spec fn json_opt_u16(text: Seq<char>) -> Option<Option<u16>>;

/// What `serde_json` reads from `text` as an `Option<String>`.
pub uninterp spec fn json_opt_string(text: Seq<char>) -> Option<Option<Seq<char>>>;

/// The lower-case hex digit of the value `d` (below 16).
pub open spec fn hex_char(d: int) -> char {
    if d < 10 {
        ('0' as int + d) as char
    } else {
        ('a' as int + (d - 10)) as char
    }
}

/// How `serde_json` writes the character `c` inside a string literal:
/// `"` and `\` after a backslash, backspace, tab, line feed, form feed
/// and carriage return as `\b`, `\t`, `\n`, `\f`, `\r`, the other control
/// characters below 0x20 as `\u00` and two lower-case hex digits, and any
/// other character as itself.
pub open spec fn json_char_escape(c: char) -> Seq<char> {
    let v = c as int;
    if c == '"' {
        seq!['\\', '"']
    } else if c == '\\' {
        seq!['\\', '\\']
    } else if v == 0x08 {
        seq!['\\', 'b']
    } else if v == 0x09 {
        seq!['\\', 't']
    } else if v == 0x0A {
        seq!['\\', 'n']
    } else if v == 0x0C {
        seq!['\\', 'f']
    } else if v == 0x0D {
        seq!['\\', 'r']
    } else if v < 0x20 {
        seq!['\\', 'u', '0', '0', hex_char(v / 16), hex_char(v % 16)]
    } else {
        seq![c]
    }
}

/// The characters of `s`, each written as [`json_char_escape`] writes it.
pub open spec fn json_escaped(s: Seq<char>) -> Seq<char>
    decreases s.len(),
{
    if s.len() == 0 {
        Seq::empty()
    } else {
        json_escaped(s.drop_last()) + json_char_escape(s.last())
    }
}

/// The bytes of the JSON string literal `serde_json` writes for `s`: the
/// escaped characters between double quotes, in UTF-8.
pub open spec fn json_string(s: Seq<char>) -> Seq<u8> {
    encode_utf8(seq!['"'] + json_escaped(s) + seq!['"'])
}

/// Whether `bytes` holds exactly one JSON value (surrounding white space
/// aside), as `serde_json` accepts it.
pub uninterp spec fn json_well_formed(bytes: Seq<u8>) -> bool;

/// The views of a list of string pairs.
pub open spec fn members_view(m: Seq<(String, String)>) -> Seq<(Seq<char>, Seq<char>)> {
    m.map_values(|p: (String, String)| (p.0@, p.1@))
}

/// `serde_json::from_slice` into a `BTreeMap<String, Box<RawValue>>`,
/// each value taken as its raw JSON text; the contract names the result
/// `json_members`.
#[verifier::external_body]
pub(crate) fn read_json_members(bytes: &[u8]) -> (r: Option<Vec<(String, String)>>)
    ensures
        r is Some <==> json_members(bytes@) is Some,
        r matches Some(m) ==> members_view(m@) == json_members(bytes@)->0,
{
    match serde_json::from_slice::<BTreeMap<String, Box<RawValue>>>(bytes) {
        Ok(map) => Some(map.into_iter().map(|(k, v)| (k, String::from(v.get()))).collect()),
        Err(_) => None,
    }
}

/// `serde_json::from_slice` into a `Vec<Box<RawValue>>`, each value taken
/// as its raw JSON text; the contract names the result `json_elements`.
#[verifier::external_body]
pub(crate) fn read_json_elements(bytes: &[u8]) -> (r: Option<Vec<String>>)
    ensures
        r is Some <==> json_elements(bytes@) is Some,
        r matches Some(v) ==> v@.map_values(|s: String| s@) == json_elements(bytes@)->0,
{
    match serde_json::from_slice::<Vec<Box<RawValue>>>(bytes) {
        Ok(items) => Some(items.into_iter().map(|v| String::from(v.get())).collect()),
        Err(_) => None,
    }
}

/// `serde_json::from_str::<Option<u16>>`; the contract names the result.
#[verifier::external_body]
pub(crate) fn read_json_opt_u16(text: &str) -> (r: Option<Option<u16>>)
    ensures
        r == json_opt_u16(text@),
{
    serde_json::from_str::<Option<u16>>(text).ok()
}

/// `serde_json::from_str::<Option<String>>`; the contract names the
/// result.
#[verifier::external_body]
pub(crate) fn read_json_opt_string(text: &str) -> (r: Option<Option<String>>)
    ensures
        r is Some <==> json_opt_string(text@) is Some,
        r matches Some(Some(s)) ==> json_opt_string(text@) == Some(Some(s@)),
        r matches Some(None) ==> json_opt_string(text@) == Some(None::<Seq<char>>),
{
    serde_json::from_str::<Option<String>>(text).ok()
}

/// `serde_json::to_vec` of a string: its JSON string literal, as
/// [`json_string`] states it (serde_json's `format_escaped_str`). Writing
/// a string into a `Vec` cannot fail in `serde_json` (the writer is
/// infallible and strings always serialize), which the contract states.
#[verifier::external_body]
pub(crate) fn write_json_string(s: &str) -> (r: Result<Vec<u8>, serde_json::Error>)
    ensures
        r is Ok,
        r matches Ok(b) ==> b@ == json_string(s@),
{
    serde_json::to_vec(s)
}

/// `serde_json::from_slice::<serde::de::IgnoredAny>`: checks that the
/// bytes hold one JSON value; the contract names the outcome.
#[verifier::external_body]
pub(crate) fn check_json(bytes: &[u8]) -> (r: Result<(), serde_json::Error>)
    ensures
        r is Ok <==> json_well_formed(bytes@),
{
    match serde_json::from_slice::<serde::de::IgnoredAny>(bytes) {
        Ok(_) => Ok(()),
        Err(err) => Err(err),
    }
}

/// What `serde_json` reads from `bytes` as a `String`: the value of one
/// JSON string literal, escapes undone; `None` otherwise.
pub uninterp spec fn json_string_value(bytes: Seq<u8>) -> Option<Seq<char>>;

/// `serde_json::from_slice::<String>`; the contract names the result.
#[verifier::external_body]
pub(crate) fn read_json_string_value(bytes: &[u8]) -> (r: Option<String>)
    ensures
        r is Some <==> json_string_value(bytes@) is Some,
        r matches Some(v) ==> json_string_value(bytes@) == Some(v@),
{
    serde_json::from_slice::<String>(bytes).ok()
}

/// Where a scan for the member names of a JSON object stands: nesting
/// depth, whether it is inside a string (and after a backslash in it),
/// whether a member name may come next, whether the string it is in is a
/// member name (and where that name started), whether the text opened
/// with an object, and the spans found so far.
pub struct KeyScanView {
    pub depth: int,
    pub in_str: bool,
    pub esc: bool,
    pub expect_key: bool,
    pub in_key: bool,
    pub object: bool,
    pub start: int,
    pub spans: Seq<(int, int)>,
}

/// The scan before any byte.
pub open spec fn key_scan_start() -> KeyScanView {
    KeyScanView {
        depth: 0,
        in_str: false,
        esc: false,
        expect_key: false,
        in_key: false,
        object: false,
        start: 0,
        spans: Seq::empty(),
    }
}

/// The scan after the byte `c`, found at position `i`: a name is a string
/// that opens, directly inside the outermost object, at its start or
/// after a comma; its span runs from after its opening quote to its
/// closing quote.
pub open spec fn key_scan_step(s: KeyScanView, c: u8, i: int) -> KeyScanView {
    if s.in_str {
        if s.esc {
            KeyScanView { esc: false, ..s }
        } else if c == 0x5C {
            KeyScanView { esc: true, ..s }
        } else if c == 0x22 {
            if s.in_key {
                KeyScanView { in_str: false, in_key: false, spans: s.spans.push((s.start, i)), ..s }
            } else {
                KeyScanView { in_str: false, ..s }
            }
        } else {
            s
        }
    } else if c == 0x22 {
        if s.depth == 1 && s.object && s.expect_key {
            KeyScanView { in_str: true, in_key: true, start: i + 1, expect_key: false, ..s }
        } else {
            KeyScanView { in_str: true, ..s }
        }
    } else if c == 0x7B || c == 0x5B {
        KeyScanView {
            depth: s.depth + 1,
            object: if s.depth == 0 { c == 0x7B } else { s.object },
            expect_key: if s.depth == 0 { c == 0x7B } else { s.expect_key },
            ..s
        }
    } else if c == 0x7D || c == 0x5D {
        KeyScanView { depth: if s.depth > 0 { s.depth - 1 } else { 0 }, ..s }
    } else if c == 0x2C && s.depth == 1 && s.object {
        KeyScanView { expect_key: true, ..s }
    } else {
        s
    }
}

/// The scan after the bytes.
pub open spec fn key_scan(bytes: Seq<u8>) -> KeyScanView
    decreases bytes.len(),
{
    if bytes.len() == 0 {
        key_scan_start()
    } else {
        key_scan_step(key_scan(bytes.drop_last()), bytes.last(), bytes.len() - 1)
    }
}

/// The member names of the outermost object in `bytes`, in order, each
/// as its JSON string literal (quotes included), repeats kept.
pub open spec fn object_keys(bytes: Seq<u8>) -> Seq<Seq<u8>> {
    key_scan(bytes).spans.map_values(|p: (int, int)| bytes.subrange(p.0 - 1, p.1 + 1))
}

/// How many of the literals read as the string `name`.
pub open spec fn name_count(keys: Seq<Seq<u8>>, name: Seq<char>) -> nat
    decreases keys.len(),
{
    if keys.len() == 0 {
        0
    } else {
        name_count(keys.drop_last(), name) + if json_string_value(keys.last()) == Some(name) {
            1nat
        } else {
            0nat
        }
    }
}

/// How many members of the outermost object in `bytes` are named `name`.
pub open spec fn key_count(bytes: Seq<u8>, name: Seq<char>) -> nat {
    name_count(object_keys(bytes), name)
}

struct KeyScan {
    depth: usize,
    in_str: bool,
    esc: bool,
    expect_key: bool,
    in_key: bool,
    object: bool,
    start: usize,
    spans: Vec<(usize, usize)>,
}

impl View for KeyScan {
    type V = KeyScanView;

    closed spec fn view(&self) -> KeyScanView {
        KeyScanView {
            depth: self.depth as int,
            in_str: self.in_str,
            esc: self.esc,
            expect_key: self.expect_key,
            in_key: self.in_key,
            object: self.object,
            start: self.start as int,
            spans: self.spans@.map_values(|p: (usize, usize)| (p.0 as int, p.1 as int)),
        }
    }
}

impl KeyScan {
    /// The spans lie in the first `n` bytes, after their opening quote.
    closed spec fn bounded(&self, n: int) -> bool {
        &&& self.depth <= n
        &&& self.in_key ==> 1 <= self.start <= n
        &&& forall|k: int|
            0 <= k < self.spans@.len() ==> 1 <= (#[trigger] self.spans@[k]).0 <= self.spans@[k].1 < n
    }

    fn step(&mut self, c: u8, i: usize)
        requires
            old(self).bounded(i as int),
            i < usize::MAX,
        ensures
            final(self)@ == key_scan_step(old(self)@, c, i as int),
            final(self).bounded(i + 1),
    {
        let ghost before = self@;
        if self.in_str {
            if self.esc {
                self.esc = false;
            } else if c == 0x5C {
                self.esc = true;
            } else if c == 0x22 {
                self.in_str = false;
                if self.in_key {
                    self.in_key = false;
                    self.spans.push((self.start, i));
                    assert(self@.spans =~= before.spans.push((before.start, i as int)));
                }
            }
        } else if c == 0x22 {
            self.in_str = true;
            if self.depth == 1 && self.object && self.expect_key {
                self.in_key = true;
                self.start = i + 1;
                self.expect_key = false;
            }
        } else if c == 0x7B || c == 0x5B {
            if self.depth == 0 {
                self.object = c == 0x7B;
                self.expect_key = c == 0x7B;
            }
            self.depth = self.depth + 1;
        } else if c == 0x7D || c == 0x5D {
            if self.depth > 0 {
                self.depth = self.depth - 1;
            }
        } else if c == 0x2C && self.depth == 1 && self.object {
            self.expect_key = true;
        }
        assert(self@ =~= key_scan_step(before, c, i as int));
    }
}

/// Returns how many members of the outermost object in `bytes` are named
/// `name`.
pub fn count_key(bytes: &[u8], name: &str) -> (r: usize)
    ensures
        r == key_count(bytes@, name@),
{
    let mut scan = KeyScan {
        depth: 0,
        in_str: false,
        esc: false,
        expect_key: false,
        in_key: false,
        object: false,
        start: 0,
        spans: Vec::new(),
    };
    assert(scan@.spans =~= Seq::<(int, int)>::empty());
    assert(scan@ =~= key_scan_start());
    let mut i: usize = 0;
    while i < bytes.len()
        invariant
            i <= bytes@.len(),
            scan@ == key_scan(bytes@.subrange(0, i as int)),
            scan.bounded(i as int),
        decreases bytes@.len() - i,
    {
        let ghost prefix = bytes@.subrange(0, i + 1);
        assert(prefix.drop_last() =~= bytes@.subrange(0, i as int));
        scan.step(bytes[i], i);
        i = i + 1;
    }
    assert(bytes@.subrange(0, bytes@.len() as int) =~= bytes@);
    let ghost keys = object_keys(bytes@);
    let mut count: usize = 0;
    let mut k: usize = 0;
    while k < scan.spans.len()
        invariant
            k <= scan.spans@.len(),
            scan@ == key_scan(bytes@),
            scan.bounded(bytes@.len() as int),
            keys == object_keys(bytes@),
            keys.len() == scan.spans@.len(),
            count <= k,
            count == name_count(keys.subrange(0, k as int), name@),
        decreases scan.spans@.len() - k,
    {
        let (a, b) = scan.spans[k];
        assert((a, b) == scan.spans@[k as int]);
        assert(1 <= a <= b < bytes@.len());
        assert(b < bytes.len());
        let literal = vstd::slice::slice_subrange(bytes, a - 1, b + 1);
        assert(literal@ == keys[k as int]);
        assert(keys.subrange(0, k + 1).drop_last() =~= keys.subrange(0, k as int));
        match read_json_string_value(literal) {
            Some(v) => {
                if str_eq(v.as_str(), name) {
                    count = count + 1;
                }
            },
            None => {},
        }
        k = k + 1;
    }
    assert(keys.subrange(0, keys.len() as int) =~= keys);
    count
}

/// The value of the first member named `key`.
pub open spec fn member(m: Seq<(Seq<char>, Seq<char>)>, key: Seq<char>) -> Option<Seq<char>>
    decreases m.len(),
{
    if m.len() == 0 {
        None
    } else if m[0].0 == key {
        Some(m[0].1)
    } else {
        member(m.drop_first(), key)
    }
}

/// Returns the value text of the first member named `key`.
pub fn find_member<'a>(m: &'a Vec<(String, String)>, key: &str) -> (r: Option<&'a String>)
    ensures
        match r {
            Some(v) => member(members_view(m@), key@) == Some(v@),
            None => member(members_view(m@), key@) is None,
        },
{
    let mut i: usize = 0;
    assert(members_view(m@).subrange(0, m@.len() as int) =~= members_view(m@));
    while i < m.len()
        invariant
            i <= m.len(),
            member(members_view(m@), key@) == member(members_view(m@).subrange(i as int, m@.len() as int), key@),
        decreases m.len() - i,
    {
        let ghost rest = members_view(m@).subrange(i as int, m@.len() as int);
        assert(rest[0] == (m@[i as int].0@, m@[i as int].1@));
        if str_eq(m[i].0.as_str(), key) {
            return Some(&m[i].1);
        }
        assert(rest.drop_first() =~= members_view(m@).subrange(i + 1, m@.len() as int));
        i = i + 1;
    }
    None
}

/// Returns whether the two strings hold the same characters.
pub fn str_eq(a: &str, b: &str) -> (r: bool)
    ensures
        r == (a@ == b@),
{
    let n = a.unicode_len();
    if n != b.unicode_len() {
        return false;
    }
    let mut i: usize = 0;
    while i < n
        invariant
            n == a@.len(),
            n == b@.len(),
            i <= n,
            forall|k: int| 0 <= k < i ==> a@[k] == b@[k],
        decreases n - i,
    {
        if a.get_char(i) != b.get_char(i) {
            return false;
        }
        i = i + 1;
    }
    assert(a@ =~= b@);
    true
}

} // verus!
