//! Building blocks of request URLs and JSON request bodies: decimal
//! numerals, query pairs, and the JSON framing (objects, arrays,
//! members) around the strings `serde_json` escapes.

use crate::json::json_string;
use crate::json::write_json_string;
use vstd::prelude::*;
use vstd::utf8::encode_utf8;

verus! {

/// The numeral of one decimal digit.
pub open spec fn digit(d: nat) -> Seq<char> {
    if d == 0 {
        "0"@
    } else if d == 1 {
        "1"@
    } else if d == 2 {
        "2"@
    } else if d == 3 {
        "3"@
    } else if d == 4 {
        "4"@
    } else if d == 5 {
        "5"@
    } else if d == 6 {
        "6"@
    } else if d == 7 {
        "7"@
    } else if d == 8 {
        "8"@
    } else {
        "9"@
    }
}

/// The decimal numeral of `n`, without sign or leading zeros.
pub open spec fn decimal(n: nat) -> Seq<char>
    decreases n,
{
    if n < 10 {
        digit(n)
    } else {
        decimal(n / 10) + digit(n % 10)
    }
}

fn digit_string(d: u64) -> (r: String)
    requires
        d < 10,
    ensures
        r@ == digit(d as nat),
{
    if d == 0 {
        "0".to_string()
    } else if d == 1 {
        "1".to_string()
    } else if d == 2 {
        "2".to_string()
    } else if d == 3 {
        "3".to_string()
    } else if d == 4 {
        "4".to_string()
    } else if d == 5 {
        "5".to_string()
    } else if d == 6 {
        "6".to_string()
    } else if d == 7 {
        "7".to_string()
    } else if d == 8 {
        "8".to_string()
    } else {
        "9".to_string()
    }
}

/// Writes the decimal numeral of `n`.
pub fn decimal_string(n: u64) -> (r: String)
    ensures
        r@ == decimal(n as nat),
    decreases n,
{
    if n < 10 {
        digit_string(n)
    } else {
        let mut r = decimal_string(n / 10);
        let d = digit_string(n % 10);
        r.append(d.as_str());
        r
    }
}

/// The views of a list of byte vectors.
pub open spec fn chunks_view(v: Seq<Vec<u8>>) -> Seq<Seq<u8>> {
    v.map_values(|b: Vec<u8>| b@)
}

/// The byte sequences separated by commas.
pub open spec fn join_commas(items: Seq<Seq<u8>>) -> Seq<u8>
    decreases items.len(),
{
    if items.len() == 0 {
        Seq::empty()
    } else if items.len() == 1 {
        items[0]
    } else {
        join_commas(items.drop_last()) + encode_utf8(","@) + items.last()
    }
}

/// A JSON object made of the given encoded members.
pub open spec fn json_object(members: Seq<Seq<u8>>) -> Seq<u8> {
    encode_utf8("{"@) + join_commas(members) + encode_utf8("}"@)
}

/// A JSON array made of the given encoded items.
pub open spec fn json_array(items: Seq<Seq<u8>>) -> Seq<u8> {
    encode_utf8("["@) + join_commas(items) + encode_utf8("]"@)
}

/// An encoded object member: the key as a JSON string, a colon, the
/// encoded value.
pub open spec fn json_member(key: Seq<char>, value: Seq<u8>) -> Seq<u8> {
    json_string(key) + encode_utf8(":"@) + value
}

/// A JSON number for a non-negative integer.
pub open spec fn json_number(n: nat) -> Seq<u8> {
    encode_utf8(decimal(n))
}

/// The JSON literal `null`.
pub open spec fn json_null() -> Seq<u8> {
    encode_utf8("null"@)
}

fn push_str(out: &mut Vec<u8>, s: &str)
    ensures
        final(out)@ == old(out)@ + encode_utf8(s@),
{
    out.extend_from_slice(s.as_bytes());
}

fn join_into(out: &mut Vec<u8>, items: &Vec<Vec<u8>>)
    ensures
        final(out)@ == old(out)@ + join_commas(chunks_view(items@)),
{
    let ghost start = out@;
    let mut i: usize = 0;
    while i < items.len()
        invariant
            i <= items.len(),
            out@ == start + join_commas(chunks_view(items@).subrange(0, i as int)),
        decreases items.len() - i,
    {
        let ghost before = chunks_view(items@).subrange(0, i as int);
        let ghost after = chunks_view(items@).subrange(0, i + 1);
        assert(after.drop_last() =~= before);
        if i > 0 {
            push_str(out, ",");
        }
        out.extend_from_slice(items[i].as_slice());
        proof {
            if i == 0 {
                assert(join_commas(before) =~= Seq::<u8>::empty());
                assert(join_commas(after) == after[0]);
            }
        }
        assert(out@ =~= start + join_commas(after));
        i = i + 1;
    }
    assert(chunks_view(items@).subrange(0, items@.len() as int) =~= chunks_view(items@));
}

/// Writes a JSON object made of the given encoded members.
pub fn object(members: &Vec<Vec<u8>>) -> (r: Vec<u8>)
    ensures
        r@ == json_object(chunks_view(members@)),
{
    let mut out: Vec<u8> = Vec::new();
    push_str(&mut out, "{");
    join_into(&mut out, members);
    push_str(&mut out, "}");
    assert(out@ =~= json_object(chunks_view(members@)));
    out
}

/// Writes a JSON array made of the given encoded items.
pub fn array(items: &Vec<Vec<u8>>) -> (r: Vec<u8>)
    ensures
        r@ == json_array(chunks_view(items@)),
{
    let mut out: Vec<u8> = Vec::new();
    push_str(&mut out, "[");
    join_into(&mut out, items);
    push_str(&mut out, "]");
    assert(out@ =~= json_array(chunks_view(items@)));
    out
}

/// Writes a JSON string literal.
pub fn string(s: &str) -> (r: Vec<u8>)
    ensures
        r@ == json_string(s@),
{
    match write_json_string(s) {
        Ok(bytes) => bytes,
        Err(_) => {
            assert(false);
            Vec::new()
        },
    }
}

/// Writes an object member with the given key and encoded value.
pub fn member(key: &str, value: Vec<u8>) -> (r: Vec<u8>)
    ensures
        r@ == json_member(key@, value@),
{
    let mut out = string(key);
    push_str(&mut out, ":");
    out.extend_from_slice(value.as_slice());
    assert(out@ =~= json_member(key@, value@));
    out
}

/// Writes a JSON number.
pub fn number(n: u64) -> (r: Vec<u8>)
    ensures
        r@ == json_number(n as nat),
{
    let d = decimal_string(n);
    let mut out: Vec<u8> = Vec::new();
    push_str(&mut out, d.as_str());
    assert(out@ =~= json_number(n as nat));
    out
}

/// Writes the JSON literal `null`.
pub fn null() -> (r: Vec<u8>)
    ensures
        r@ == json_null(),
{
    let mut out: Vec<u8> = Vec::new();
    push_str(&mut out, "null");
    assert(out@ =~= json_null());
    out
}

/// The views of a list of string pairs (query pairs, headers).
pub open spec fn pairs_view(pairs: Seq<(String, String)>) -> Seq<(Seq<char>, Seq<char>)> {
    pairs.map_values(|p: (String, String)| (p.0@, p.1@))
}

/// The pair `(name, value)` when the value is present, nothing otherwise.
pub open spec fn optional_pair<V>(name: Seq<char>, value: Option<V>) -> Seq<(Seq<char>, V)> {
    match value {
        Some(v) => seq![(name, v)],
        None => Seq::empty(),
    }
}

/// One pair `(name, value)` per value, in order (the repeated-key form
/// of a list).
pub open spec fn repeated_pairs(name: Seq<char>, values: Seq<Seq<char>>) -> Seq<(Seq<char>, Seq<char>)> {
    values.map_values(|v: Seq<char>| (name, v))
}

/// The values paired with `name`, in order: what a reader of the query
/// (or of the object, for JSON members) finds under that name.
pub open spec fn values_named<V>(pairs: Seq<(Seq<char>, V)>, name: Seq<char>) -> Seq<V>
    decreases pairs.len(),
{
    if pairs.len() == 0 {
        Seq::empty()
    } else if pairs.last().0 == name {
        values_named(pairs.drop_last(), name).push(pairs.last().1)
    } else {
        values_named(pairs.drop_last(), name)
    }
}

/// The values found under a name in two lists one after the other are
/// those found in the first, then those found in the second.
pub proof fn lemma_values_named_add<V>(a: Seq<(Seq<char>, V)>, b: Seq<(Seq<char>, V)>, name: Seq<char>)
    ensures
        values_named(a + b, name) == values_named(a, name) + values_named(b, name),
    decreases b.len(),
{
    if b.len() == 0 {
        assert(a + b =~= a);
        assert(values_named(a, name) + values_named(b, name) =~= values_named(a, name));
    } else {
        lemma_values_named_add(a, b.drop_last(), name);
        assert((a + b).drop_last() =~= a + b.drop_last());
        assert((a + b).last() == b.last());
        if b.last().0 == name {
            assert(values_named(a, name) + values_named(b, name) =~= (values_named(a, name)
                + values_named(b.drop_last(), name)).push(b.last().1));
        }
    }
}

/// An optional pair holds its value under its own name, when present,
/// and nothing under any other name.
pub proof fn lemma_values_named_optional<V>(key: Seq<char>, value: Option<V>, name: Seq<char>)
    ensures
        values_named(optional_pair(key, value), name) == if key == name {
            match value {
                Some(v) => seq![v],
                None => Seq::<V>::empty(),
            }
        } else {
            Seq::<V>::empty()
        },
{
    if let Some(v) = value {
        assert(optional_pair(key, value).drop_last() =~= Seq::<(Seq<char>, V)>::empty());
        assert(values_named(Seq::<(Seq<char>, V)>::empty(), name) == Seq::<V>::empty());
        assert(Seq::<V>::empty().push(v) =~= seq![v]);
        assert(optional_pair(key, value).last() == (key, v));
    }
}

/// Repeated pairs hold all their values, in order, under their name, and
/// nothing under any other name.
pub proof fn lemma_values_named_repeated(key: Seq<char>, values: Seq<Seq<char>>, name: Seq<char>)
    ensures
        values_named(repeated_pairs(key, values), name) == if key == name {
            values
        } else {
            Seq::<Seq<char>>::empty()
        },
    decreases values.len(),
{
    if values.len() > 0 {
        lemma_values_named_repeated(key, values.drop_last(), name);
        assert(repeated_pairs(key, values).drop_last() =~= repeated_pairs(key, values.drop_last()));
        assert(values.drop_last().push(values.last()) =~= values);
    } else {
        assert(repeated_pairs(key, values) =~= Seq::<(Seq<char>, Seq<char>)>::empty());
    }
}

/// The encoded members of the fields, each a key and its encoded value.
pub open spec fn field_members(fields: Seq<(Seq<char>, Seq<u8>)>) -> Seq<Seq<u8>> {
    fields.map_values(|f: (Seq<char>, Seq<u8>)| json_member(f.0, f.1))
}

/// The JSON object whose members are the fields, in order.
pub open spec fn fields_json(fields: Seq<(Seq<char>, Seq<u8>)>) -> Seq<u8> {
    json_object(field_members(fields))
}

/// The members of two lists of fields one after the other.
pub proof fn lemma_field_members_add(a: Seq<(Seq<char>, Seq<u8>)>, b: Seq<(Seq<char>, Seq<u8>)>)
    ensures
        field_members(a + b) == field_members(a) + field_members(b),
{
    assert(field_members(a + b) =~= field_members(a) + field_members(b));
}

/// The member of an optional field, when present.
pub proof fn lemma_field_members_optional(key: Seq<char>, value: Option<Seq<u8>>)
    ensures
        field_members(optional_pair(key, value)) == match value {
            Some(v) => seq![json_member(key, v)],
            None => Seq::<Seq<u8>>::empty(),
        },
{
    assert(field_members(optional_pair(key, value)) =~= match value {
        Some(v) => seq![json_member(key, v)],
        None => Seq::<Seq<u8>>::empty(),
    });
}

/// Appends the pair `(name, value)`.
pub fn push_pair(pairs: &mut Vec<(String, String)>, name: &str, value: &str)
    ensures
        pairs_view(final(pairs)@) == pairs_view(old(pairs)@) + seq![(name@, value@)],
{
    pairs.push((name.to_string(), value.to_string()));
    assert(pairs_view(pairs@) =~= pairs_view(old(pairs)@) + seq![(name@, value@)]);
}

} // verus!
