//! An owned JSON document model and its serialization to bytes.
//!
//! The FCM v1 endpoint speaks JSON in both directions.  Outbound, the
//! message types of this crate are lowered into [`JsonValue`] trees and
//! then serialized by [`JsonValue::to_bytes`]; the exact byte sequence is
//! pinned down by the spec function [`json_bytes`].  Inbound, the caller
//! converts a response body into a [`JsonValue`] tree and the response
//! classifier reads it through the lookup functions defined here.

use vstd::prelude::*;

verus! {

use vstd::string::StringSliceAdditionalSpecFns;

/// Mathematical model of a JSON value.
///
/// Strings are sequences of characters; numbers are kept as their decimal
/// source text, so that the model never holds a floating-point value.
pub enum JsonData {
    Null,
    Bool(bool),
    Num(Seq<char>),
    Str(Seq<char>),
    Arr(Seq<JsonData>),
    Obj(Seq<(Seq<char>, JsonData)>),
}

/// An owned JSON value.
///
/// Object members keep their insertion order; duplicate keys are not
/// rejected, and lookups return the first match, as the endpoint's
/// responses never repeat a key.  A number is stored as its decimal
/// source text (for example `"12"` or `"0.5"`).
#[derive(Debug)]
pub enum JsonValue {
    Null,
    Bool(bool),
    Num(String),
    Str(String),
    Arr(Vec<JsonValue>),
    Obj(Vec<(String, JsonValue)>),
}

impl JsonValue {
    /// The mathematical value this tree represents.
    pub open spec fn deep(self) -> JsonData
        decreases self,
    {
        match self {
            JsonValue::Null => JsonData::Null,
            JsonValue::Bool(b) => JsonData::Bool(b),
            JsonValue::Num(s) => JsonData::Num(s@),
            JsonValue::Str(s) => JsonData::Str(s@),
            JsonValue::Arr(items) => JsonData::Arr(deep_seq(items@)),
            JsonValue::Obj(entries) => JsonData::Obj(deep_entries(entries@)),
        }
    }
}

/// The mathematical values of a sequence of JSON trees, in order.
pub open spec fn deep_seq(items: Seq<JsonValue>) -> Seq<JsonData>
    decreases items,
{
    if items.len() == 0 {
        Seq::empty()
    } else {
        deep_seq(items.drop_last()).push(items.last().deep())
    }
}

/// The mathematical values of a sequence of JSON object members, in order.
pub open spec fn deep_entries(entries: Seq<(String, JsonValue)>) -> Seq<(Seq<char>, JsonData)>
    decreases entries,
{
    if entries.len() == 0 {
        Seq::empty()
    } else {
        deep_entries(entries.drop_last()).push((entries.last().0@, entries.last().1.deep()))
    }
}

/// A lower-case hexadecimal digit, for `\u00..` escapes.
pub open spec fn hex_digit(n: u8) -> u8 {
    if n < 10 {
        (0x30 + n) as u8
    } else {
        (0x61 + (n - 10)) as u8
    }
}

/// The escape of one byte of JSON string content.
///
/// The quote, the backslash and the control bytes are escaped; every
/// other byte (including UTF-8 continuation bytes) passes through.
pub open spec fn esc_byte(b: u8) -> Seq<u8> {
    if b == 0x22 {
        seq![0x5cu8, 0x22u8]
    } else if b == 0x5c {
        seq![0x5cu8, 0x5cu8]
    } else if b == 0x08 {
        seq![0x5cu8, 0x62u8]
    } else if b == 0x09 {
        seq![0x5cu8, 0x74u8]
    } else if b == 0x0a {
        seq![0x5cu8, 0x6eu8]
    } else if b == 0x0c {
        seq![0x5cu8, 0x66u8]
    } else if b == 0x0d {
        seq![0x5cu8, 0x72u8]
    } else if b < 0x20 {
        seq![0x5cu8, 0x75u8, 0x30u8, 0x30u8, hex_digit(b / 16), hex_digit(b % 16)]
    } else {
        seq![b]
    }
}

/// The escape of a whole byte sequence of JSON string content.
pub open spec fn esc_bytes(s: Seq<u8>) -> Seq<u8>
    decreases s,
{
    if s.len() == 0 {
        Seq::empty()
    } else {
        esc_bytes(s.drop_last()) + esc_byte(s.last())
    }
}

/// A JSON string literal: the escaped UTF-8 bytes between double quotes.
pub open spec fn str_bytes(s: Seq<char>) -> Seq<u8> {
    seq![0x22u8] + esc_bytes(vstd::utf8::encode_utf8(s)) + seq![0x22u8]
}

/// The serialization of a JSON value, with no whitespace between tokens.
pub open spec fn json_bytes(v: JsonData) -> Seq<u8>
    decreases v,
{
    match v {
        JsonData::Null => seq![0x6eu8, 0x75u8, 0x6cu8, 0x6cu8],
        JsonData::Bool(b) => if b {
            seq![0x74u8, 0x72u8, 0x75u8, 0x65u8]
        } else {
            seq![0x66u8, 0x61u8, 0x6cu8, 0x73u8, 0x65u8]
        },
        JsonData::Num(s) => vstd::utf8::encode_utf8(s),
        JsonData::Str(s) => str_bytes(s),
        JsonData::Arr(items) => seq![0x5bu8] + arr_bytes(items) + seq![0x5du8],
        JsonData::Obj(entries) => seq![0x7bu8] + obj_bytes(entries) + seq![0x7du8],
    }
}

/// The comma-separated serializations of the elements of an array.
pub open spec fn arr_bytes(items: Seq<JsonData>) -> Seq<u8>
    decreases items,
{
    if items.len() == 0 {
        Seq::empty()
    } else if items.len() == 1 {
        json_bytes(items[0])
    } else {
        arr_bytes(items.drop_last()) + seq![0x2cu8] + json_bytes(items.last())
    }
}

/// The serialization of one object member: key, colon, value.
pub open spec fn member_bytes(e: (Seq<char>, JsonData)) -> Seq<u8>
    decreases e,
{
    str_bytes(e.0) + seq![0x3au8] + json_bytes(e.1)
}

/// The comma-separated serializations of the members of an object.
pub open spec fn obj_bytes(entries: Seq<(Seq<char>, JsonData)>) -> Seq<u8>
    decreases entries,
{
    if entries.len() == 0 {
        Seq::empty()
    } else if entries.len() == 1 {
        member_bytes(entries[0])
    } else {
        obj_bytes(entries.drop_last()) + seq![0x2cu8] + member_bytes(entries.last())
    }
}

/// A lower-case hexadecimal digit as a byte.
fn hex_char(n: u8) -> (r: u8)
    requires
        n < 16,
    ensures
        r == hex_digit(n),
{
    if n < 10 {
        0x30 + n
    } else {
        0x61 + (n - 10)
    }
}

/// Appends a byte slice to the output unchanged.
fn push_bytes(out: &mut Vec<u8>, bs: &[u8])
    ensures
        final(out)@ == old(out)@ + bs@,
{
    let mut i: usize = 0;
    while i < bs.len()
        invariant
            i <= bs.len(),
            out@ == old(out)@ + bs@.take(i as int),
        decreases bs.len() - i,
    {
        out.push(bs[i]);
        proof {
            assert(bs@.take(i as int + 1) =~= bs@.take(i as int).push(bs@[i as int]));
        }
        i += 1;
    }
    proof {
        assert(bs@.take(bs@.len() as int) =~= bs@);
    }
}

/// Appends the escaped UTF-8 bytes of `s` to the output.
fn push_escaped(out: &mut Vec<u8>, s: &str)
    ensures
        final(out)@ == old(out)@ + esc_bytes(s.spec_bytes()),
{
    let bs = s.as_bytes();
    let mut i: usize = 0;
    while i < bs.len()
        invariant
            i <= bs.len(),
            bs@ == s.spec_bytes(),
            out@ == old(out)@ + esc_bytes(bs@.take(i as int)),
        decreases bs.len() - i,
    {
        let b = bs[i];
        if b == 0x22 {
            out.push(0x5c);
            out.push(0x22);
        } else if b == 0x5c {
            out.push(0x5c);
            out.push(0x5c);
        } else if b == 0x08 {
            out.push(0x5c);
            out.push(0x62);
        } else if b == 0x09 {
            out.push(0x5c);
            out.push(0x74);
        } else if b == 0x0a {
            out.push(0x5c);
            out.push(0x6e);
        } else if b == 0x0c {
            out.push(0x5c);
            out.push(0x66);
        } else if b == 0x0d {
            out.push(0x5c);
            out.push(0x72);
        } else if b < 0x20 {
            out.push(0x5c);
            out.push(0x75);
            out.push(0x30);
            out.push(0x30);
            out.push(hex_char(b / 16));
            out.push(hex_char(b % 16));
        } else {
            out.push(b);
        }
        proof {
            assert(bs@.take(i as int + 1).drop_last() =~= bs@.take(i as int));
            assert(bs@.take(i as int + 1).last() == bs@[i as int]);
            assert(out@ == old(out)@ + esc_bytes(bs@.take(i as int + 1)));
        }
        i += 1;
    }
    proof {
        assert(bs@.take(bs@.len() as int) =~= bs@);
    }
}

/// Appends the serialization of `v` to the output.
#[verifier::loop_isolation(false)]
#[verifier::rlimit(50)]
fn write_json(out: &mut Vec<u8>, v: &JsonValue)
    ensures
        final(out)@ == old(out)@ + json_bytes(v.deep()),
    decreases v,
{
    match v {
        JsonValue::Null => {
            out.push(0x6e);
            out.push(0x75);
            out.push(0x6c);
            out.push(0x6c);
        },
        JsonValue::Bool(b) => {
            if *b {
                out.push(0x74);
                out.push(0x72);
                out.push(0x75);
                out.push(0x65);
            } else {
                out.push(0x66);
                out.push(0x61);
                out.push(0x6c);
                out.push(0x73);
                out.push(0x65);
            }
        },
        JsonValue::Num(s) => {
            push_bytes(out, s.as_str().as_bytes());
        },
        JsonValue::Str(s) => {
            out.push(0x22);
            push_escaped(out, s.as_str());
            out.push(0x22);
        },
        JsonValue::Arr(items) => {
            out.push(0x5b);
            let ghost base = out@;
            let mut i: usize = 0;
            while i < items.len()
                invariant
                    i <= items.len(),
                    out@ == base + arr_bytes(deep_seq(items@.take(i as int))),
                decreases items.len() - i,
            {
                if i > 0 {
                    out.push(0x2c);
                }
                proof {
                    assert(decreases_to!(*v => *items));
                    assert(decreases_to!(*items => items@));
                    assert(decreases_to!(items@ => items@[i as int]));
                }
                write_json(out, &items[i]);
                proof {
                    let prev = deep_seq(items@.take(i as int));
                    let cur = deep_seq(items@.take(i as int + 1));
                    assert(items@.take(i as int + 1).drop_last() =~= items@.take(i as int));
                    assert(items@.take(i as int + 1).last() == items@[i as int]);
                    assert(cur == prev.push(items@[i as int].deep()));
                    assert(cur.drop_last() =~= prev);
                    assert(out@ == base + arr_bytes(cur));
                }
                i += 1;
            }
            out.push(0x5d);
            proof {
                assert(items@.take(items@.len() as int) =~= items@);
            }
        },
        JsonValue::Obj(entries) => {
            out.push(0x7b);
            let ghost base = out@;
            let mut i: usize = 0;
            while i < entries.len()
                invariant
                    i <= entries.len(),
                    out@ == base + obj_bytes(deep_entries(entries@.take(i as int))),
                decreases entries.len() - i,
            {
                if i > 0 {
                    out.push(0x2c);
                }
                out.push(0x22);
                push_escaped(out, entries[i].0.as_str());
                out.push(0x22);
                out.push(0x3a);
                proof {
                    assert(decreases_to!(*v => *entries));
                    assert(decreases_to!(*entries => entries@));
                    assert(decreases_to!(entries@ => entries@[i as int]));
                    assert(decreases_to!(entries@[i as int] => entries@[i as int].1));
                }
                write_json(out, &entries[i].1);
                proof {
                    let prev = deep_entries(entries@.take(i as int));
                    let cur = deep_entries(entries@.take(i as int + 1));
                    let key = entries@[i as int].0;
                    let val = entries@[i as int].1;
                    assert(entries@.take(i as int + 1).drop_last() =~= entries@.take(i as int));
                    assert(entries@.take(i as int + 1).last() == entries@[i as int]);
                    assert(cur == prev.push((key@, val.deep())));
                    assert(cur.drop_last() =~= prev);
                    assert(member_bytes((key@, val.deep())) =~= seq![0x22u8] + esc_bytes(
                        vstd::utf8::encode_utf8(key@),
                    ) + seq![0x22u8] + seq![0x3au8] + json_bytes(val.deep()));
                    assert(out@ =~= base + obj_bytes(cur));
                }
                i += 1;
            }
            out.push(0x7d);
            proof {
                assert(entries@.take(entries@.len() as int) =~= entries@);
            }
        },
    }
}

impl JsonValue {
    /// Serializes this value, with no whitespace between tokens.
    pub fn to_bytes(&self) -> (r: Vec<u8>)
        ensures
            r@ == json_bytes(self.deep()),
    {
        let mut out: Vec<u8> = Vec::new();
        write_json(&mut out, self);
        out
    }
}

/// First-match lookup among the members of an object.
pub open spec fn obj_get(entries: Seq<(Seq<char>, JsonData)>, key: Seq<char>) -> Option<JsonData>
    decreases entries,
{
    if entries.len() == 0 {
        None
    } else if entries[0].0 == key {
        Some(entries[0].1)
    } else {
        obj_get(entries.drop_first(), key)
    }
}

impl JsonData {
    /// First-match lookup of a member, when this value is an object.
    pub open spec fn get(self, key: Seq<char>) -> Option<JsonData> {
        match self {
            JsonData::Obj(entries) => obj_get(entries, key),
            _ => None,
        }
    }

    /// The character content, when this value is a string.
    pub open spec fn as_str(self) -> Option<Seq<char>> {
        match self {
            JsonData::Str(s) => Some(s),
            _ => None,
        }
    }
}

/// `deep_entries` keeps the length of the member list.
pub proof fn lemma_deep_entries_len(entries: Seq<(String, JsonValue)>)
    ensures
        deep_entries(entries).len() == entries.len(),
    decreases entries,
{
    if entries.len() > 0 {
        lemma_deep_entries_len(entries.drop_last());
    }
}

/// `deep_entries` maps each member to its key view and deep value.
pub proof fn lemma_deep_entries_index(entries: Seq<(String, JsonValue)>, i: int)
    requires
        0 <= i < entries.len(),
    ensures
        deep_entries(entries).len() == entries.len(),
        deep_entries(entries)[i] == (entries[i].0@, entries[i].1.deep()),
    decreases entries,
{
    lemma_deep_entries_len(entries);
    if i < entries.len() - 1 {
        lemma_deep_entries_index(entries.drop_last(), i);
        assert(entries.drop_last()[i] == entries[i]);
    }
}

impl JsonValue {
    /// Looks up the first member with the given key, if this is an object.
    #[verifier::loop_isolation(false)]
    pub fn get<'a>(&'a self, key: &str) -> (r: Option<&'a JsonValue>)
        ensures
            match r {
                Some(found) => self.deep().get(key@) == Some(found.deep()),
                None => self.deep().get(key@) is None,
            },
    {
        match self {
            JsonValue::Obj(entries) => {
                let wanted = key.to_owned();
                let ghost d = deep_entries(entries@);
                proof {
                    lemma_deep_entries_len(entries@);
                    assert(d.skip(0) =~= d);
                }
                let mut i: usize = 0;
                while i < entries.len()
                    invariant
                        i <= entries.len(),
                        wanted@ == key@,
                        d == deep_entries(entries@),
                        d.len() == entries@.len(),
                        obj_get(d, key@) == obj_get(d.skip(i as int), key@),
                    decreases entries.len() - i,
                {
                    proof {
                        lemma_deep_entries_index(entries@, i as int);
                        assert(d.skip(i as int)[0] == d[i as int]);
                        assert(d.skip(i as int).drop_first() =~= d.skip(i as int + 1));
                    }
                    if entries[i].0 == wanted {
                        proof {
                            assert(self.deep() == JsonData::Obj(d));
                            assert(obj_get(d.skip(i as int), key@) == Some(d[i as int].1));
                        }
                        return Some(&entries[i].1);
                    }
                    proof {
                        assert(entries@[i as int].0@ != key@);
                        assert(obj_get(d.skip(i as int), key@) == obj_get(
                            d.skip(i as int + 1),
                            key@,
                        ));
                    }
                    i += 1;
                }
                proof {
                    assert(d.skip(entries@.len() as int) =~= Seq::<(Seq<char>, JsonData)>::empty());
                }
                None
            },
            _ => None,
        }
    }

    /// Structural copy of this value.
    #[verifier::loop_isolation(false)]
    pub fn duplicate(&self) -> (r: JsonValue)
        ensures
            r.deep() == self.deep(),
        decreases self,
    {
        match self {
            JsonValue::Null => JsonValue::Null,
            JsonValue::Bool(b) => JsonValue::Bool(*b),
            JsonValue::Num(s) => JsonValue::Num(s.clone()),
            JsonValue::Str(s) => JsonValue::Str(s.clone()),
            JsonValue::Arr(items) => {
                let mut copies: Vec<JsonValue> = Vec::new();
                let mut i: usize = 0;
                while i < items.len()
                    invariant
                        i <= items.len(),
                        copies@.len() == i,
                        deep_seq(copies@) == deep_seq(items@.take(i as int)),
                    decreases items.len() - i,
                {
                    proof {
                        assert(decreases_to!(*self => *items));
                        assert(decreases_to!(*items => items@));
                        assert(decreases_to!(items@ => items@[i as int]));
                    }
                    let c = items[i].duplicate();
                    let ghost pre = copies@;
                    copies.push(c);
                    proof {
                        assert(copies@.drop_last() =~= pre);
                        assert(items@.take(i as int + 1).drop_last() =~= items@.take(i as int));
                        assert(items@.take(i as int + 1).last() == items@[i as int]);
                    }
                    i += 1;
                }
                proof {
                    assert(items@.take(items@.len() as int) =~= items@);
                }
                JsonValue::Arr(copies)
            },
            JsonValue::Obj(entries) => {
                let mut copies: Vec<(String, JsonValue)> = Vec::new();
                let mut i: usize = 0;
                while i < entries.len()
                    invariant
                        i <= entries.len(),
                        copies@.len() == i,
                        deep_entries(copies@) == deep_entries(entries@.take(i as int)),
                    decreases entries.len() - i,
                {
                    proof {
                        assert(decreases_to!(*self => *entries));
                        assert(decreases_to!(*entries => entries@));
                        assert(decreases_to!(entries@ => entries@[i as int]));
                        assert(decreases_to!(entries@[i as int] => entries@[i as int].1));
                    }
                    let c = entries[i].1.duplicate();
                    let ghost pre = copies@;
                    copies.push((entries[i].0.clone(), c));
                    proof {
                        assert(copies@.drop_last() =~= pre);
                        assert(entries@.take(i as int + 1).drop_last() =~= entries@.take(i as int));
                        assert(entries@.take(i as int + 1).last() == entries@[i as int]);
                    }
                    i += 1;
                }
                proof {
                    assert(entries@.take(entries@.len() as int) =~= entries@);
                }
                JsonValue::Obj(copies)
            },
        }
    }

    /// Borrows the character content, if this is a string.
    pub fn as_str(&self) -> (r: Option<&String>)
        ensures
            match r {
                Some(s) => self.deep().as_str() == Some(s@),
                None => self.deep().as_str() is None,
            },
    {
        match self {
            JsonValue::Str(s) => Some(s),
            _ => None,
        }
    }
}

/// Zero or one members of an object under construction: nothing for an
/// absent optional field, one member for a present one.
pub open spec fn opt_member(key: Seq<char>, v: Option<JsonData>) -> Seq<(Seq<char>, JsonData)> {
    match v {
        None => Seq::empty(),
        Some(d) => seq![(key, d)],
    }
}

/// The wire datum of an optional string field.
pub open spec fn opt_str_data(v: Option<String>) -> Option<JsonData> {
    match v {
        None => None,
        Some(s) => Some(JsonData::Str(s@)),
    }
}

/// The wire datum of an optional boolean field.
pub open spec fn opt_bool_data(v: Option<bool>) -> Option<JsonData> {
    match v {
        None => None,
        Some(b) => Some(JsonData::Bool(b)),
    }
}

/// The wire datum of an optional signed-count field.
pub open spec fn opt_i32_data(v: Option<i32>) -> Option<JsonData> {
    match v {
        None => None,
        Some(n) => Some(JsonData::Num(crate::numtext::dec_int(n as int))),
    }
}

/// The wire datum of an optional opaque JSON field.
pub open spec fn opt_value_data(v: Option<JsonValue>) -> Option<JsonData> {
    match v {
        None => None,
        Some(j) => Some(j.deep()),
    }
}

/// The wire data of a list of strings, in order.
pub open spec fn str_list_data(items: Seq<String>) -> Seq<JsonData>
    decreases items,
{
    if items.len() == 0 {
        Seq::empty()
    } else {
        str_list_data(items.drop_last()).push(JsonData::Str(items.last()@))
    }
}

/// The wire datum of an optional list-of-strings field.
pub open spec fn opt_str_list_data(v: Option<Vec<String>>) -> Option<JsonData> {
    match v {
        None => None,
        Some(items) => Some(JsonData::Arr(str_list_data(items@))),
    }
}

/// Appends one member to an object under construction.
pub(crate) fn push_member(members: &mut Vec<(String, JsonValue)>, key: &str, v: JsonValue)
    ensures
        deep_entries(final(members)@) == deep_entries(old(members)@).push((key@, v.deep())),
{
    let ghost d = v.deep();
    members.push((key.to_owned(), v));
    proof {
        assert(members@.drop_last() =~= old(members)@);
    }
}

/// Appends a mandatory string member.
pub(crate) fn push_str(members: &mut Vec<(String, JsonValue)>, key: &str, v: &String)
    ensures
        deep_entries(final(members)@) == deep_entries(old(members)@).push(
            (key@, JsonData::Str(v@)),
        ),
{
    push_member(members, key, JsonValue::Str(v.clone()));
}

/// Appends an optional string member; an absent value adds nothing.
pub(crate) fn push_opt_str(members: &mut Vec<(String, JsonValue)>, key: &str, v: &Option<String>)
    ensures
        deep_entries(final(members)@) == deep_entries(old(members)@) + opt_member(
            key@,
            opt_str_data(*v),
        ),
{
    match v {
        Some(s) => {
            push_member(members, key, JsonValue::Str(s.clone()));
            proof {
                assert(deep_entries(members@) =~= deep_entries(old(members)@) + opt_member(
                    key@,
                    opt_str_data(*v),
                ));
            }
        },
        None => {
            proof {
                assert(deep_entries(members@) =~= deep_entries(members@) + Seq::empty());
            }
        },
    }
}

/// Appends an optional boolean member; an absent value adds nothing.
pub(crate) fn push_opt_bool(members: &mut Vec<(String, JsonValue)>, key: &str, v: &Option<bool>)
    ensures
        deep_entries(final(members)@) == deep_entries(old(members)@) + opt_member(
            key@,
            opt_bool_data(*v),
        ),
{
    match v {
        Some(b) => {
            push_member(members, key, JsonValue::Bool(*b));
            proof {
                assert(deep_entries(members@) =~= deep_entries(old(members)@) + opt_member(
                    key@,
                    opt_bool_data(*v),
                ));
            }
        },
        None => {
            proof {
                assert(deep_entries(members@) =~= deep_entries(members@) + Seq::empty());
            }
        },
    }
}

/// Appends an optional signed-count member; an absent value adds nothing.
pub(crate) fn push_opt_i32(members: &mut Vec<(String, JsonValue)>, key: &str, v: &Option<i32>)
    ensures
        deep_entries(final(members)@) == deep_entries(old(members)@) + opt_member(
            key@,
            opt_i32_data(*v),
        ),
{
    match v {
        Some(n) => {
            push_member(members, key, JsonValue::Num(crate::numtext::i32_dec(*n)));
            proof {
                assert(deep_entries(members@) =~= deep_entries(old(members)@) + opt_member(
                    key@,
                    opt_i32_data(*v),
                ));
            }
        },
        None => {
            proof {
                assert(deep_entries(members@) =~= deep_entries(members@) + Seq::empty());
            }
        },
    }
}

/// Appends an optional opaque JSON member; an absent value adds nothing.
pub(crate) fn push_opt_value(
    members: &mut Vec<(String, JsonValue)>,
    key: &str,
    v: &Option<JsonValue>,
)
    ensures
        deep_entries(final(members)@) == deep_entries(old(members)@) + opt_member(
            key@,
            opt_value_data(*v),
        ),
{
    match v {
        Some(j) => {
            push_member(members, key, j.duplicate());
            proof {
                assert(deep_entries(members@) =~= deep_entries(old(members)@) + opt_member(
                    key@,
                    opt_value_data(*v),
                ));
            }
        },
        None => {
            proof {
                assert(deep_entries(members@) =~= deep_entries(members@) + Seq::empty());
            }
        },
    }
}

/// Builds the JSON array of a list of strings.
#[verifier::loop_isolation(false)]
pub(crate) fn str_list_json(items: &Vec<String>) -> (r: JsonValue)
    ensures
        r.deep() == JsonData::Arr(str_list_data(items@)),
{
    let mut out: Vec<JsonValue> = Vec::new();
    let mut i: usize = 0;
    while i < items.len()
        invariant
            i <= items.len(),
            out@.len() == i,
            deep_seq(out@) == str_list_data(items@.take(i as int)),
        decreases items.len() - i,
    {
        let c = items[i].clone();
        let ghost cs = c@;
        let ghost pre = out@;
        out.push(JsonValue::Str(c));
        proof {
            assert(cs == items@[i as int]@);
            assert(out@.drop_last() =~= pre);
            assert(out@.last().deep() == JsonData::Str(cs));
            assert(deep_seq(out@) == deep_seq(pre).push(JsonData::Str(cs)));
            assert(items@.take(i as int + 1).drop_last() =~= items@.take(i as int));
            assert(items@.take(i as int + 1).last() == items@[i as int]);
            assert(str_list_data(items@.take(i as int + 1)) == str_list_data(
                items@.take(i as int),
            ).push(JsonData::Str(items@[i as int]@)));
        }
        i += 1;
    }
    proof {
        assert(items@.take(items@.len() as int) =~= items@);
    }
    JsonValue::Arr(out)
}

/// Appends an optional list-of-strings member; an absent value adds
/// nothing.
pub(crate) fn push_opt_str_list(
    members: &mut Vec<(String, JsonValue)>,
    key: &str,
    v: &Option<Vec<String>>,
)
    ensures
        deep_entries(final(members)@) == deep_entries(old(members)@) + opt_member(
            key@,
            opt_str_list_data(*v),
        ),
{
    match v {
        Some(items) => {
            push_member(members, key, str_list_json(items));
            proof {
                assert(deep_entries(members@) =~= deep_entries(old(members)@) + opt_member(
                    key@,
                    opt_str_list_data(*v),
                ));
            }
        },
        None => {
            proof {
                assert(deep_entries(members@) =~= deep_entries(members@) + Seq::empty());
            }
        },
    }
}

} // verus!
