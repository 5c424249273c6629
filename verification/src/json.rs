//! The JSON documents that the collector stores, as plain values, with the
//! lookups that reports make into them.
use vstd::prelude::*;
use vstd::string::*;
use crate::ids::hex_digit;
use crate::text::{join_spec, push_char, parse_bounded_spec, parse_usize, string_views};

verus! {

/// A stored JSON document.
///
/// A number keeps its text as serde_json prints it. Object members stand in
/// the order serde_json walks its map; where two members share a key, the
/// lookups below take the first of them.
pub enum JsonValue {
    Null,
    Bool(bool),
    Number(String),
    String(String),
    Array(Vec<JsonValue>),
    Object(Vec<(String, JsonValue)>),
}

/// How serde_json writes one character inside a string literal: `"` and `\`
/// behind a backslash; backspace, tab, line feed, form feed and carriage return
/// as `\b`, `\t`, `\n`, `\f`, `\r`; any other character below U+0020 as
/// `\u00` and two lower-case hexadecimal digits; everything else unchanged.
pub open spec fn escape_char(c: char) -> Seq<char> {
    let n = c as nat;
    if c == '"' {
        seq!['\\', '"']
    } else if c == '\\' {
        seq!['\\', '\\']
    } else if n == 8 {
        seq!['\\', 'b']
    } else if n == 9 {
        seq!['\\', 't']
    } else if n == 10 {
        seq!['\\', 'n']
    } else if n == 12 {
        seq!['\\', 'f']
    } else if n == 13 {
        seq!['\\', 'r']
    } else if n < 32 {
        seq!['\\', 'u', '0', '0', hex_digit(n / 16), hex_digit(n % 16)]
    } else {
        seq![c]
    }
}

/// The characters of `s`, each written as serde_json writes it in a string.
pub open spec fn escaped(s: Seq<char>) -> Seq<char>
    decreases s.len(),
{
    if s.len() == 0 {
        Seq::<char>::empty()
    } else {
        escaped(s.drop_last()) + escape_char(s.last())
    }
}

/// The JSON string literal for `s`, as `serde_json::to_string` prints it: a
/// double quote, the escaped characters, a double quote.
pub open spec fn json_quoted(s: Seq<char>) -> Seq<char> {
    seq!['"'] + escaped(s) + seq!['"']
}

/// Whether `serde_json::from_str::<serde_json::Value>` accepts `s`.
pub uninterp spec fn parses_as_json(s: Seq<char>) -> bool;

/// `serde_json::to_string` on a `str`: the string literal, quotes included,
/// with each character escaped as `escape_char` says (`format_escaped_str`
/// with its `ESCAPE` table and `write_char_escape`). Serialising a `str` into
/// the in-memory buffer cannot fail, so the error arm is never taken.
#[verifier::external_body]
pub(crate) fn quote(s: &str) -> (r: String)
    ensures
        r@ == json_quoted(s@),
{
    match serde_json::to_string(s) {
        Ok(t) => t,
        Err(_) => String::new(),
    }
}

/// `serde_json::from_str::<serde_json::Value>(s).is_ok()`: whether `s` is a
/// JSON document that serde_json reads.
#[verifier::external_body]
pub(crate) fn is_json_document(s: &str) -> (r: bool)
    ensures
        r == parses_as_json(s@),
{
    serde_json::from_str::<serde_json::Value>(s).is_ok()
}

/// The element at position `i` of an array (`Value::get` with a `usize`).
pub open spec fn index_spec(v: JsonValue, i: nat) -> Option<JsonValue> {
    match v {
        JsonValue::Array(items) => if i < items@.len() {
            Some(items@[i as int])
        } else {
            None
        },
        _ => None,
    }
}

/// The value of the member named `key` (the first such member).
pub open spec fn member_spec(fields: Seq<(String, JsonValue)>, key: Seq<char>) -> Option<
    JsonValue,
>
    decreases fields.len(),
{
    if fields.len() == 0 {
        None
    } else if fields[0].0@ == key {
        Some(fields[0].1)
    } else {
        member_spec(fields.drop_first(), key)
    }
}

/// The member named `key` of an object (`Value::get` with a `str`).
pub open spec fn key_spec(v: JsonValue, key: Seq<char>) -> Option<JsonValue> {
    match v {
        JsonValue::Object(fields) => member_spec(fields@, key),
        _ => None,
    }
}

/// One step along a column path: a segment that reads as a `usize` indexes an
/// array, any other names an object member.
pub open spec fn step_spec(v: JsonValue, seg: Seq<char>) -> Option<JsonValue> {
    match parse_bounded_spec(seg, usize::MAX as nat) {
        Some(i) => index_spec(v, i),
        None => key_spec(v, seg),
    }
}

/// The value reached from `v` along `path`, if every step finds one.
pub open spec fn walk_spec(v: JsonValue, path: Seq<Seq<char>>) -> Option<JsonValue>
    decreases path.len(),
{
    if path.len() == 0 {
        Some(v)
    } else {
        match step_spec(v, path[0]) {
            Some(n) => walk_spec(n, path.drop_first()),
            None => None,
        }
    }
}

/// The strings of an array whose elements are all strings
/// (`serde_json::from_value::<Vec<String>>`), else `None`.
pub open spec fn string_items_spec(items: Seq<JsonValue>) -> Option<Seq<Seq<char>>>
    decreases items.len(),
{
    if items.len() == 0 {
        Some(Seq::<Seq<char>>::empty())
    } else {
        match (string_items_spec(items.drop_last()), items.last()) {
            (Some(prefix), JsonValue::String(s)) => Some(prefix.push(s@)),
            _ => None,
        }
    }
}

pub open spec fn string_list_spec(v: JsonValue) -> Option<Seq<Seq<char>>> {
    match v {
        JsonValue::Array(items) => string_items_spec(items@),
        _ => None,
    }
}

/// The compact JSON text of a value: `null`, `true`, `false`, a number's
/// text, a string literal; an array as `[`, its elements' texts joined with
/// `,`, `]`; an object as `{`, each member's string literal key, `:` and value
/// text, joined with `,`, `}`.
pub open spec fn json_text(v: JsonValue) -> Seq<char>
    decreases v,
{
    match v {
        JsonValue::Null => "null"@,
        JsonValue::Bool(b) => if b {
            "true"@
        } else {
            "false"@
        },
        JsonValue::Number(t) => t@,
        JsonValue::String(s) => json_quoted(s@),
        JsonValue::Array(items) => seq!['['] + join_spec(element_texts(items@), seq![',']) + seq![
            ']',
        ],
        JsonValue::Object(fields) => seq!['{'] + join_spec(member_texts(fields@), seq![',']) + seq![
            '}',
        ],
    }
}

/// The texts of an array's elements.
pub open spec fn element_texts(items: Seq<JsonValue>) -> Seq<Seq<char>>
    decreases items,
{
    if items.len() == 0 {
        Seq::<Seq<char>>::empty()
    } else {
        element_texts(items.drop_last()).push(json_text(items.last()))
    }
}

/// The texts of an object's members: the key's string literal, `:`, the
/// value's text.
pub open spec fn member_texts(fields: Seq<(String, JsonValue)>) -> Seq<Seq<char>>
    decreases fields,
{
    if fields.len() == 0 {
        Seq::<Seq<char>>::empty()
    } else {
        member_texts(fields.drop_last()).push(
            json_quoted(fields.last().0@) + seq![':'] + json_text(fields.last().1),
        )
    }
}

pub open spec fn opt_view(r: Option<&JsonValue>) -> Option<JsonValue> {
    match r {
        Some(v) => Some(*v),
        None => None,
    }
}

impl JsonValue {
    /// `Value::get` with a position.
    pub fn get_index(&self, i: usize) -> (r: Option<&JsonValue>)
        ensures
            opt_view(r) == index_spec(*self, i as nat),
    {
        match self {
            JsonValue::Array(items) => {
                if i < items.len() {
                    Some(&items[i])
                } else {
                    None
                }
            },
            _ => None,
        }
    }

    /// `Value::get` with a member name.
    pub fn get_key(&self, key: &str) -> (r: Option<&JsonValue>)
        ensures
            opt_view(r) == key_spec(*self, key@),
    {
        match self {
            JsonValue::Object(fields) => {
                let wanted = String::from_str(key);
                let mut i: usize = 0;
                assert(fields@.skip(0) =~= fields@);
                while i < fields.len()
                    invariant
                        i <= fields.len(),
                        wanted@ == key@,
                        key_spec(*self, key@) == member_spec(fields@, key@),
                        member_spec(fields@.skip(i as int), key@) == member_spec(fields@, key@),
                    decreases fields.len() - i,
                {
                    assert(fields@.skip(i as int).drop_first() =~= fields@.skip(i + 1));
                    assert(fields@.skip(i as int)[0] == fields@[i as int]);
                    if fields[i].0 == wanted {
                        return Some(&fields[i].1);
                    }
                    i = i + 1;
                }
                None
            },
            _ => None,
        }
    }

    /// One step along a column path.
    pub fn step(&self, seg: &str) -> (r: Option<&JsonValue>)
        ensures
            opt_view(r) == step_spec(*self, seg@),
    {
        match parse_usize(seg) {
            Some(i) => self.get_index(i),
            None => self.get_key(seg),
        }
    }

    /// The value reached along `path`, or `None` where a step finds nothing.
    pub fn lookup(&self, path: &Vec<String>) -> (r: Option<&JsonValue>)
        ensures
            opt_view(r) == walk_spec(*self, string_views(path@)),
    {
        let ghost p = string_views(path@);
        let mut cur: &JsonValue = self;
        let mut i: usize = 0;
        assert(p.skip(0) =~= p);
        while i < path.len()
            invariant
                i <= path.len(),
                p == string_views(path@),
                walk_spec(*cur, p.skip(i as int)) == walk_spec(*self, p),
            decreases path.len() - i,
        {
            assert(p.skip(i as int)[0] == path@[i as int]@);
            assert(p.skip(i as int).drop_first() =~= p.skip(i + 1));
            match cur.step(path[i].as_str()) {
                Some(next) => {
                    cur = next;
                },
                None => {
                    return None;
                },
            }
            i = i + 1;
        }
        assert(p.skip(i as int) =~= Seq::<Seq<char>>::empty());
        Some(cur)
    }

    /// The strings of an array of strings (`serde_json::from_value::<Vec<String>>`).
    pub fn string_list(&self) -> (r: Option<Vec<String>>)
        ensures
            r is Some == string_list_spec(*self) is Some,
            r matches Some(l) ==> string_list_spec(*self) == Some(string_views(l@)),
    {
        match self {
            JsonValue::Array(items) => {
                let mut out: Vec<String> = Vec::new();
                let mut i: usize = 0;
                assert(items@.take(0) =~= Seq::<JsonValue>::empty());
                assert(string_views(out@) =~= Seq::<Seq<char>>::empty());
                while i < items.len()
                    invariant
                        i <= items.len(),
                        string_list_spec(*self) == string_items_spec(items@),
                        string_items_spec(items@.take(i as int)) == Some(string_views(out@)),
                    decreases items.len() - i,
                {
                    assert(items@.take(i + 1).drop_last() =~= items@.take(i as int));
                    assert(items@.take(i + 1).last() == items@[i as int]);
                    match &items[i] {
                        JsonValue::String(s) => {
                            let ghost before = out@;
                            out.push(s.clone());
                            assert(string_views(out@) =~= string_views(before).push(s@));
                        },
                        _ => {
                            proof {
                                lemma_string_items_prefix_none(items@, i as int + 1);
                                assert(items@.take(items@.len() as int) =~= items@);
                            }
                            return None;
                        },
                    }
                    i = i + 1;
                }
                assert(items@.take(items.len() as int) =~= items@);
                Some(out)
            },
            _ => None,
        }
    }

    /// The compact JSON text of this value.
    pub fn text(&self) -> (r: String)
        ensures
            r@ == json_text(*self),
        decreases self,
    {
        match self {
            JsonValue::Null => String::from_str("null"),
            JsonValue::Bool(b) => if *b {
                String::from_str("true")
            } else {
                String::from_str("false")
            },
            JsonValue::Number(t) => t.clone(),
            JsonValue::String(s) => quote(s.as_str()),
            JsonValue::Array(items) => {
                let mut r = String::new();
                push_char(&mut r, '[');
                let mut i: usize = 0;
                assert(items@.take(0) =~= Seq::<JsonValue>::empty());
                while i < items.len()
                    invariant
                        i <= items.len(),
                        *self == JsonValue::Array(*items),
                        r@ == seq!['['] + join_spec(element_texts(items@.take(i as int)), seq![',']),
                    decreases items.len() - i,
                {
                    if i > 0 {
                        push_char(&mut r, ',');
                    }
                    proof {
                        assert(decreases_to!(*self => self->Array_0));
                        assert(decreases_to!(self->Array_0 => self->Array_0@));
                        assert(decreases_to!(items@ => items@[i as int]));
                    }
                    let t = items[i].text();
                    r.append(t.as_str());
                    let ghost prev = element_texts(items@.take(i as int));
                    assert(items@.take(i + 1).drop_last() =~= items@.take(i as int));
                    assert(element_texts(items@.take(i + 1)) == prev.push(json_text(items@[i as int])));
                    assert(prev.push(json_text(items@[i as int])).drop_last() =~= prev);
                    if i == 0 {
                        assert(r@ =~= seq!['['] + join_spec(element_texts(items@.take(1)), seq![',']));
                    } else {
                        assert(r@ =~= seq!['['] + join_spec(element_texts(items@.take(i + 1)), seq![',']));
                    }
                    i = i + 1;
                }
                push_char(&mut r, ']');
                assert(items@.take(items.len() as int) =~= items@);
                r
            },
            JsonValue::Object(fields) => {
                let mut r = String::new();
                push_char(&mut r, '{');
                let mut i: usize = 0;
                assert(fields@.take(0) =~= Seq::<(String, JsonValue)>::empty());
                while i < fields.len()
                    invariant
                        i <= fields.len(),
                        *self == JsonValue::Object(*fields),
                        r@ == seq!['{'] + join_spec(member_texts(fields@.take(i as int)), seq![',']),
                    decreases fields.len() - i,
                {
                    if i > 0 {
                        push_char(&mut r, ',');
                    }
                    let k = quote(fields[i].0.as_str());
                    r.append(k.as_str());
                    push_char(&mut r, ':');
                    proof {
                        assert(decreases_to!(*self => self->Object_0));
                        assert(decreases_to!(self->Object_0 => self->Object_0@));
                        assert(decreases_to!(fields@ => fields@[i as int]));
                        assert(decreases_to!(fields@[i as int] => fields@[i as int].1));
                    }
                    let t = fields[i].1.text();
                    r.append(t.as_str());
                    let ghost prev = member_texts(fields@.take(i as int));
                    let ghost m = json_quoted(fields@[i as int].0@) + seq![':'] + json_text(fields@[i as int].1);
                    assert(fields@.take(i + 1).drop_last() =~= fields@.take(i as int));
                    assert(member_texts(fields@.take(i + 1)) == prev.push(m));
                    assert(prev.push(m).drop_last() =~= prev);
                    if i == 0 {
                        assert(r@ =~= seq!['{'] + join_spec(member_texts(fields@.take(1)), seq![',']));
                    } else {
                        assert(r@ =~= seq!['{'] + join_spec(member_texts(fields@.take(i + 1)), seq![',']));
                    }
                    i = i + 1;
                }
                push_char(&mut r, '}');
                assert(fields@.take(fields.len() as int) =~= fields@);
                r
            },
        }
    }
}

/// Once a prefix of the items is not all strings, no longer prefix is.
proof fn lemma_string_items_prefix_none(items: Seq<JsonValue>, k: int)
    requires
        0 <= k <= items.len(),
        string_items_spec(items.take(k)) is None,
    ensures
        string_items_spec(items.take(items.len() as int)) is None,
    decreases items.len() - k,
{
    if k < items.len() {
        assert(items.take(k + 1).drop_last() =~= items.take(k));
        lemma_string_items_prefix_none(items, k + 1);
    }
}

} // verus!
