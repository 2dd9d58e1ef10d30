//! JSON values, as far as the responses need them, and the way from a line
//! of text to such a value and back.
//!
//! Reading JSON is `serde_json`'s work. It is asked three questions about a
//! text: what kind of value it is, which items it has if it is an array, and
//! which members if it is an object. [`parse`] puts the answers together.
//! Writing is done here: but for the escapes in strings there is nothing
//! to it.

use crate::text::{
    digit, integer, integer_value, push_char, push_decimal, read_integer, same_text, texts,
};
use vstd::prelude::*;
use vstd::string::StringExecFns;

verus! {

/// A JSON value.
#[derive(Debug, PartialEq, Eq)]
pub enum Json {
    Null,
    Bool(bool),
    /// A number, by its numeral.
    Number(String),
    Text(String),
    Array(Vec<Json>),
    /// An object, by its members: name and value.
    Object(Vec<(String, Json)>),
}

/// What a [`Json`] says.
pub enum JsonValue {
    Null,
    Bool(bool),
    Number(Seq<char>),
    Text(Seq<char>),
    Array(Seq<JsonValue>),
    Object(Seq<(Seq<char>, JsonValue)>),
}

/// What `j` says: its strings by their characters, its items and members
/// in their order.
pub open spec fn json_value(j: Json) -> JsonValue
    decreases j,
{
    match j {
        Json::Null => JsonValue::Null,
        Json::Bool(b) => JsonValue::Bool(b),
        Json::Number(n) => JsonValue::Number(n@),
        Json::Text(s) => JsonValue::Text(s@),
        Json::Array(items) => JsonValue::Array(
            Seq::new(
                items.len() as nat,
                |i: int|
                    if 0 <= i < items.len() {
                        json_value(items[i])
                    } else {
                        JsonValue::Null
                    },
            ),
        ),
        Json::Object(members) => JsonValue::Object(
            Seq::new(
                members.len() as nat,
                |i: int|
                    if 0 <= i < members.len() {
                        (members[i].0@, json_value(members[i].1))
                    } else {
                        (Seq::empty(), JsonValue::Null)
                    },
            ),
        ),
    }
}

impl View for Json {
    type V = JsonValue;

    open spec fn view(&self) -> JsonValue {
        json_value(*self)
    }
}

/// The outermost layer of a JSON text: which kind of value it is, and the
/// value itself where it is a number or a string.
#[derive(Debug, Clone, PartialEq, Eq)]
pub enum Shape {
    Null,
    Bool(bool),
    Number(String),
    Text(String),
    Array,
    Object,
}

/// What a [`Shape`] says.
pub enum ShapeView {
    Null,
    Bool(bool),
    Number(Seq<char>),
    Text(Seq<char>),
    Array,
    Object,
}

impl View for Shape {
    type V = ShapeView;

    open spec fn view(&self) -> ShapeView {
        match self {
            Shape::Null => ShapeView::Null,
            Shape::Bool(b) => ShapeView::Bool(*b),
            Shape::Number(n) => ShapeView::Number(n@),
            Shape::Text(s) => ShapeView::Text(s@),
            Shape::Array => ShapeView::Array,
            Shape::Object => ShapeView::Object,
        }
    }
}

/// The contents of each pair of strings of `pairs`.
pub open spec fn text_pairs(pairs: Seq<(String, String)>) -> Seq<(Seq<char>, Seq<char>)> {
    Seq::new(pairs.len(), |i: int| (pairs[i].0@, pairs[i].1@))
}

/// What `serde_json` makes of `text` read as one JSON value: nothing where
/// it is not one; else its kind, with a number's numeral as `serde_json`
/// prints it and a string's characters with the escapes resolved.
pub uninterp spec fn json_shape(text: Seq<char>) -> Option<ShapeView>;

/// The items of the JSON array `text`, each as the piece of `text` that
/// holds it; nothing where `text` is no array.
pub uninterp spec fn json_items(text: Seq<char>) -> Option<Seq<Seq<char>>>;

/// The members of the JSON object `text`, each as its name and the piece of
/// `text` that holds its value, in the order of the names and with the
/// last of those that share a name; nothing where `text` is no object.
pub uninterp spec fn json_members(text: Seq<char>) -> Option<Seq<(Seq<char>, Seq<char>)>>;

/// `serde_json::from_str` at the type `serde_json::Value`, and of the value
/// it gives the variant alone; a number is handed on as `Number`'s
/// `to_string` prints it. The claim is that the answer depends on the text
/// and on nothing else.
#[verifier::external_body]
fn shape_of(text: &str) -> (r: Option<Shape>)
    ensures
        r is Some <==> json_shape(text@) is Some,
        r matches Some(shape) ==> json_shape(text@) == Some(shape@),
{
    match serde_json::from_str::<serde_json::Value>(text) {
        Ok(serde_json::Value::Null) => Some(Shape::Null),
        Ok(serde_json::Value::Bool(b)) => Some(Shape::Bool(b)),
        Ok(serde_json::Value::Number(n)) => Some(Shape::Number(n.to_string())),
        Ok(serde_json::Value::String(s)) => Some(Shape::Text(s)),
        Ok(serde_json::Value::Array(_)) => Some(Shape::Array),
        Ok(serde_json::Value::Object(_)) => Some(Shape::Object),
        Err(_) => None,
    }
}

/// `serde_json::from_str` at the type `Vec<Box<RawValue>>`: the items of an
/// array, each left as the text it was written as. The claim is that the
/// answer depends on the text and on nothing else.
#[verifier::external_body]
fn items_of(text: &str) -> (r: Option<Vec<String>>)
    ensures
        r is Some <==> json_items(text@) is Some,
        r matches Some(items) ==> json_items(text@) == Some(texts(items@)),
{
    match serde_json::from_str::<Vec<Box<serde_json::value::RawValue>>>(text) {
        Ok(items) => Some(items.into_iter().map(|item| item.get().to_owned()).collect()),
        Err(_) => None,
    }
}

/// `serde_json::from_str` at the type `BTreeMap<String, Box<RawValue>>`:
/// the members of an object in the order of their names, each value left
/// as the text it was written as; of members with one name the last one
/// stays. The claim is that the answer depends on the text and on nothing
/// else.
#[verifier::external_body]
fn members_of(text: &str) -> (r: Option<Vec<(String, String)>>)
    ensures
        r is Some <==> json_members(text@) is Some,
        r matches Some(members) ==> json_members(text@) == Some(text_pairs(members@)),
{
    match serde_json::from_str::<
        std::collections::BTreeMap<String, Box<serde_json::value::RawValue>>,
    >(text) {
        Ok(members) => Some(
            members.into_iter().map(|(name, value)| (name, value.get().to_owned())).collect(),
        ),
        Err(_) => None,
    }
}

/// How deep arrays and objects may nest in a text that [`parse`] reads.
pub const MAX_DEPTH: u32 = 128;

/// The values of the JSON texts `items`, where each of them has one.
pub open spec fn parsed_items(items: Seq<Seq<char>>, depth: nat) -> Option<Seq<JsonValue>>
    decreases depth, items.len(),
{
    if items.len() == 0 {
        Some(Seq::empty())
    } else {
        match (parsed_items(items.drop_last(), depth), parsed(items.last(), depth)) {
            (Some(values), Some(value)) => Some(values.push(value)),
            _ => None,
        }
    }
}

/// The members `members` with the values of their JSON texts, where each
/// of them has one.
pub open spec fn parsed_members(members: Seq<(Seq<char>, Seq<char>)>, depth: nat) -> Option<
    Seq<(Seq<char>, JsonValue)>,
>
    decreases depth, members.len(),
{
    if members.len() == 0 {
        Some(Seq::empty())
    } else {
        match (parsed_members(members.drop_last(), depth), parsed(members.last().1, depth)) {
            (Some(values), Some(value)) => Some(values.push((members.last().0, value))),
            _ => None,
        }
    }
}

/// The value of the JSON text `text`, where arrays and objects nest at most
/// `depth` deep in it: put together from what `serde_json` says of the
/// text and of the pieces that hold its items or members.
pub open spec fn parsed(text: Seq<char>, depth: nat) -> Option<JsonValue>
    decreases depth, 0nat,
{
    match json_shape(text) {
        None => None,
        Some(ShapeView::Null) => Some(JsonValue::Null),
        Some(ShapeView::Bool(b)) => Some(JsonValue::Bool(b)),
        Some(ShapeView::Number(n)) => Some(JsonValue::Number(n)),
        Some(ShapeView::Text(s)) => Some(JsonValue::Text(s)),
        Some(ShapeView::Array) => if depth == 0 {
            None
        } else {
            match json_items(text) {
                None => None,
                Some(items) => match parsed_items(items, (depth - 1) as nat) {
                    None => None,
                    Some(values) => Some(JsonValue::Array(values)),
                },
            }
        },
        Some(ShapeView::Object) => if depth == 0 {
            None
        } else {
            match json_members(text) {
                None => None,
                Some(members) => match parsed_members(members, (depth - 1) as nat) {
                    None => None,
                    Some(values) => Some(JsonValue::Object(values)),
                },
            }
        },
    }
}

/// Once one of the texts has no value, no longer list of them has values.
proof fn lemma_parsed_items_prefix(items: Seq<Seq<char>>, depth: nat, k: int)
    requires
        0 <= k <= items.len(),
        parsed_items(items.take(k), depth) is None,
    ensures
        parsed_items(items, depth) is None,
    decreases items.len(),
{
    if k == items.len() {
        assert(items.take(k) == items);
    } else {
        assert(items.drop_last().take(k) == items.take(k));
        lemma_parsed_items_prefix(items.drop_last(), depth, k);
    }
}

/// Once one of the members has no value, no longer list of them has values.
proof fn lemma_parsed_members_prefix(members: Seq<(Seq<char>, Seq<char>)>, depth: nat, k: int)
    requires
        0 <= k <= members.len(),
        parsed_members(members.take(k), depth) is None,
    ensures
        parsed_members(members, depth) is None,
    decreases members.len(),
{
    if k == members.len() {
        assert(members.take(k) == members);
    } else {
        assert(members.drop_last().take(k) == members.take(k));
        lemma_parsed_members_prefix(members.drop_last(), depth, k);
    }
}

fn parse_items(items: &Vec<String>, depth: u32) -> (r: Option<Vec<Json>>)
    ensures
        r is Some <==> parsed_items(texts(items@), depth as nat) is Some,
        r matches Some(values) ==> parsed_items(texts(items@), depth as nat) == Some(
            Json::Array(values)@->Array_0,
        ),
    decreases depth, 1nat,
{
    let ghost all = texts(items@);
    let mut out: Vec<Json> = Vec::new();
    let mut i: usize = 0;
    assert(all.take(0) == Seq::<Seq<char>>::empty());
    assert(Json::Array(out)@->Array_0 == Seq::<JsonValue>::empty());
    while i < items.len()
        invariant
            i <= items.len(),
            all == texts(items@),
            out.len() == i,
            parsed_items(all.take(i as int), depth as nat) == Some(Json::Array(out)@->Array_0),
        decreases items.len() - i,
    {
        let ghost before = Json::Array(out)@->Array_0;
        proof {
            let next = all.take(i as int + 1);
            assert(next.drop_last() == all.take(i as int));
            assert(next.last() == items@[i as int]@);
        }
        match parse_within(items[i].as_str(), depth) {
            None => {
                proof {
                    lemma_parsed_items_prefix(all, depth as nat, i as int + 1);
                }
                return None;
            },
            Some(item) => {
                let ghost value = item@;
                out.push(item);
                assert(Json::Array(out)@->Array_0 == before.push(value));
            },
        }
        i += 1;
    }
    assert(all.take(items.len() as int) == all);
    Some(out)
}

fn parse_members(members: &Vec<(String, String)>, depth: u32) -> (r: Option<Vec<(String, Json)>>)
    ensures
        r is Some <==> parsed_members(text_pairs(members@), depth as nat) is Some,
        r matches Some(values) ==> parsed_members(text_pairs(members@), depth as nat) == Some(
            Json::Object(values)@->Object_0,
        ),
    decreases depth, 1nat,
{
    let ghost all = text_pairs(members@);
    let mut out: Vec<(String, Json)> = Vec::new();
    let mut i: usize = 0;
    assert(all.take(0) == Seq::<(Seq<char>, Seq<char>)>::empty());
    assert(Json::Object(out)@->Object_0 == Seq::<(Seq<char>, JsonValue)>::empty());
    while i < members.len()
        invariant
            i <= members.len(),
            all == text_pairs(members@),
            out.len() == i,
            parsed_members(all.take(i as int), depth as nat) == Some(
                Json::Object(out)@->Object_0,
            ),
        decreases members.len() - i,
    {
        let ghost before = Json::Object(out)@->Object_0;
        proof {
            let next = all.take(i as int + 1);
            assert(next.drop_last() == all.take(i as int));
            assert(next.last() == (members@[i as int].0@, members@[i as int].1@));
        }
        match parse_within(members[i].1.as_str(), depth) {
            None => {
                proof {
                    lemma_parsed_members_prefix(all, depth as nat, i as int + 1);
                }
                return None;
            },
            Some(item) => {
                let ghost value = item@;
                let name = members[i].0.clone();
                out.push((name, item));
                assert(Json::Object(out)@->Object_0 == before.push((name@, value)));
            },
        }
        i += 1;
    }
    assert(all.take(members.len() as int) == all);
    Some(out)
}

fn parse_within(text: &str, depth: u32) -> (r: Option<Json>)
    ensures
        r is Some <==> parsed(text@, depth as nat) is Some,
        r matches Some(value) ==> parsed(text@, depth as nat) == Some(value@),
    decreases depth, 0nat,
{
    match shape_of(text) {
        None => None,
        Some(Shape::Null) => Some(Json::Null),
        Some(Shape::Bool(b)) => Some(Json::Bool(b)),
        Some(Shape::Number(n)) => Some(Json::Number(n)),
        Some(Shape::Text(s)) => Some(Json::Text(s)),
        Some(Shape::Array) => {
            if depth == 0 {
                return None;
            }
            match items_of(text) {
                None => None,
                Some(items) => match parse_items(&items, depth - 1) {
                    None => None,
                    Some(values) => Some(Json::Array(values)),
                },
            }
        },
        Some(Shape::Object) => {
            if depth == 0 {
                return None;
            }
            match members_of(text) {
                None => None,
                Some(members) => match parse_members(&members, depth - 1) {
                    None => None,
                    Some(values) => Some(Json::Object(values)),
                },
            }
        },
    }
}

/// Reads one JSON value from `text`. There is none where `serde_json`
/// finds none, or where arrays and objects nest deeper than [`MAX_DEPTH`].
pub fn parse(text: &str) -> (r: Option<Json>)
    ensures
        r is Some <==> parsed(text@, MAX_DEPTH as nat) is Some,
        r matches Some(value) ==> parsed(text@, MAX_DEPTH as nat) == Some(value@),
{
    parse_within(text, MAX_DEPTH)
}

/// The hexadecimal digit for `d`, for `d` below sixteen, in lower case.
pub open spec fn hex_digit(d: nat) -> char {
    if d < 10 {
        digit(d)
    } else if d == 10 {
        'a'
    } else if d == 11 {
        'b'
    } else if d == 12 {
        'c'
    } else if d == 13 {
        'd'
    } else if d == 14 {
        'e'
    } else {
        'f'
    }
}

/// What one character becomes inside a JSON string: a quote and a
/// backslash get a backslash before them; backspace, tab, line feed, form
/// feed and carriage return are written as a backslash and a letter; any
/// other character below the space is written as `\u00` and its two
/// hexadecimal digits; every other character stands for itself.
pub open spec fn json_escape_char(c: char) -> Seq<char> {
    if c == '"' {
        seq!['\\', '"']
    } else if c == '\\' {
        seq!['\\', '\\']
    } else if c == '\u{8}' {
        seq!['\\', 'b']
    } else if c == '\t' {
        seq!['\\', 't']
    } else if c == '\n' {
        seq!['\\', 'n']
    } else if c == '\u{c}' {
        seq!['\\', 'f']
    } else if c == '\r' {
        seq!['\\', 'r']
    } else if (c as u32) < 0x20 {
        seq![
            '\\',
            'u',
            '0',
            '0',
            hex_digit((c as u32 / 16) as nat),
            hex_digit((c as u32 % 16) as nat),
        ]
    } else {
        seq![c]
    }
}

/// The characters of `s`, each as it stands inside a JSON string.
pub open spec fn json_escaped(s: Seq<char>) -> Seq<char>
    decreases s.len(),
{
    if s.len() == 0 {
        Seq::empty()
    } else {
        json_escaped(s.drop_last()) + json_escape_char(s.last())
    }
}

/// `s` as a JSON string: escaped, between double quotes.
pub open spec fn json_quoted(s: Seq<char>) -> Seq<char> {
    seq!['"'] + json_escaped(s) + seq!['"']
}

fn hex_digit_of(d: u32) -> (c: char)
    requires
        d < 16,
    ensures
        c == hex_digit(d as nat),
{
    if d == 0 {
        '0'
    } else if d == 1 {
        '1'
    } else if d == 2 {
        '2'
    } else if d == 3 {
        '3'
    } else if d == 4 {
        '4'
    } else if d == 5 {
        '5'
    } else if d == 6 {
        '6'
    } else if d == 7 {
        '7'
    } else if d == 8 {
        '8'
    } else if d == 9 {
        '9'
    } else if d == 10 {
        'a'
    } else if d == 11 {
        'b'
    } else if d == 12 {
        'c'
    } else if d == 13 {
        'd'
    } else if d == 14 {
        'e'
    } else {
        'f'
    }
}

fn push_json_escaped_char(out: &mut String, c: char)
    ensures
        final(out)@ == old(out)@ + json_escape_char(c),
{
    if c == '"' {
        push_char(out, '\\');
        push_char(out, '"');
    } else if c == '\\' {
        push_char(out, '\\');
        push_char(out, '\\');
    } else if c == '\u{8}' {
        push_char(out, '\\');
        push_char(out, 'b');
    } else if c == '\t' {
        push_char(out, '\\');
        push_char(out, 't');
    } else if c == '\n' {
        push_char(out, '\\');
        push_char(out, 'n');
    } else if c == '\u{c}' {
        push_char(out, '\\');
        push_char(out, 'f');
    } else if c == '\r' {
        push_char(out, '\\');
        push_char(out, 'r');
    } else if (c as u32) < 0x20 {
        let code = c as u32;
        push_char(out, '\\');
        push_char(out, 'u');
        push_char(out, '0');
        push_char(out, '0');
        push_char(out, hex_digit_of(code / 16));
        push_char(out, hex_digit_of(code % 16));
    } else {
        push_char(out, c);
    }
}

/// Appends `s` as a JSON string to `out`.
pub fn push_json_quoted(out: &mut String, s: &str)
    ensures
        final(out)@ == old(out)@ + json_quoted(s@),
{
    push_char(out, '"');
    for c in it: s.chars()
        invariant
            it.seq() == s@,
            out@ == old(out)@ + seq!['"'] + json_escaped(s@.take(it.index() as int)),
    {
        proof {
            let k = it.index() as int;
            assert(s@.take(k + 1).drop_last() == s@.take(k));
            assert(s@.take(k + 1).last() == s@[k]);
        }
        push_json_escaped_char(out, c);
    }
    assert(s@.take(s@.len() as int) == s@);
    push_char(out, '"');
}

/// The first `n` values of `items` as JSON texts, with commas between them.
pub open spec fn rendered_items(items: Seq<JsonValue>, n: nat) -> Seq<char>
    decreases items, n,
{
    if n == 0 || n > items.len() {
        Seq::empty()
    } else if n == 1 {
        rendered(items[0])
    } else {
        rendered_items(items, (n - 1) as nat) + ","@ + rendered(items[n - 1])
    }
}

/// One member as JSON text: its name as a string, a colon, its value.
pub open spec fn rendered_member(member: (Seq<char>, JsonValue)) -> Seq<char>
    decreases member, 0nat,
{
    json_quoted(member.0) + ":"@ + rendered(member.1)
}

/// The first `n` members of `members` as JSON texts, with commas between
/// them.
pub open spec fn rendered_members(members: Seq<(Seq<char>, JsonValue)>, n: nat) -> Seq<char>
    decreases members, n,
{
    if n == 0 || n > members.len() {
        Seq::empty()
    } else if n == 1 {
        rendered_member(members[0])
    } else {
        rendered_members(members, (n - 1) as nat) + ","@ + rendered_member(members[n - 1])
    }
}

/// A value as JSON text, with no space in it but inside strings.
pub open spec fn rendered(j: JsonValue) -> Seq<char>
    decreases j, 0nat,
{
    match j {
        JsonValue::Null => "null"@,
        JsonValue::Bool(b) => if b {
            "true"@
        } else {
            "false"@
        },
        JsonValue::Number(n) => n,
        JsonValue::Text(s) => json_quoted(s),
        JsonValue::Array(items) => "["@ + rendered_items(items, items.len()) + "]"@,
        JsonValue::Object(members) => "{"@ + rendered_members(members, members.len()) + "}"@,
    }
}

impl Json {
    /// Appends the value as JSON text to `out`.
    pub fn render_into(&self, out: &mut String)
        ensures
            final(out)@ == old(out)@ + rendered(self@),
        decreases self,
    {
        match self {
            Json::Null => out.append("null"),
            Json::Bool(b) => {
                if *b {
                    out.append("true");
                } else {
                    out.append("false");
                }
            },
            Json::Number(n) => out.append(n.as_str()),
            Json::Text(s) => push_json_quoted(out, s.as_str()),
            Json::Array(items) => {
                let ghost values = self@->Array_0;
                out.append("[");
                let mut i: usize = 0;
                while i < items.len()
                    invariant
                        i <= items.len(),
                        *self == Json::Array(*items),
                        values == self@->Array_0,
                        out@ == old(out)@ + "["@ + rendered_items(values, i as nat),
                    decreases items.len() - i,
                {
                    if i > 0 {
                        out.append(",");
                    }
                    items[i].render_into(out);
                    i += 1;
                }
                out.append("]");
            },
            Json::Object(members) => {
                let ghost values = self@->Object_0;
                out.append("{");
                let mut i: usize = 0;
                while i < members.len()
                    invariant
                        i <= members.len(),
                        *self == Json::Object(*members),
                        values == self@->Object_0,
                        out@ == old(out)@ + "{"@ + rendered_members(values, i as nat),
                    decreases members.len() - i,
                {
                    if i > 0 {
                        out.append(",");
                    }
                    push_json_quoted(out, members[i].0.as_str());
                    out.append(":");
                    members[i].1.render_into(out);
                    proof {
                        let member = values[i as int];
                        assert(member == (members[i as int].0@, members[i as int].1@));
                        assert(rendered_member(member) == json_quoted(member.0) + ":"@ + rendered(
                            member.1,
                        ));
                    }
                    i += 1;
                }
                out.append("}");
            },
        }
    }

    /// The value as JSON text.
    pub fn render(&self) -> (r: String)
        ensures
            r@ == rendered(self@),
    {
        let mut out = String::new();
        self.render_into(&mut out);
        out
    }
}

/// What the values of `items` say, in order.
pub open spec fn item_values(items: Seq<Json>) -> Seq<JsonValue> {
    Seq::new(items.len(), |i: int| items[i]@)
}

/// What the members of `members` say, in order.
pub open spec fn member_values(members: Seq<(String, Json)>) -> Seq<(Seq<char>, JsonValue)> {
    Seq::new(members.len(), |i: int| (members[i].0@, members[i].1@))
}

/// An array says what its items say.
pub proof fn lemma_array_view(items: Vec<Json>)
    ensures
        Json::Array(items)@ == JsonValue::Array(item_values(items@)),
{
    assert(Json::Array(items)@->Array_0 =~= item_values(items@));
}

/// An object says what its members say.
pub proof fn lemma_object_view(members: Vec<(String, Json)>)
    ensures
        Json::Object(members)@ == JsonValue::Object(member_values(members@)),
{
    assert(Json::Object(members)@->Object_0 =~= member_values(members@));
}

/// The value of the first member called `name`.
pub open spec fn member(members: Seq<(Seq<char>, JsonValue)>, name: Seq<char>) -> Option<
    JsonValue,
>
    decreases members.len(),
{
    if members.len() == 0 {
        None
    } else if members[0].0 == name {
        Some(members[0].1)
    } else {
        member(members.drop_first(), name)
    }
}

/// The characters of a value that is a string.
pub open spec fn text_of(j: JsonValue) -> Option<Seq<char>> {
    match j {
        JsonValue::Text(s) => Some(s),
        _ => None,
    }
}

/// The truth value of a value that is `true` or `false`.
pub open spec fn bool_of(j: JsonValue) -> Option<bool> {
    match j {
        JsonValue::Bool(b) => Some(b),
        _ => None,
    }
}

/// The integer of a value that is a number whose numeral is that of an
/// integer from `min` to `max`.
pub open spec fn integer_of(j: JsonValue, min: int, max: int) -> Option<int> {
    match j {
        JsonValue::Number(n) => match integer_value(n) {
            Some(v) => if min <= v <= max {
                Some(v)
            } else {
                None
            },
            None => None,
        },
        _ => None,
    }
}

/// The number of a value that is a number that fits `u32`.
pub open spec fn u32_of(j: JsonValue) -> Option<u32> {
    match integer_of(j, 0, u32::MAX as int) {
        Some(v) => Some(v as u32),
        None => None,
    }
}

/// The number of a value that is a number that fits `i32`.
pub open spec fn i32_of(j: JsonValue) -> Option<i32> {
    match integer_of(j, i32::MIN as int, i32::MAX as int) {
        Some(v) => Some(v as i32),
        None => None,
    }
}

/// The numbers of a value that is an array of numbers that fit `u32`.
pub open spec fn u32s_of(j: JsonValue) -> Option<Seq<u32>> {
    match j {
        JsonValue::Array(items) => if forall|i: int|
            0 <= i < items.len() ==> (#[trigger] u32_of(items[i])) is Some {
            Some(Seq::new(items.len(), |i: int| u32_of(items[i]).unwrap()))
        } else {
            None
        },
        _ => None,
    }
}

/// The strings of a value that is an array of strings.
pub open spec fn texts_of(j: JsonValue) -> Option<Seq<Seq<char>>> {
    match j {
        JsonValue::Array(items) => if forall|i: int|
            0 <= i < items.len() ==> (#[trigger] text_of(items[i])) is Some {
            Some(Seq::new(items.len(), |i: int| text_of(items[i]).unwrap()))
        } else {
            None
        },
        _ => None,
    }
}

/// The string in the member `name`.
pub open spec fn member_text(members: Seq<(Seq<char>, JsonValue)>, name: Seq<char>) -> Option<
    Seq<char>,
> {
    match member(members, name) {
        Some(j) => text_of(j),
        None => None,
    }
}

/// The truth value in the member `name`.
pub open spec fn member_bool(members: Seq<(Seq<char>, JsonValue)>, name: Seq<char>) -> Option<
    bool,
> {
    match member(members, name) {
        Some(j) => bool_of(j),
        None => None,
    }
}

/// The number in the member `name`, where it fits `u32`.
pub open spec fn member_u32(members: Seq<(Seq<char>, JsonValue)>, name: Seq<char>) -> Option<
    u32,
> {
    match member(members, name) {
        Some(j) => u32_of(j),
        None => None,
    }
}

/// The number in the member `name`, where it fits `i32`.
pub open spec fn member_i32(members: Seq<(Seq<char>, JsonValue)>, name: Seq<char>) -> Option<
    i32,
> {
    match member(members, name) {
        Some(j) => i32_of(j),
        None => None,
    }
}

/// The numbers in the member `name`.
pub open spec fn member_u32s(members: Seq<(Seq<char>, JsonValue)>, name: Seq<char>) -> Option<
    Seq<u32>,
> {
    match member(members, name) {
        Some(j) => u32s_of(j),
        None => None,
    }
}

/// The strings in the member `name`.
pub open spec fn member_texts(members: Seq<(Seq<char>, JsonValue)>, name: Seq<char>) -> Option<
    Seq<Seq<char>>,
> {
    match member(members, name) {
        Some(j) => texts_of(j),
        None => None,
    }
}

/// Whether there is a member `name` and it holds `null`.
pub open spec fn member_null(members: Seq<(Seq<char>, JsonValue)>, name: Seq<char>) -> bool {
    member(members, name) == Some(JsonValue::Null)
}

/// The value of the first member of `members` called `name`.
pub fn find<'a>(members: &'a Vec<(String, Json)>, name: &str) -> (r: Option<&'a Json>)
    ensures
        r is Some <==> member(member_values(members@), name@) is Some,
        r matches Some(j) ==> member(member_values(members@), name@) == Some(j@),
{
    let ghost all = member_values(members@);
    let mut i: usize = 0;
    assert(all.skip(0) == all);
    while i < members.len()
        invariant
            i <= members.len(),
            all == member_values(members@),
            member(all, name@) == member(all.skip(i as int), name@),
        decreases members.len() - i,
    {
        proof {
            let rest = all.skip(i as int);
            assert(rest[0] == all[i as int]);
            assert(rest.drop_first() == all.skip(i as int + 1));
        }
        if same_text(members[i].0.as_str(), name) {
            return Some(&members[i].1);
        }
        i += 1;
    }
    None
}

/// The string in the member `name` of `members`.
pub fn find_text(members: &Vec<(String, Json)>, name: &str) -> (r: Option<String>)
    ensures
        r is Some <==> member_text(member_values(members@), name@) is Some,
        r matches Some(s) ==> member_text(member_values(members@), name@) == Some(s@),
{
    match find(members, name) {
        Some(Json::Text(s)) => Some(s.clone()),
        _ => None,
    }
}

/// The truth value in the member `name` of `members`.
pub fn find_bool(members: &Vec<(String, Json)>, name: &str) -> (r: Option<bool>)
    ensures
        r == member_bool(member_values(members@), name@),
{
    match find(members, name) {
        Some(Json::Bool(b)) => Some(*b),
        _ => None,
    }
}

/// Whether `members` has a member `name` that holds `null`.
pub fn find_null(members: &Vec<(String, Json)>, name: &str) -> (r: bool)
    ensures
        r == member_null(member_values(members@), name@),
{
    match find(members, name) {
        Some(Json::Null) => true,
        _ => false,
    }
}

fn as_integer(j: &Json, min: i64, max: i64) -> (r: Option<i64>)
    ensures
        r is Some <==> integer_of(j@, min as int, max as int) is Some,
        r matches Some(v) ==> integer_of(j@, min as int, max as int) == Some(v as int),
{
    match j {
        Json::Number(n) => read_integer(n.as_str(), min, max),
        _ => None,
    }
}

fn as_u32(j: &Json) -> (r: Option<u32>)
    ensures
        r == u32_of(j@),
{
    match as_integer(j, 0, 0xffff_ffff) {
        Some(v) => Some(v as u32),
        None => None,
    }
}

fn as_i32(j: &Json) -> (r: Option<i32>)
    ensures
        r == i32_of(j@),
{
    match as_integer(j, -0x8000_0000, 0x7fff_ffff) {
        Some(v) => Some(v as i32),
        None => None,
    }
}

/// The number in the member `name` of `members`, where it fits `u32`.
pub fn find_u32(members: &Vec<(String, Json)>, name: &str) -> (r: Option<u32>)
    ensures
        r == member_u32(member_values(members@), name@),
{
    match find(members, name) {
        Some(j) => as_u32(j),
        None => None,
    }
}

/// The number in the member `name` of `members`, where it fits `i32`.
pub fn find_i32(members: &Vec<(String, Json)>, name: &str) -> (r: Option<i32>)
    ensures
        r == member_i32(member_values(members@), name@),
{
    match find(members, name) {
        Some(j) => as_i32(j),
        None => None,
    }
}

/// The numbers in the member `name` of `members`.
pub fn find_u32s(members: &Vec<(String, Json)>, name: &str) -> (r: Option<Vec<u32>>)
    ensures
        r is Some <==> member_u32s(member_values(members@), name@) is Some,
        r matches Some(v) ==> member_u32s(member_values(members@), name@) == Some(v@),
{
    match find(members, name) {
        Some(Json::Array(items)) => {
            proof {
                lemma_array_view(*items);
            }
            let ghost all = item_values(items@);
            let mut out: Vec<u32> = Vec::new();
            let mut i: usize = 0;
            while i < items.len()
                invariant
                    i <= items.len(),
                    all == item_values(items@),
                    member(member_values(members@), name@) == Some(JsonValue::Array(all)),
                    out.len() == i,
                    forall|j: int| 0 <= j < i ==> (#[trigger] u32_of(all[j])) == Some(out[j]),
                decreases items.len() - i,
            {
                match as_u32(&items[i]) {
                    Some(v) => out.push(v),
                    None => {
                        assert(u32_of(all[i as int]) is None);
                        return None;
                    },
                }
                i += 1;
            }
            assert(u32s_of(JsonValue::Array(all)).unwrap() =~= out@);
            Some(out)
        },
        _ => None,
    }
}

/// The strings in the member `name` of `members`.
pub fn find_texts(members: &Vec<(String, Json)>, name: &str) -> (r: Option<Vec<String>>)
    ensures
        r is Some <==> member_texts(member_values(members@), name@) is Some,
        r matches Some(v) ==> member_texts(member_values(members@), name@) == Some(texts(v@)),
{
    match find(members, name) {
        Some(Json::Array(items)) => {
            proof {
                lemma_array_view(*items);
            }
            let ghost all = item_values(items@);
            let mut out: Vec<String> = Vec::new();
            let mut i: usize = 0;
            while i < items.len()
                invariant
                    i <= items.len(),
                    all == item_values(items@),
                    member(member_values(members@), name@) == Some(JsonValue::Array(all)),
                    out.len() == i,
                    forall|j: int| 0 <= j < i ==> (#[trigger] text_of(all[j])) == Some(out[j]@),
                decreases items.len() - i,
            {
                match &items[i] {
                    Json::Text(s) => out.push(s.clone()),
                    _ => {
                        assert(text_of(all[i as int]) is None);
                        return None;
                    },
                }
                i += 1;
            }
            assert(texts_of(JsonValue::Array(all)).unwrap() =~= texts(out@));
            Some(out)
        },
        _ => None,
    }
}

/// The JSON string with the characters of `s`.
pub fn text(s: &str) -> (r: Json)
    ensures
        r@ == JsonValue::Text(s@),
{
    Json::Text(String::from_str(s))
}

/// The JSON number `n`.
pub fn number(n: i64) -> (r: Json)
    ensures
        r@ == JsonValue::Number(integer(n as int)),
{
    let mut out = String::new();
    if n < 0 {
        push_char(&mut out, '-');
        push_decimal(&mut out, (0 - (n + 1)) as u64 + 1);
    } else {
        push_decimal(&mut out, n as u64);
    }
    Json::Number(out)
}

/// The numbers `items` as JSON values.
pub open spec fn number_items(items: Seq<u32>) -> Seq<JsonValue> {
    Seq::new(items.len(), |i: int| JsonValue::Number(integer(items[i] as int)))
}

/// The strings `items` as JSON values.
pub open spec fn text_items(items: Seq<Seq<char>>) -> Seq<JsonValue> {
    Seq::new(items.len(), |i: int| JsonValue::Text(items[i]))
}

/// The JSON array of the numbers `items`.
pub fn numbers(items: &Vec<u32>) -> (r: Json)
    ensures
        r@ == JsonValue::Array(number_items(items@)),
{
    let mut out: Vec<Json> = Vec::new();
    let mut i: usize = 0;
    while i < items.len()
        invariant
            i <= items.len(),
            out.len() == i,
            forall|j: int|
                0 <= j < i ==> (#[trigger] out[j])@ == JsonValue::Number(integer(items@[j] as int)),
        decreases items.len() - i,
    {
        out.push(number(items[i] as i64));
        i += 1;
    }
    proof {
        lemma_array_view(out);
        assert(item_values(out@) =~= number_items(items@));
    }
    Json::Array(out)
}

/// The JSON array of the strings `items`.
pub fn strings(items: &Vec<String>) -> (r: Json)
    ensures
        r@ == JsonValue::Array(text_items(texts(items@))),
{
    let mut out: Vec<Json> = Vec::new();
    let mut i: usize = 0;
    while i < items.len()
        invariant
            i <= items.len(),
            out.len() == i,
            forall|j: int| 0 <= j < i ==> (#[trigger] out[j])@ == JsonValue::Text(items@[j]@),
        decreases items.len() - i,
    {
        out.push(Json::Text(items[i].clone()));
        i += 1;
    }
    proof {
        lemma_array_view(out);
        assert(item_values(out@) =~= text_items(texts(items@)));
    }
    Json::Array(out)
}

/// The JSON object with the members `members`.
pub fn object(members: Vec<(String, Json)>) -> (r: Json)
    ensures
        r@ == JsonValue::Object(member_values(members@)),
{
    proof {
        lemma_object_view(members);
    }
    Json::Object(members)
}

/// Adds the member `name` with the value `value` at the end of `members`.
pub fn add_member(members: &mut Vec<(String, Json)>, name: &str, value: Json)
    ensures
        member_values(final(members)@) == member_values(old(members)@).push((name@, value@)),
{
    members.push((String::from_str(name), value));
    assert(member_values(members@) =~= member_values(old(members)@).push((name@, value@)));
}

} // verus!
