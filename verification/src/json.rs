use vstd::prelude::*;

use crate::text::text_eq;

verus! {

/// A JSON value as the helper app-server's messages carry it. Numbers keep
/// what the protocol reads of them: a non-negative integer that fits in a
/// `u64` is `UInt`; any other number is `OtherNumber` with its decimal text.
/// An object lists its members in order; the messages that reach the library
/// have no repeated keys.
#[derive(Debug)]
pub enum Json {
    Null,
    Bool(bool),
    UInt(u64),
    OtherNumber(String),
    Text(String),
    Array(Vec<Json>),
    Object(Vec<(String, Json)>),
}

/// The value of the first member of `entries` whose key is `key`.
pub open spec fn entry_lookup(entries: Seq<(String, Json)>, key: Seq<char>) -> Option<Json>
    decreases entries.len(),
{
    if entries.len() == 0 {
        None
    } else if entries[0].0@ == key {
        Some(entries[0].1)
    } else {
        entry_lookup(entries.drop_first(), key)
    }
}

/// The text held by a value, when it is a JSON string.
pub open spec fn text_of(v: Option<Json>) -> Option<Seq<char>> {
    match v {
        Some(Json::Text(s)) => Some(s@),
        _ => None,
    }
}

/// The number held by a value, when it is a non-negative integer that fits
/// in a `u64`.
pub open spec fn uint_of(v: Option<Json>) -> Option<u64> {
    match v {
        Some(Json::UInt(n)) => Some(n),
        _ => None,
    }
}

/// The elements of a value, when it is an array.
pub open spec fn array_of(v: Option<Json>) -> Option<Seq<Json>> {
    match v {
        Some(Json::Array(items)) => Some(items@),
        _ => None,
    }
}

/// The member `key` of an optional value (none when the value is absent or
/// not an object).
pub open spec fn member(v: Option<Json>, key: Seq<char>) -> Option<Json> {
    match v {
        Some(j) => j.field(key),
        None => None,
    }
}

/// The member `primary` of `v`, or else its member `fallback`.
pub open spec fn member_either(v: Option<Json>, primary: Seq<char>, fallback: Seq<char>) -> Option<
    Json,
> {
    match member(v, primary) {
        Some(j) => Some(j),
        None => member(v, fallback),
    }
}

impl Json {
    /// The member `key` of this value, when it is an object that has one.
    pub open spec fn field(self, key: Seq<char>) -> Option<Json> {
        match self {
            Json::Object(entries) => entry_lookup(entries@, key),
            _ => None,
        }
    }

    /// The member `key` of this value, when it is an object that has one.
    pub fn get(&self, key: &str) -> (r: Option<&Json>)
        ensures
            match r {
                Some(v) => self.field(key@) == Some(*v),
                None => self.field(key@) is None,
            },
    {
        match self {
            Json::Object(entries) => {
                let n = entries.len();
                let mut i: usize = 0;
                assert(entries@.skip(0) =~= entries@);
                while i < n
                    invariant
                        n == entries@.len(),
                        i <= n,
                        self.field(key@) == entry_lookup(entries@, key@),
                        entry_lookup(entries@, key@) == entry_lookup(entries@.skip(i as int), key@),
                    decreases n - i,
                {
                    let ghost rest = entries@.skip(i as int);
                    assert(rest.drop_first() =~= entries@.skip(i + 1));
                    assert(rest[0] == entries@[i as int]);
                    if text_eq(entries[i].0.as_str(), key) {
                        return Some(&entries[i].1);
                    }
                    i = i + 1;
                }
                assert(entries@.skip(n as int).len() == 0);
                None
            },
            _ => None,
        }
    }

    /// The member `primary`, or else the member `fallback`.
    pub fn get_either(&self, primary: &str, fallback: &str) -> (r: Option<&Json>)
        ensures
            match r {
                Some(v) => member_either(Some(*self), primary@, fallback@) == Some(*v),
                None => member_either(Some(*self), primary@, fallback@) is None,
            },
    {
        match self.get(primary) {
            Some(v) => Some(v),
            None => self.get(fallback),
        }
    }

    /// The text of this value, when it is a JSON string.
    pub fn as_text(&self) -> (r: Option<&String>)
        ensures
            match r {
                Some(s) => text_of(Some(*self)) == Some(s@),
                None => text_of(Some(*self)) is None,
            },
    {
        match self {
            Json::Text(s) => Some(s),
            _ => None,
        }
    }

    /// This value as a `u64`, when it is a non-negative integer that fits.
    pub fn as_u64(&self) -> (r: Option<u64>)
        ensures
            r == uint_of(Some(*self)),
    {
        match self {
            Json::UInt(n) => Some(*n),
            _ => None,
        }
    }

    /// The elements of this value, when it is an array.
    pub fn as_array(&self) -> (r: Option<&Vec<Json>>)
        ensures
            match r {
                Some(items) => array_of(Some(*self)) == Some(items@),
                None => array_of(Some(*self)) is None,
            },
    {
        match self {
            Json::Array(items) => Some(items),
            _ => None,
        }
    }
}

/// A JSON value with its strings taken as character sequences.
pub enum JsonView {
    Null,
    Bool(bool),
    UInt(u64),
    OtherNumber(Seq<char>),
    Text(Seq<char>),
    Array(Seq<JsonView>),
    Object(Seq<(Seq<char>, JsonView)>),
}

/// What a JSON value says, with its strings taken as character sequences.
pub open spec fn json_view(j: Json) -> JsonView
    decreases j, 1int,
{
    match j {
        Json::Null => JsonView::Null,
        Json::Bool(b) => JsonView::Bool(b),
        Json::UInt(n) => JsonView::UInt(n),
        Json::OtherNumber(t) => JsonView::OtherNumber(t@),
        Json::Text(t) => JsonView::Text(t@),
        Json::Array(items) => {
            proof {
                assert(decreases_to!(items => items@));
            }
            JsonView::Array(items_view(items@))
        },
        Json::Object(entries) => {
            proof {
                assert(decreases_to!(entries => entries@));
            }
            JsonView::Object(entries_view(entries@))
        },
    }
}

/// The views of a sequence of values.
pub open spec fn items_view(s: Seq<Json>) -> Seq<JsonView>
    decreases s, 0int,
{
    if s.len() == 0 {
        Seq::empty()
    } else {
        proof {
            assert(decreases_to!(s => s.drop_first()));
        }
        seq![json_view(s[0])] + items_view(s.drop_first())
    }
}

/// The views of the members of an object.
pub open spec fn entries_view(s: Seq<(String, Json)>) -> Seq<(Seq<char>, JsonView)>
    decreases s, 0int,
{
    if s.len() == 0 {
        Seq::empty()
    } else {
        proof {
            assert(decreases_to!(s => s.drop_first()));
            assert(decreases_to!(s => s[0]));
        }
        seq![(s[0].0@, json_view(s[0].1))] + entries_view(s.drop_first())
    }
}

/// The view of an object's members, member by member.
pub proof fn entries_view_members(s: Seq<(String, Json)>)
    ensures
        entries_view(s).len() == s.len(),
        forall|i: int|
            0 <= i < s.len() ==> #[trigger] entries_view(s)[i] == (s[i].0@, json_view(s[i].1)),
    decreases s.len(),
{
    if s.len() > 0 {
        entries_view_members(s.drop_first());
        assert forall|i: int| 0 <= i < s.len() implies #[trigger] entries_view(s)[i] == (
            s[i].0@,
            json_view(s[i].1),
        ) by {
            if i > 0 {
                assert(s.drop_first()[i - 1] == s[i]);
            }
        }
    }
}

/// The value of the first member of `entries` whose key is `key`.
pub open spec fn view_entry_lookup(entries: Seq<(Seq<char>, JsonView)>, key: Seq<char>) -> Option<
    JsonView,
>
    decreases entries.len(),
{
    if entries.len() == 0 {
        None
    } else if entries[0].0 == key {
        Some(entries[0].1)
    } else {
        view_entry_lookup(entries.drop_first(), key)
    }
}

/// The member `key` of an optional value, when it is an object that has one.
pub open spec fn view_member(v: Option<JsonView>, key: Seq<char>) -> Option<JsonView> {
    match v {
        Some(JsonView::Object(entries)) => view_entry_lookup(entries, key),
        _ => None,
    }
}

/// The number held by a value, when it is a non-negative integer that fits
/// in a `u64`.
pub open spec fn view_uint(v: Option<JsonView>) -> Option<u64> {
    match v {
        Some(JsonView::UInt(n)) => Some(n),
        _ => None,
    }
}

/// The view of an optional value.
pub open spec fn opt_view(v: Option<Json>) -> Option<JsonView> {
    match v {
        Some(j) => Some(json_view(j)),
        None => None,
    }
}

proof fn lookup_matches_view(entries: Seq<(String, Json)>, key: Seq<char>)
    ensures
        opt_view(entry_lookup(entries, key)) == view_entry_lookup(entries_view(entries), key),
    decreases entries.len(),
{
    if entries.len() > 0 {
        lookup_matches_view(entries.drop_first(), key);
        assert(entries_view(entries).drop_first() =~= entries_view(entries.drop_first()));
    }
}

/// Looking a member up in a value and in its view agree.
pub proof fn member_matches_view(v: Json, key: Seq<char>)
    ensures
        opt_view(member(Some(v), key)) == view_member(Some(json_view(v)), key),
        uint_of(member(Some(v), key)) == view_uint(view_member(Some(json_view(v)), key)),
{
    match v {
        Json::Object(entries) => {
            lookup_matches_view(entries@, key);
        },
        _ => {},
    }
    match member(Some(v), key) {
        Some(m) => {
            match m {
                Json::UInt(_) => {},
                _ => {},
            }
        },
        None => {},
    }
}

/// What `serde_json` parses from a text, as a view; none when the text is not
/// JSON.
pub uninterp spec fn parsed_json(text: Seq<char>) -> Option<JsonView>;

/// The compact JSON text that `serde_json` writes for a value.
pub uninterp spec fn json_text(v: JsonView) -> Seq<char>;

#[verifier::external_type_specification]
#[verifier::external_body]
pub struct ExJsonValue(serde_json::Value);

/// Turns a `serde_json::Value` into the library's JSON model, variant by
/// variant; a number becomes `UInt` exactly when `Number::as_u64` accepts it.
/// Nothing is claimed of it.
#[verifier::external_body]
fn json_of_value(v: &serde_json::Value) -> Json {
    match v {
        serde_json::Value::Null => Json::Null,
        serde_json::Value::Bool(b) => Json::Bool(*b),
        serde_json::Value::Number(n) => match n.as_u64() {
            Some(u) => Json::UInt(u),
            None => Json::OtherNumber(n.to_string()),
        },
        serde_json::Value::String(t) => Json::Text(t.clone()),
        serde_json::Value::Array(a) => Json::Array(a.iter().map(json_of_value).collect()),
        serde_json::Value::Object(m) => Json::Object(m.iter().map(|(k, x)| (k.clone(), json_of_value(x))).collect()),
    }
}

/// Turns the library's JSON model into a `serde_json::Value`, variant by
/// variant; `OtherNumber` is read back with `serde_json::Number`'s parser.
/// Nothing is claimed of it.
#[verifier::external_body]
fn value_of_json(j: &Json) -> serde_json::Value {
    match j {
        Json::Null => serde_json::Value::Null,
        Json::Bool(b) => serde_json::Value::Bool(*b),
        Json::UInt(u) => serde_json::Value::from(*u),
        Json::OtherNumber(t) => t.parse::<serde_json::Number>().map(serde_json::Value::Number).unwrap_or(serde_json::Value::Null),
        Json::Text(t) => serde_json::Value::String(t.clone()),
        Json::Array(a) => serde_json::Value::Array(a.iter().map(value_of_json).collect()),
        Json::Object(m) => serde_json::Value::Object(m.iter().map(|(k, x)| (k.clone(), value_of_json(x))).collect()),
    }
}

/// Parses a text with `serde_json::from_str` into a `serde_json::Value`. The
/// contract names the outcome: none exactly when serde_json rejects the text,
/// otherwise the parsed value; what serde_json accepts is left unsaid.
#[verifier::external_body]
pub fn parse_json(text: &str) -> (r: Option<Json>)
    ensures
        opt_view(r) == parsed_json(text@),
{
    match serde_json::from_str::<serde_json::Value>(text) {
        Ok(v) => Some(json_of_value(&v)),
        Err(_) => None,
    }
}

/// Writes a value as compact JSON text with `serde_json::Value`'s `Display`.
/// The contract names the text; how serde_json escapes strings, writes
/// numbers and orders object members is left unsaid.
#[verifier::external_body]
pub fn json_to_text(v: &Json) -> (r: String)
    ensures
        r@ == json_text(json_view(*v)),
{
    value_of_json(v).to_string()
}

} // verus!
