//! JSON values, with the parser and the printers of `serde_json`.

use vstd::prelude::*;

use crate::order::{
    items_map, items_map_holds_items, text_less, text_less_is_irreflexive, StringMap,
};
use crate::text::{opt_view, views};

verus! {

/// `serde_json::Number`, a number as JSON has it. It is carried through and never looked into.
#[verifier::external_type_specification]
#[verifier::external_body]
pub struct ExNumber(serde_json::Number);

/// Cloning a `serde_json::Number` gives the same number.
pub assume_specification[ <serde_json::Number as Clone>::clone ](
    number: &serde_json::Number,
) -> (out: serde_json::Number)
    ensures
        out == *number,
;

/// `serde_json::Value`, the JSON value that `serde_json` reads and prints.
#[verifier::external_type_specification]
#[verifier::external_body]
pub struct ExValue(serde_json::Value);

/// A JSON value.
#[derive(Debug, PartialEq, Eq)]
pub enum Json {
    Null,
    Bool(bool),
    Number(serde_json::Number),
    Text(String),
    Array(Vec<Json>),
    Object(StringMap<Json>),
}

/// What a JSON value says.
#[verifier::ext_equal]
pub enum JsonView {
    Null,
    Bool(bool),
    Number(serde_json::Number),
    Text(Seq<char>),
    Array(Seq<JsonView>),
    Object(Map<Seq<char>, JsonView>),
}

impl View for Json {
    type V = JsonView;

    closed spec fn view(&self) -> JsonView
        decreases self,
    {
        match self {
            Json::Null => JsonView::Null,
            Json::Bool(b) => JsonView::Bool(*b),
            Json::Number(n) => JsonView::Number(*n),
            Json::Text(t) => JsonView::Text(t@),
            Json::Array(items) => JsonView::Array(items_view(items@)),
            Json::Object(members) => JsonView::Object(members_view(members.entries@)),
        }
    }
}

spec fn items_view(items: Seq<Json>) -> Seq<JsonView>
    decreases items,
{
    Seq::new(
        items.len(),
        |i: int|
            if 0 <= i < items.len() {
                items[i].view()
            } else {
                JsonView::Null
            },
    )
}

spec fn members_view(items: Seq<(String, Json)>) -> Map<Seq<char>, JsonView>
    decreases items,
{
    if items.len() == 0 {
        Map::empty()
    } else {
        members_view(items.drop_last()).insert(
            items[items.len() - 1].0@,
            items[items.len() - 1].1.view(),
        )
    }
}

proof fn members_view_is_items_map(items: Seq<(String, Json)>)
    ensures
        members_view(items).dom() == items_map(items).dom(),
        forall|k: Seq<char>| #[trigger]
            items_map(items).contains_key(k) ==> members_view(items)[k] == items_map(items)[k]@,
    decreases items.len(),
{
    reveal_with_fuel(members_view, 2);
    if items.len() > 0 {
        members_view_is_items_map(items.drop_last());
        assert(items_map(items) == items_map(items.drop_last()).insert(
            items.last().0@,
            items.last().1,
        ));
        assert(members_view(items).dom() =~= items_map(items).dom());
    }
}

proof fn members_view_is_map(members: StringMap<Json>)
    ensures
        members_view(members.entries@).dom() == members@.dom(),
        forall|k: Seq<char>| #[trigger]
            members@.contains_key(k) ==> members_view(members.entries@)[k] == members@[k]@,
{
    members_view_is_items_map(members.entries@);
    members.items_are_entries();
}

proof fn items_view_says(items: Seq<Json>)
    ensures
        items_view(items).len() == items.len(),
        forall|i: int| 0 <= i < items.len() ==> #[trigger] items_view(items)[i] == items[i]@,
{
    reveal_with_fuel(items_view, 2);
}

// ---------------------------------------------------------------------------
// Looking into values
// ---------------------------------------------------------------------------

impl JsonView {
    /// The member `key` of an object.
    pub open spec fn member(self, key: Seq<char>) -> Option<JsonView> {
        match self {
            JsonView::Object(members) => if members.contains_key(key) {
                Some(members[key])
            } else {
                None
            },
            _ => None,
        }
    }

    /// The text of a string value.
    pub open spec fn string(self) -> Option<Seq<char>> {
        match self {
            JsonView::Text(text) => Some(text),
            _ => None,
        }
    }

    /// The text of the member `key`, where that is a string.
    pub open spec fn text_member(self, key: Seq<char>) -> Option<Seq<char>> {
        match self.member(key) {
            Some(value) => value.string(),
            None => None,
        }
    }
}

/// The view of an optional reference to a value.
pub open spec fn json_ref_view(value: Option<&Json>) -> Option<JsonView> {
    match value {
        Some(value) => Some(value@),
        None => None,
    }
}

/// The text of an optional slice.
pub open spec fn str_view(text: Option<&str>) -> Option<Seq<char>> {
    match text {
        Some(text) => Some(text@),
        None => None,
    }
}

impl Json {
    /// The member `key` of an object.
    pub fn get(&self, key: &str) -> (value: Option<&Json>)
        ensures
            json_ref_view(value) == self@.member(key@),
    {
        match self {
            Json::Object(members) => {
                proof {
                    members_view_is_map(*members);
                }
                members.get(key)
            },
            _ => None,
        }
    }

    /// The text of a string value.
    pub fn as_str(&self) -> (text: Option<&str>)
        ensures
            str_view(text) == self@.string(),
    {
        match self {
            Json::Text(text) => Some(text.as_str()),
            _ => None,
        }
    }

    /// The text of the member `key`, where that is a string.
    pub fn get_str(&self, key: &str) -> (text: Option<&str>)
        ensures
            str_view(text) == self@.text_member(key@),
    {
        match self.get(key) {
            Some(value) => value.as_str(),
            None => None,
        }
    }

    /// Whether the value is null.
    pub fn is_null(&self) -> (yes: bool)
        ensures
            yes == (self@ is Null),
    {
        matches!(self, Json::Null)
    }

    /// The value null.
    pub fn null() -> (value: Json)
        ensures
            value@ == JsonView::Null,
    {
        Json::Null
    }

    /// A value that holds `text`.
    pub fn text(text: &str) -> (value: Json)
        ensures
            value@ == JsonView::Text(text@),
    {
        Json::Text(text.to_string())
    }

    /// A value that holds `text`, or null where there is none.
    pub fn optional_text(text: &Option<String>) -> (value: Json)
        ensures
            value@ == optional_text_json(opt_view(*text)),
    {
        match text {
            Some(text) => Json::Text(text.clone()),
            None => Json::Null,
        }
    }

    /// A value that holds `b`.
    pub fn flag(b: bool) -> (value: Json)
        ensures
            value@ == JsonView::Bool(b),
    {
        Json::Bool(b)
    }

    /// A list of texts.
    pub fn texts(texts: &Vec<String>) -> (value: Json)
        ensures
            value@ == texts_json(views(texts@)),
    {
        let mut items: Vec<Json> = Vec::new();
        for i in 0..texts.len()
            invariant
                items@.len() == i,
                forall|j: int| 0 <= j < i ==> #[trigger] items@[j]@ == JsonView::Text(texts@[j]@),
        {
            items.push(Json::Text(texts[i].clone()));
        }
        let value = Json::Array(items);
        proof {
            items_view_says(items@);
        }
        assert(items_view(items@) =~= views(texts@).map_values(|t: Seq<char>| JsonView::Text(t)));
        value
    }

    /// An object without members.
    pub fn empty_object() -> (value: Json)
        ensures
            value@ == JsonView::Object(Map::empty()),
    {
        let members: StringMap<Json> = StringMap::new();
        proof {
            members_view_is_map(members);
            assert(members_view(members.entries@) =~= Map::empty());
        }
        Json::Object(members)
    }

    /// The object with `value` under `key`.
    pub fn with_member(self, key: &str, value: Json) -> (out: Json)
        requires
            self@ is Object,
        ensures
            out@ == JsonView::Object(self@->Object_0.insert(key@, value@)),
    {
        match self {
            Json::Object(old_members) => {
                let mut members = old_members;
                let ghost before = members;
                proof {
                    members_view_is_map(members);
                }
                members.insert(key.to_string(), value);
                proof {
                    members_view_is_map(members);
                    assert(members_view(members.entries@) =~= members_view(
                        before.entries@,
                    ).insert(key@, value@));
                }
                Json::Object(members)
            },
            other => other,
        }
    }
}

/// A list of texts as a value.
pub open spec fn texts_json(texts: Seq<Seq<char>>) -> JsonView {
    JsonView::Array(texts.map_values(|t: Seq<char>| JsonView::Text(t)))
}

/// A text, or null where there is none, as a value.
pub open spec fn optional_text_json(text: Option<Seq<char>>) -> JsonView {
    match text {
        Some(text) => JsonView::Text(text),
        None => JsonView::Null,
    }
}

/// The texts among the items of an array.
pub open spec fn strings_in(items: Seq<JsonView>) -> Seq<Seq<char>>
    decreases items.len(),
{
    if items.len() == 0 {
        seq![]
    } else {
        match items.last().string() {
            Some(text) => strings_in(items.drop_last()).push(text),
            None => strings_in(items.drop_last()),
        }
    }
}

impl Json {
    /// The texts among the items, where the value is an array.
    pub fn array_strings(&self) -> (out: Option<Vec<String>>)
        ensures
            match out {
                Some(out) => self@ is Array && views(out@) == strings_in(self@->Array_0),
                None => !(self@ is Array),
            },
    {
        match self {
            Json::Array(items) => {
                let mut out: Vec<String> = Vec::new();
                let ghost all = items_view(items@);
                proof {
                    items_view_says(items@);
                }
                assert(views(out@) =~= strings_in(all.take(0)));
                for i in 0..items.len()
                    invariant
                        all == items_view(items@),
                        all.len() == items@.len(),
                        forall|j: int| 0 <= j < all.len() ==> #[trigger] all[j] == items@[j]@,
                        views(out@) == strings_in(all.take(i as int)),
                {
                    let ghost before = views(out@);
                    assert(all.take(i + 1).drop_last() =~= all.take(i as int));
                    assert(all[i as int] == items@[i as int]@);
                    if let Some(text) = items[i].as_str() {
                        out.push(text.to_string());
                        assert(views(out@) =~= before.push(text@));
                    }
                }
                assert(all.take(items@.len() as int) =~= all);
                Some(out)
            },
            _ => None,
        }
    }
}

impl Json {
    /// A copy of the value.
    pub fn copy(&self) -> (out: Json)
        ensures
            out@ == self@,
        decreases self,
    {
        match self {
            Json::Null => Json::Null,
            Json::Bool(b) => Json::Bool(*b),
            Json::Number(n) => Json::Number(n.clone()),
            Json::Text(t) => Json::Text(t.clone()),
            Json::Array(items) => {
                let mut copies: Vec<Json> = Vec::new();
                for i in 0..items.len()
                    invariant
                        self == Json::Array(*items),
                        copies@.len() == i,
                        forall|j: int| 0 <= j < i ==> #[trigger] copies@[j]@ == items@[j]@,
                {
                    assert(decreases_to!(*self => self->Array_0));
                    assert(decreases_to!(*items => items@));
                    assert(decreases_to!(items@ => items@[i as int]));
                    copies.push(items[i].copy());
                }
                proof {
                    items_view_says(items@);
                    items_view_says(copies@);
                    assert(items_view(copies@) =~= items_view(items@));
                }
                Json::Array(copies)
            },
            Json::Object(members) => {
                let mut copies: StringMap<Json> = StringMap::new();
                let ghost all = members.entries@;
                proof {
                    members_view_is_items_map(all.take(0));
                }
                for i in 0..members.entries.len()
                    invariant
                        self == Json::Object(*members),
                        all == members.entries@,
                        copies@.dom() == items_map(all.take(i as int)).dom(),
                        forall|k: Seq<char>| #[trigger]
                            copies@.contains_key(k) ==> copies@[k]@ == items_map(
                                all.take(i as int),
                            )[k]@,
                {
                    assert(all.take(i + 1).drop_last() =~= all.take(i as int));
                    let key = members.entries[i].0.clone();
                    assert(decreases_to!(*self => self->Object_0));
                    assert(decreases_to!(*members => members.entries));
                    assert(decreases_to!(members.entries => members.entries@));
                    assert(decreases_to!(all => all[i as int]));
                    assert(decreases_to!(all[i as int] => all[i as int].1));
                    let value = members.entries[i].1.copy();
                    copies.insert(key, value);
                    assert(copies@.dom() =~= items_map(all.take(i + 1)).dom());
                }
                proof {
                    assert(all.take(all.len() as int) =~= all);
                    members_view_is_items_map(all);
                    members_view_is_map(copies);
                    assert(members_view(copies.entries@) =~= members_view(all));
                }
                Json::Object(copies)
            },
        }
    }
}

// ---------------------------------------------------------------------------
// serde_json
// ---------------------------------------------------------------------------

/// What a `serde_json::Value` says.
pub uninterp spec fn value_view(value: serde_json::Value) -> JsonView;

/// The text that `serde_json` prints for a value on one line.
pub uninterp spec fn printed(value: JsonView) -> Seq<char>;

/// The indented text that `serde_json` prints for a value, where it prints one.
pub uninterp spec fn printed_pretty(value: JsonView) -> Option<Seq<char>>;

/// What `serde_json` reads in a text: a value, or the message of its error.
pub uninterp spec fn parsed(text: Seq<char>) -> Result<JsonView, Seq<char>>;

/// The top level of a `serde_json::Value`.
pub enum ValueParts {
    Null,
    Bool(bool),
    Number(serde_json::Number),
    Text(String),
    Array(Vec<serde_json::Value>),
    Object(Vec<(String, serde_json::Value)>),
}

/// The members of an object have different keys.
pub open spec fn keys_differ(members: Seq<(String, serde_json::Value)>) -> bool {
    forall|i: int, j: int|
        0 <= i < j < members.len() ==> #[trigger] members[i].0@ != #[trigger] members[j].0@
}

/// `parts` are the top level of a value that says `view`.
pub open spec fn parts_say(parts: ValueParts, view: JsonView) -> bool {
    match parts {
        ValueParts::Null => view is Null,
        ValueParts::Bool(b) => view == JsonView::Bool(b),
        ValueParts::Number(n) => view == JsonView::Number(n),
        ValueParts::Text(t) => view == JsonView::Text(t@),
        ValueParts::Array(items) => view is Array && view->Array_0 == items@.map_values(
            |v: serde_json::Value| value_view(v),
        ),
        ValueParts::Object(members) => {
            &&& view is Object
            &&& forall|k: Seq<char>|
                view->Object_0.contains_key(k) <==> exists|i: int|
                    0 <= i < members@.len() && #[trigger] members@[i].0@ == k
            &&& forall|i: int|
                0 <= i < members@.len() ==> view->Object_0[#[trigger] members@[i].0@]
                    == value_view(members@[i].1)
        },
    }
}

/// Takes a `serde_json::Value` apart at its top level, variant for variant.
#[verifier::external_body]
fn value_parts(value: serde_json::Value) -> (out: ValueParts)
    ensures
        parts_say(out, value_view(value)),
{
    match value {
        serde_json::Value::Null => ValueParts::Null,
        serde_json::Value::Bool(b) => ValueParts::Bool(b),
        serde_json::Value::Number(n) => ValueParts::Number(n),
        serde_json::Value::String(t) => ValueParts::Text(t),
        serde_json::Value::Array(items) => ValueParts::Array(items),
        serde_json::Value::Object(members) => ValueParts::Object(members.into_iter().collect()),
    }
}

/// Puts a `serde_json::Value` together from its top level, variant for variant. Two members of one
/// name would become one, so there are none.
#[verifier::external_body]
fn value_of_parts(parts: ValueParts) -> (out: serde_json::Value)
    requires
        parts matches ValueParts::Object(members) ==> keys_differ(members@),
    ensures
        parts_say(parts, value_view(out)),
{
    match parts {
        ValueParts::Null => serde_json::Value::Null,
        ValueParts::Bool(b) => serde_json::Value::Bool(b),
        ValueParts::Number(n) => serde_json::Value::Number(n),
        ValueParts::Text(t) => serde_json::Value::String(t),
        ValueParts::Array(items) => serde_json::Value::Array(items),
        ValueParts::Object(members) => serde_json::Value::Object(members.into_iter().collect()),
    }
}

/// A member of a `serde_json::Value` says what a member of a value says.
spec fn member_says(member: (String, serde_json::Value), item: (String, Json)) -> bool {
    member.0@ == item.0@ && value_view(member.1) == item.1@
}

/// The `serde_json::Value` that stands for a value.
fn to_value(json: &Json) -> (out: serde_json::Value)
    ensures
        value_view(out) == json@,
    decreases json,
{
    match json {
        Json::Null => value_of_parts(ValueParts::Null),
        Json::Bool(b) => value_of_parts(ValueParts::Bool(*b)),
        Json::Number(n) => value_of_parts(ValueParts::Number(n.clone())),
        Json::Text(t) => value_of_parts(ValueParts::Text(t.clone())),
        Json::Array(items) => {
            let mut values: Vec<serde_json::Value> = Vec::new();
            for i in 0..items.len()
                invariant
                    json == Json::Array(*items),
                    values@.len() == i,
                    forall|j: int| 0 <= j < i ==> value_view(#[trigger] values@[j]) == items@[j]@,
            {
                assert(decreases_to!(*json => json->Array_0));
                assert(decreases_to!(*items => items@));
                assert(decreases_to!(items@ => items@[i as int]));
                values.push(to_value(&items[i]));
            }
            proof {
                items_view_says(items@);
            }
            assert(values@.map_values(|v: serde_json::Value| value_view(v)) =~= items_view(items@));
            value_of_parts(ValueParts::Array(values))
        },
        Json::Object(members) => {
            let entries = members.as_items();
            let ghost all = entries@;
            proof {
                members.items_are_entries();
                items_map_holds_items(all);
                members_view_is_map(*members);
            }
            let mut values: Vec<(String, serde_json::Value)> = Vec::new();
            for i in 0..entries.len()
                invariant
                    json == Json::Object(*members),
                    all == members.entries@,
                    entries@ == all,
                    values@.len() == i,
                    forall|j: int| 0 <= j < i ==> member_says(#[trigger] values@[j], all[j]),
            {
                assert(decreases_to!(*json => json->Object_0));
                assert(decreases_to!(*members => members.entries));
                assert(decreases_to!(members.entries => members.entries@));
                assert(decreases_to!(all => all[i as int]));
                assert(decreases_to!(all[i as int] => all[i as int].1));
                let key = entries[i].0.clone();
                let value = to_value(&entries[i].1);
                assert(member_says((key, value), all[i as int]));
                values.push((key, value));
            }
            proof {
                assert forall|i: int, j: int| 0 <= i < j < values@.len() implies #[trigger] values@[i].0@
                    != #[trigger] values@[j].0@ by {
                    assert(text_less(all[i].0@, all[j].0@));
                    text_less_is_irreflexive(all[i].0@);
                    assert(member_says(values@[i], all[i]) && member_says(values@[j], all[j]));
                }
            }
            let out = value_of_parts(ValueParts::Object(values));
            proof {
                let view = value_view(out)->Object_0;
                let wanted = members_view(members.entries@);
                assert forall|k: Seq<char>| view.contains_key(k) <==> wanted.contains_key(k) by {
                    if view.contains_key(k) {
                        let i = choose|i: int| 0 <= i < values@.len() && #[trigger] values@[i].0@ == k;
                        assert(member_says(values@[i], all[i]));
                        assert(members@.contains_key(all[i].0@));
                    }
                    if wanted.contains_key(k) {
                        let i = choose|i: int| 0 <= i < all.len() && #[trigger] all[i].0@ == k;
                        assert(member_says(values@[i], all[i]));
                        assert(values@[i].0@ == k);
                    }
                }
                assert forall|k: Seq<char>| view.contains_key(k) implies #[trigger] view[k]
                    == wanted[k] by {
                    let i = choose|i: int| 0 <= i < values@.len() && #[trigger] values@[i].0@ == k;
                    assert(member_says(values@[i], all[i]));
                    assert(members@[all[i].0@] == all[i].1);
                }
                assert(view =~= wanted);
            }
            out
        },
    }
}

/// `serde_json::from_str`: the value that `text` writes down, or the message of the error.
#[verifier::external_body]
fn read_value(text: &str) -> (out: Result<serde_json::Value, String>)
    ensures
        match out {
            Ok(value) => parsed(text@) == Ok::<JsonView, Seq<char>>(value_view(value)),
            Err(message) => parsed(text@) == Err::<JsonView, Seq<char>>(message@),
        },
{
    serde_json::from_str(text).map_err(|err| err.to_string())
}

/// `serde_json::Value::to_string`: the value on one line.
#[verifier::external_body]
fn print_value(value: &serde_json::Value) -> (out: String)
    ensures
        out@ == printed(value_view(*value)),
{
    value.to_string()
}

/// `serde_json::to_string_pretty`: the value over several lines, where it can be printed.
#[verifier::external_body]
fn print_value_pretty(value: &serde_json::Value) -> (out: Option<String>)
    ensures
        opt_view(out) == printed_pretty(value_view(*value)),
{
    serde_json::to_string_pretty(value).ok()
}

/// The value as `serde_json` prints it on one line.
pub fn json_text(json: &Json) -> (out: String)
    ensures
        out@ == printed(json@),
{
    print_value(&to_value(json))
}

/// The value as `serde_json` prints it over several lines, or on one where that fails.
pub open spec fn pretty_or_plain(pretty: Option<Seq<char>>, plain: Seq<char>) -> Seq<char> {
    match pretty {
        Some(text) => text,
        None => plain,
    }
}

/// The value as `serde_json` prints it over several lines, or on one where that fails.
pub fn json_pretty_text(json: &Json) -> (out: String)
    ensures
        out@ == pretty_or_plain(printed_pretty(json@), printed(json@)),
{
    let value = to_value(json);
    match print_value_pretty(&value) {
        Some(text) => text,
        None => print_value(&value),
    }
}

/// The value that a `serde_json::Value` stands for.
fn from_value(value: serde_json::Value) -> (out: Json)
    ensures
        out@ == value_view(value),
    decreases value_view(value),
{
    let ghost view = value_view(value);
    match value_parts(value) {
        ValueParts::Null => Json::Null,
        ValueParts::Bool(b) => Json::Bool(b),
        ValueParts::Number(n) => Json::Number(n),
        ValueParts::Text(t) => Json::Text(t),
        ValueParts::Array(list) => {
            let mut rest = list;
            let mut items: Vec<Json> = Vec::new();
            while rest.len() > 0
                invariant
                    view == value_view(value),
                    view is Array,
                    items@.len() + rest@.len() == view->Array_0.len(),
                    forall|j: int| 0 <= j < items@.len() ==> #[trigger] items@[j]@
                        == view->Array_0[j],
                    forall|j: int| 0 <= j < rest@.len() ==> value_view(#[trigger] rest@[j])
                        == view->Array_0[items@.len() + j],
                decreases rest@.len(),
            {
                let ghost before = rest@;
                let item = rest.remove(0);
                assert(item == before[0]);
                assert(value_view(item) == view->Array_0[items@.len() as int]);
                items.push(from_value(item));
                assert forall|j: int| 0 <= j < rest@.len() implies value_view(#[trigger] rest@[j])
                    == view->Array_0[items@.len() + j] by {
                    assert(rest@[j] == before[j + 1]);
                }
            }
            let out = Json::Array(items);
            proof {
                items_view_says(items@);
            }
            assert(items_view(items@) =~= view->Array_0);
            out
        },
        ValueParts::Object(list) => {
            let mut members: StringMap<Json> = StringMap::new();
            let ghost all = list@;
            let mut rest = list;
            let ghost mut done: int = 0;
            while rest.len() > 0
                invariant
                    view == value_view(value),
                    view is Object,
                    0 <= done <= all.len(),
                    rest@ == all.skip(done),
                    forall|j: int|
                        0 <= j < all.len() ==> view->Object_0[#[trigger] all[j].0@] == value_view(
                            all[j].1,
                        ) && view->Object_0.contains_key(all[j].0@),
                    forall|k: Seq<char>|
                        members@.contains_key(k) <==> exists|j: int|
                            0 <= j < done && #[trigger] all[j].0@ == k,
                    forall|k: Seq<char>| #[trigger]
                        members@.contains_key(k) ==> members@[k]@ == view->Object_0[k],
                decreases rest@.len(),
            {
                let ghost before = members@;
                let (key, item) = rest.remove(0);
                assert((key, item) == all[done]);
                assert(value_view(item) == view->Object_0[all[done].0@]);
                let ghost k0 = key@;
                members.insert(key, from_value(item));
                proof {
                    assert forall|k: Seq<char>| members@.contains_key(k) <==> exists|j: int|
                        0 <= j < done + 1 && #[trigger] all[j].0@ == k by {
                        if k == k0 {
                            assert(all[done].0@ == k);
                        } else if before.contains_key(k) {
                            let j = choose|j: int| 0 <= j < done && #[trigger] all[j].0@ == k;
                            assert(all[j].0@ == k);
                        }
                    }
                    done = done + 1;
                    assert(rest@ =~= all.skip(done));
                }
            }
            proof {
                members_view_is_map(members);
                assert(members_view(members.entries@) =~= view->Object_0);
            }
            Json::Object(members)
        },
    }
}

/// The value that `text` writes down, or the message of the error.
pub fn parse_json(text: &str) -> (out: Result<Json, String>)
    ensures
        match out {
            Ok(value) => parsed(text@) == Ok::<JsonView, Seq<char>>(value@),
            Err(message) => parsed(text@) == Err::<JsonView, Seq<char>>(message@),
        },
{
    match read_value(text) {
        Ok(value) => Ok(from_value(value)),
        Err(message) => Err(message),
    }
}

} // verus!
