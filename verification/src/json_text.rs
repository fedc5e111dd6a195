//! JSON text: parsing a text into a value and printing a value as text.

use crate::json::{entries_view, items_view, number_int, number_view, outcome_view, Json, JsonView};
use crate::text::{cat2, text_eq};
use vstd::prelude::*;

verus! {

/// What a value of the JSON crate holds.
pub uninterp spec fn value_view(value: serde_json::Value) -> JsonView;

/// What the JSON crate reads in a text: the value, or the message of its error.
pub uninterp spec fn parsed_text(text: Seq<char>) -> Result<JsonView, Seq<char>>;

/// The indented text that the JSON crate prints for a value, unless it reports an error.
pub uninterp spec fn pretty_text(json: JsonView) -> Option<Seq<char>>;

/// The compact text that the JSON crate prints for a value, or the message of its error.
pub uninterp spec fn compact_text(json: JsonView) -> Result<Seq<char>, Seq<char>>;

/// The text with which the JSON crate displays a value.
pub uninterp spec fn display_text(json: JsonView) -> Seq<char>;

/// One level of a value of the JSON crate.
pub enum ValueNode {
    Null,
    Bool(bool),
    Number(serde_json::Number),
    Text(String),
    Array(Vec<serde_json::Value>),
    Object(Vec<(String, serde_json::Value)>),
}

/// The values of the items of an array.
pub open spec fn node_items(items: Seq<serde_json::Value>) -> Seq<JsonView> {
    items.map_values(|value: serde_json::Value| value_view(value))
}

/// The map that the entries of an object make.
pub open spec fn node_entries(entries: Seq<(String, serde_json::Value)>) -> Map<
    Seq<char>,
    JsonView,
>
    decreases entries.len(),
{
    if entries.len() == 0 {
        Map::empty()
    } else {
        node_entries(entries.drop_last()).insert(
            entries.last().0@,
            value_view(entries.last().1),
        )
    }
}

/// Whether no two entries have the same name.
pub open spec fn distinct_names(entries: Seq<(String, serde_json::Value)>) -> bool {
    forall|i: int, j: int|
        0 <= i < j < entries.len() ==> (#[trigger] entries[i]).0@ != (#[trigger] entries[j]).0@
}

/// The value that one level stands for.
pub open spec fn node_view(node: ValueNode) -> JsonView {
    match node {
        ValueNode::Null => JsonView::Null,
        ValueNode::Bool(b) => JsonView::Bool(b),
        ValueNode::Number(n) => number_view(n),
        ValueNode::Text(s) => JsonView::Text(s@),
        ValueNode::Array(items) => JsonView::Array(node_items(items@)),
        ValueNode::Object(entries) => JsonView::Object(node_entries(entries@)),
    }
}

/// Takes a `serde_json::Value` apart. The variants correspond one to one; the map of an
/// object gives each of its entries once.
#[verifier::external_body]
fn open_value(value: serde_json::Value) -> (node: ValueNode)
    ensures
        node_view(node) == value_view(value),
        node is Object ==> distinct_names(node->Object_0@),
{
    match value {
        serde_json::Value::Null => ValueNode::Null,
        serde_json::Value::Bool(b) => ValueNode::Bool(b),
        serde_json::Value::Number(n) => ValueNode::Number(n),
        serde_json::Value::String(s) => ValueNode::Text(s),
        serde_json::Value::Array(items) => ValueNode::Array(items),
        serde_json::Value::Object(map) => ValueNode::Object(map.into_iter().collect()),
    }
}

/// Makes a `serde_json::Value` of one level. The variants correspond one to one; entries
/// with different names all stay in the map of an object.
#[verifier::external_body]
fn close_value(node: ValueNode) -> (value: serde_json::Value)
    requires
        node is Object ==> distinct_names(node->Object_0@),
    ensures
        value_view(value) == node_view(node),
{
    match node {
        ValueNode::Null => serde_json::Value::Null,
        ValueNode::Bool(b) => serde_json::Value::Bool(b),
        ValueNode::Number(n) => serde_json::Value::Number(n),
        ValueNode::Text(s) => serde_json::Value::String(s),
        ValueNode::Array(items) => serde_json::Value::Array(items),
        ValueNode::Object(entries) => serde_json::Value::Object(entries.into_iter().collect()),
    }
}

/// `Number::from` of an unsigned integer is the number that is that integer.
#[verifier::external_body]
fn unsigned_number(n: u64) -> (number: serde_json::Number)
    ensures
        number_int(number) == Some(n as int),
{
    serde_json::Number::from(n)
}

/// `Number::from` of a signed integer is the number that is that integer.
#[verifier::external_body]
fn signed_number(n: i64) -> (number: serde_json::Number)
    ensures
        number_int(number) == Some(n as int),
{
    serde_json::Number::from(n)
}

/// A parse result as what it says.
pub open spec fn parse_view(parsed: Result<serde_json::Value, String>) -> Result<
    JsonView,
    Seq<char>,
> {
    match parsed {
        Ok(value) => Ok(value_view(value)),
        Err(message) => Err(message@),
    }
}

/// `serde_json::from_str` reads a text as a `serde_json::Value`; its error is taken by the
/// message with which it displays itself. What it reads depends on the text alone.
#[verifier::external_body]
fn parse_value(text: &str) -> (parsed: Result<serde_json::Value, String>)
    ensures
        parse_view(parsed) == parsed_text(text@),
{
    serde_json::from_str::<serde_json::Value>(text).map_err(|error| error.to_string())
}

/// An optional text as its characters.
pub open spec fn string_view(text: Option<String>) -> Option<Seq<char>> {
    match text {
        Some(text) => Some(text@),
        None => None,
    }
}

/// A printing result as its characters.
pub open spec fn print_view(printed: Result<String, String>) -> Result<Seq<char>, Seq<char>> {
    match printed {
        Ok(text) => Ok(text@),
        Err(message) => Err(message@),
    }
}

/// `serde_json::to_string_pretty` prints a value with indentation. What it prints depends on
/// what the value holds.
#[verifier::external_body]
fn pretty_value(value: &serde_json::Value) -> (printed: Option<String>)
    ensures
        string_view(printed) == pretty_text(value_view(*value)),
{
    serde_json::to_string_pretty(value).ok()
}

/// `serde_json::to_string` prints a value compactly; its error is taken by the message with
/// which it displays itself. What it prints depends on what the value holds.
#[verifier::external_body]
fn compact_value(value: &serde_json::Value) -> (printed: Result<String, String>)
    ensures
        print_view(printed) == compact_text(value_view(*value)),
{
    serde_json::to_string(value).map_err(|error| error.to_string())
}

/// The `Display` of a `serde_json::Value`. What it shows depends on what the value holds.
#[verifier::external_body]
fn display_value(value: &serde_json::Value) -> (shown: String)
    ensures
        shown@ == display_text(value_view(*value)),
{
    value.to_string()
}

/// The entries of an object with different names are each in its map.
proof fn lemma_node_entries(entries: Seq<(String, serde_json::Value)>)
    requires
        distinct_names(entries),
    ensures
        node_entries(entries).dom().finite(),
        forall|i: int|
            0 <= i < entries.len() ==> node_entries(entries).dom().contains(
                (#[trigger] entries[i]).0@,
            ) && node_entries(entries)[entries[i].0@] == value_view(entries[i].1),
    decreases entries.len(),
{
    if entries.len() > 0 {
        let rest = entries.drop_last();
        assert forall|i: int, j: int| 0 <= i < j < rest.len() implies (#[trigger] rest[i]).0@ != (
        #[trigger] rest[j]).0@ by {
            assert(entries[i].0@ != entries[j].0@);
        }
        lemma_node_entries(rest);
        assert forall|i: int| 0 <= i < entries.len() implies node_entries(entries).dom().contains(
            (#[trigger] entries[i]).0@,
        ) && node_entries(entries)[entries[i].0@] == value_view(entries[i].1) by {
            if i < entries.len() - 1 {
                assert(rest[i] == entries[i]);
                assert(entries[i].0@ != entries[entries.len() - 1].0@);
            }
        }
    }
}

/// Turns a value of the JSON crate into the library's tree.
pub fn json_of_value(value: serde_json::Value) -> (json: Json)
    ensures
        json@ == value_view(value),
    decreases value_view(value),
{
    let ghost whole = value_view(value);
    match open_value(value) {
        ValueNode::Null => Json::Null,
        ValueNode::Bool(b) => Json::Bool(b),
        ValueNode::Number(n) => Json::Number(n),
        ValueNode::Text(s) => Json::Text(s),
        ValueNode::Array(items) => {
            let ghost all = items@;
            let mut json: Vec<Json> = Vec::new();
            for item in it: items
                invariant
                    it.seq() == all,
                    whole == value_view(value),
                    whole == JsonView::Array(node_items(all)),
                    json@.len() == it.index(),
                    items_view(json@) == node_items(all).take(it.index() as int),
            {
                let ghost k = it.index() as int;
                assert(item == all[k]);
                assert(decreases_to!(whole => whole->Array_0));
                assert(decreases_to!(whole->Array_0 => whole->Array_0[k]));
                assert(node_items(all)[k] == value_view(item));
                let ghost before = json@;
                json.push(json_of_value(item));
                assert(json@.drop_last() == before);
                assert(node_items(all).take(k + 1) == node_items(all).take(k).push(
                    node_items(all)[k],
                ));
            }
            assert(node_items(all).take(json@.len() as int) == node_items(all));
            Json::Array(json)
        },
        ValueNode::Object(entries) => {
            let ghost all = entries@;
            let mut json: Vec<(String, Json)> = Vec::new();
            assert(all.take(0).len() == 0);
            for entry in it: entries
                invariant
                    it.seq() == all,
                    whole == value_view(value),
                    whole == JsonView::Object(node_entries(all)),
                    distinct_names(all),
                    json@.len() == it.index(),
                    entries_view(json@) == node_entries(all.take(it.index() as int)),
            {
                let ghost k = it.index() as int;
                proof {
                    lemma_node_entries(all);
                }
                assert(entry == all[k]);
                assert(decreases_to!(whole => whole->Object_0));
                assert(decreases_to!(whole->Object_0 => whole->Object_0[entry.0@]));
                let ghost before = json@;
                let (name, item) = entry;
                json.push((name, json_of_value(item)));
                assert(json@.drop_last() == before);
                assert(all.take(k + 1).drop_last() == all.take(k));
            }
            assert(all.take(json@.len() as int) == all);
            Json::Object(json)
        },
    }
}

/// A name is in the map of some entries exactly where one of them has it.
proof fn lemma_node_names(entries: Seq<(String, serde_json::Value)>, name: Seq<char>)
    ensures
        node_entries(entries).dom().contains(name) <==> exists|i: int|
            0 <= i < entries.len() && (#[trigger] entries[i]).0@ == name,
    decreases entries.len(),
{
    if entries.len() > 0 {
        let rest = entries.drop_last();
        lemma_node_names(rest, name);
        if node_entries(entries).dom().contains(name) {
            if name == entries.last().0@ {
                assert(entries[entries.len() - 1].0@ == name);
            } else {
                let i = choose|i: int| 0 <= i < rest.len() && (#[trigger] rest[i]).0@ == name;
                assert(entries[i].0@ == name);
            }
        }
        if exists|i: int| 0 <= i < entries.len() && (#[trigger] entries[i]).0@ == name {
            let i = choose|i: int| 0 <= i < entries.len() && (#[trigger] entries[i]).0@ == name;
            if i < entries.len() - 1 {
                assert(rest[i].0@ == name);
            }
        }
    }
}

/// Whether one of some entries has a name.
fn has_name(entries: &Vec<(String, serde_json::Value)>, name: &str) -> (found: bool)
    ensures
        found == node_entries(entries@).dom().contains(name@),
{
    proof {
        lemma_node_names(entries@, name@);
    }
    let mut i: usize = 0;
    while i < entries.len()
        invariant
            i <= entries@.len(),
            forall|j: int| 0 <= j < i ==> (#[trigger] entries@[j]).0@ != name@,
        decreases entries@.len() - i,
    {
        if text_eq(entries[i].0.as_str(), name) {
            proof {
                lemma_node_names(entries@, name@);
                assert(entries@[i as int].0@ == name@);
            }
            return true;
        }
        i += 1;
    }
    false
}

/// Turns the library's tree into a value of the JSON crate.
pub fn value_of_json(json: &Json) -> (value: serde_json::Value)
    ensures
        value_view(value) == json@,
    decreases json,
{
    let node = match json {
        Json::Null => ValueNode::Null,
        Json::Bool(b) => ValueNode::Bool(*b),
        Json::Unsigned(n) => ValueNode::Number(unsigned_number(*n)),
        Json::Signed(n) => ValueNode::Number(signed_number(*n)),
        Json::Number(n) => ValueNode::Number(n.clone()),
        Json::Text(s) => ValueNode::Text(s.clone()),
        Json::Array(items) => {
            let mut values: Vec<serde_json::Value> = Vec::new();
            let mut i: usize = 0;
            while i < items.len()
                invariant
                    i <= items@.len(),
                    decreases_to!(json => items@),
                    node_items(values@) == items_view(items@.take(i as int)),
                decreases items@.len() - i,
            {
                assert(decreases_to!(items@ => items@[i as int]));
                let ghost before = values@;
                values.push(value_of_json(&items[i]));
                assert(items@.take(i + 1).drop_last() == items@.take(i as int));
                assert(node_items(values@) == node_items(before).push(items@[i as int]@));
                i += 1;
            }
            assert(items@.take(items@.len() as int) == items@);
            ValueNode::Array(values)
        },
        Json::Object(entries) => {
            let mut values: Vec<(String, serde_json::Value)> = Vec::new();
            let mut i: usize = entries.len();
            assert(entries@.take(i as int) == entries@);
            assert(entries_view(entries@).union_prefer_right(Map::empty()) == entries_view(
                entries@,
            ));
            while i > 0
                invariant
                    i <= entries@.len(),
                    decreases_to!(json => entries@),
                    distinct_names(values@),
                    entries_view(entries@) == entries_view(
                        entries@.take(i as int),
                    ).union_prefer_right(node_entries(values@)),
                decreases i,
            {
                i -= 1;
                let ghost earlier = entries_view(entries@.take(i as int));
                let ghost chosen = node_entries(values@);
                let entry = &entries[i];
                assert(entries@.take(i + 1).drop_last() == entries@.take(i as int));
                if has_name(&values, entry.0.as_str()) {
                    assert(earlier.insert(entry.0@, entry.1@).union_prefer_right(chosen)
                        == earlier.union_prefer_right(chosen));
                } else {
                    assert(decreases_to!(entries@ => entries@[i as int]));
                    let ghost before = values@;
                    values.push((entry.0.clone(), value_of_json(&entry.1)));
                    proof {
                        lemma_node_names(before, entry.0@);
                        assert(values@.drop_last() == before);
                        assert forall|a: int, b: int| 0 <= a < b < values@.len() implies (
                        #[trigger] values@[a]).0@ != (#[trigger] values@[b]).0@ by {
                            assert(values@[a] == before[a]);
                            if b < before.len() {
                                assert(values@[b] == before[b]);
                            }
                        }
                    }
                    assert(earlier.insert(entry.0@, entry.1@).union_prefer_right(chosen)
                        == earlier.union_prefer_right(chosen.insert(entry.0@, entry.1@)));
                }
            }
            assert(entries@.take(0).len() == 0);
            assert(Map::<Seq<char>, JsonView>::empty().union_prefer_right(node_entries(values@))
                == node_entries(values@));
            ValueNode::Object(values)
        },
    };
    close_value(node)
}

/// Reads a text as JSON.
pub fn parse_json(text: &str) -> (parsed: Result<Json, String>)
    ensures
        outcome_view(parsed) == parsed_text(text@),
{
    match parse_value(text) {
        Ok(value) => Ok(json_of_value(value)),
        Err(message) => Err(message),
    }
}

/// The text that shows a value to a reader: indented where that can be printed.
pub open spec fn shown_text(json: JsonView) -> Seq<char> {
    match pretty_text(json) {
        Some(text) => text,
        None => display_text(json),
    }
}

/// Prints a value for a reader.
pub fn pretty_json(json: &Json) -> (text: String)
    ensures
        text@ == shown_text(json@),
{
    let value = value_of_json(json);
    match pretty_value(&value) {
        Some(text) => text,
        None => display_value(&value),
    }
}

/// Prints a value compactly.
pub fn compact_json(json: &Json) -> (printed: Result<String, String>)
    ensures
        print_view(printed) == compact_text(json@),
{
    compact_value(&value_of_json(json))
}

/// The line that a value is sent as.
pub fn json_line(json: &Json) -> (line: Result<String, String>)
    ensures
        print_view(line) == match compact_text(json@) {
            Ok(text) => Ok::<Seq<char>, Seq<char>>(text + "\n"@),
            Err(message) => Err(message),
        },
{
    match compact_json(json) {
        Ok(text) => Ok(cat2(text.as_str(), "\n")),
        Err(message) => Err(message),
    }
}

/// A value is shown with indentation where it can be printed so, and else as it displays itself.
pub proof fn law_values_are_shown(json: JsonView)
    ensures
        pretty_text(json) matches Some(text) ==> shown_text(json) == text,
        pretty_text(json) is None ==> shown_text(json) == display_text(json),
{
}

/// What is read or printed says its value, its text or the reason why there is none.
pub proof fn law_readings_say_what_they_hold(
    parsed: Result<serde_json::Value, String>,
    text: Option<String>,
    printed: Result<String, String>,
)
    ensures
        parsed matches Ok(value) ==> parse_view(parsed) == Ok::<JsonView, Seq<char>>(
            value_view(value),
        ),
        parsed matches Err(message) ==> parse_view(parsed) == Err::<JsonView, Seq<char>>(message@),
        text matches Some(found) ==> string_view(text) == Some(found@),
        text is None ==> string_view(text) is None,
        printed matches Ok(line) ==> print_view(printed) == Ok::<Seq<char>, Seq<char>>(line@),
        printed matches Err(message) ==> print_view(printed) == Err::<Seq<char>, Seq<char>>(
            message@,
        ),
{
}

} // verus!
