//! JSON values: the library's own tree, how its objects are read and built,
//! and the calls that turn it into text and back.

use crate::text::text_eq;
use vstd::prelude::*;

verus! {

/// A number of the JSON crate, as it comes out of parsed text.
#[verifier::external_type_specification]
#[verifier::external_body]
pub struct ExNumber(serde_json::Number);

/// A value of the JSON crate: what its parser gives and its printers take.
#[verifier::external_type_specification]
#[verifier::external_body]
pub struct ExValue(serde_json::Value);

/// The integer that a number of the JSON crate is, where it is one: a number that was
/// written with a fraction or an exponent, or that is out of range, is none.
pub uninterp spec fn number_int(number: serde_json::Number) -> Option<int>;

/// Cloning a number of the JSON crate gives the same number.
pub assume_specification[ <serde_json::Number as Clone>::clone ](
    number: &serde_json::Number,
) -> (copy: serde_json::Number)
    ensures
        copy == *number,
;

/// `Number::as_u64` gives the integer that the number is, where it fits in 64 unsigned bits.
pub assume_specification[ serde_json::Number::as_u64 ](
    number: &serde_json::Number,
) -> (unsigned: Option<u64>)
    ensures
        unsigned == unsigned_of(number_int(*number)),
;

/// An integer as 64 unsigned bits, where it fits.
pub open spec fn unsigned_of(n: Option<int>) -> Option<u64> {
    match n {
        Some(i) => if 0 <= i <= u64::MAX {
            Some(i as u64)
        } else {
            None
        },
        None => None,
    }
}

/// A JSON value.
///
/// The entries of an object are kept in a list; where a name occurs twice, the later entry
/// is the one that counts.
#[derive(Debug, PartialEq)]
pub enum Json {
    Null,
    Bool(bool),
    Unsigned(u64),
    Signed(i64),
    Number(serde_json::Number),
    Text(String),
    Array(Vec<Json>),
    Object(Vec<(String, Json)>),
}

/// What a JSON value says: an integer is a number whatever it was made from, and an object
/// is a map.
#[verifier::ext_equal]
pub enum JsonView {
    Null,
    Bool(bool),
    Int(int),
    Real(serde_json::Number),
    Text(Seq<char>),
    Array(Seq<JsonView>),
    Object(Map<Seq<char>, JsonView>),
}

impl JsonView {
    /// The entry of an object under a name. Other values have no entries.
    pub open spec fn field(self, name: Seq<char>) -> Option<JsonView> {
        match self {
            JsonView::Object(map) => if map.dom().contains(name) {
                Some(map[name])
            } else {
                None
            },
            _ => None,
        }
    }

    /// The text that a value is, if it is one.
    pub open spec fn as_text(self) -> Option<Seq<char>> {
        match self {
            JsonView::Text(s) => Some(s),
            _ => None,
        }
    }

    /// The truth value that a value is, if it is one.
    pub open spec fn as_bool(self) -> Option<bool> {
        match self {
            JsonView::Bool(b) => Some(b),
            _ => None,
        }
    }

    /// The unsigned 64-bit integer that a value is, if it is one.
    pub open spec fn as_u64(self) -> Option<u64> {
        match self {
            JsonView::Int(i) => unsigned_of(Some(i)),
            _ => None,
        }
    }

    /// The text under a name, if the value is an object with a text there.
    pub open spec fn text_field(self, name: Seq<char>) -> Option<Seq<char>> {
        match self.field(name) {
            Some(value) => value.as_text(),
            None => None,
        }
    }

    /// The entry under a path of two names.
    pub open spec fn field2(self, outer: Seq<char>, inner: Seq<char>) -> Option<JsonView> {
        match self.field(outer) {
            Some(value) => value.field(inner),
            None => None,
        }
    }
}

/// What a number of the JSON crate says.
pub open spec fn number_view(number: serde_json::Number) -> JsonView {
    match number_int(number) {
        Some(i) => JsonView::Int(i),
        None => JsonView::Real(number),
    }
}

/// The value that a tree stands for.
pub open spec fn json_view(json: Json) -> JsonView
    decreases json,
{
    match json {
        Json::Null => JsonView::Null,
        Json::Bool(b) => JsonView::Bool(b),
        Json::Unsigned(n) => JsonView::Int(n as int),
        Json::Signed(n) => JsonView::Int(n as int),
        Json::Number(n) => number_view(n),
        Json::Text(s) => JsonView::Text(s@),
        Json::Array(items) => JsonView::Array(items_view(items@)),
        Json::Object(entries) => JsonView::Object(entries_view(entries@)),
    }
}

/// The values of an array.
pub open spec fn items_view(items: Seq<Json>) -> Seq<JsonView>
    decreases items,
{
    if items.len() == 0 {
        Seq::empty()
    } else {
        items_view(items.drop_last()).push(json_view(items.last()))
    }
}

/// The map that a list of entries stands for: a later entry replaces an earlier one.
pub open spec fn entries_view(entries: Seq<(String, Json)>) -> Map<Seq<char>, JsonView>
    decreases entries,
{
    if entries.len() == 0 {
        Map::empty()
    } else {
        entries_view(entries.drop_last()).insert(entries.last().0@, json_view(entries.last().1))
    }
}

impl View for Json {
    type V = JsonView;

    open spec fn view(&self) -> JsonView {
        json_view(*self)
    }
}

/// An array has one value for each item, in the same place.
pub proof fn lemma_items_view(items: Seq<Json>)
    ensures
        items_view(items).len() == items.len(),
        forall|i: int| 0 <= i < items.len() ==> #[trigger] items_view(items)[i] == items[i]@,
    decreases items.len(),
{
    if items.len() > 0 {
        lemma_items_view(items.drop_last());
        assert forall|i: int| 0 <= i < items.len() implies #[trigger] items_view(items)[i]
            == items[i]@ by {
            if i < items.len() - 1 {
                assert(items_view(items)[i] == items_view(items.drop_last())[i]);
                assert(items.drop_last()[i] == items[i]);
            }
        }
    }
}

impl Clone for Json {
    fn clone(&self) -> (copy: Self)
        ensures
            copy@ == self@,
        decreases self,
    {
        match self {
            Json::Null => Json::Null,
            Json::Bool(b) => Json::Bool(*b),
            Json::Unsigned(n) => Json::Unsigned(*n),
            Json::Signed(n) => Json::Signed(*n),
            Json::Number(n) => Json::Number(n.clone()),
            Json::Text(s) => Json::Text(s.clone()),
            Json::Array(items) => {
                let mut copy: Vec<Json> = Vec::new();
                let mut i: usize = 0;
                while i < items.len()
                    invariant
                        i <= items@.len(),
                        items_view(copy@) == items_view(items@.take(i as int)),
                        decreases_to!(self => items@),
                    decreases items@.len() - i,
                {
                    assert(decreases_to!(items@ => items@[i as int]));
                    let item = items[i].clone();
                    let ghost before = copy@;
                    copy.push(item);
                    assert(copy@.drop_last() == before);
                    assert(items@.take(i + 1).drop_last() == items@.take(i as int));
                    i += 1;
                }
                assert(items@.take(items@.len() as int) == items@);
                Json::Array(copy)
            },
            Json::Object(entries) => {
                let mut copy: Vec<(String, Json)> = Vec::new();
                let mut i: usize = 0;
                while i < entries.len()
                    invariant
                        i <= entries@.len(),
                        entries_view(copy@) == entries_view(entries@.take(i as int)),
                        decreases_to!(self => entries@),
                    decreases entries@.len() - i,
                {
                    assert(decreases_to!(entries@ => entries@[i as int]));
                    let entry = &entries[i];
                    let item = (entry.0.clone(), entry.1.clone());
                    let ghost before = copy@;
                    copy.push(item);
                    assert(copy@.drop_last() == before);
                    assert(entries@.take(i + 1).drop_last() == entries@.take(i as int));
                    i += 1;
                }
                assert(entries@.take(entries@.len() as int) == entries@);
                Json::Object(copy)
            },
        }
    }
}

/// An optional value as what it says.
pub open spec fn option_view(value: Option<&Json>) -> Option<JsonView> {
    match value {
        Some(json) => Some(json@),
        None => None,
    }
}

/// An optional text as its characters.
pub open spec fn text_view(value: Option<&str>) -> Option<Seq<char>> {
    match value {
        Some(text) => Some(text@),
        None => None,
    }
}

/// A value or a message as what it says.
pub open spec fn outcome_view(outcome: Result<Json, String>) -> Result<JsonView, Seq<char>> {
    match outcome {
        Ok(value) => Ok(value@),
        Err(message) => Err(message@),
    }
}

impl Json {
    /// The entry of an object under a name; nothing for other values.
    pub fn get(&self, name: &str) -> (entry: Option<&Json>)
        ensures
            option_view(entry) == self@.field(name@),
    {
        match self {
            Json::Object(entries) => {
                let mut i: usize = entries.len();
                assert(entries@.take(i as int) == entries@);
                while i > 0
                    invariant
                        i <= entries@.len(),
                        self@ == JsonView::Object(entries_view(entries@)),
                        self@.field(name@) == JsonView::Object(
                            entries_view(entries@.take(i as int)),
                        ).field(name@),
                    decreases i,
                {
                    i -= 1;
                    assert(entries@.take(i + 1).drop_last() == entries@.take(i as int));
                    if text_eq(entries[i].0.as_str(), name) {
                        return Some(&entries[i].1);
                    }
                }
                None
            },
            _ => None,
        }
    }

    /// The text that the value is, if it is one.
    pub fn as_str(&self) -> (text: Option<&str>)
        ensures
            text_view(text) == self@.as_text(),
    {
        match self {
            Json::Text(s) => Some(s.as_str()),
            _ => None,
        }
    }

    /// The truth value that the value is, if it is one.
    pub fn as_bool(&self) -> (value: Option<bool>)
        ensures
            value == self@.as_bool(),
    {
        match self {
            Json::Bool(b) => Some(*b),
            _ => None,
        }
    }

    /// The unsigned 64-bit integer that the value is, if it is one.
    pub fn as_u64(&self) -> (value: Option<u64>)
        ensures
            value == self@.as_u64(),
    {
        match self {
            Json::Unsigned(n) => Some(*n),
            Json::Signed(n) => if *n >= 0 {
                Some(*n as u64)
            } else {
                None
            },
            Json::Number(n) => n.as_u64(),
            _ => None,
        }
    }

    /// The text under a name, if the value is an object with a text there.
    pub fn get_str(&self, name: &str) -> (text: Option<&str>)
        ensures
            text_view(text) == self@.text_field(name@),
    {
        match self.get(name) {
            Some(value) => value.as_str(),
            None => None,
        }
    }

    /// The entry under a path of two names.
    pub fn get2(&self, outer: &str, inner: &str) -> (entry: Option<&Json>)
        ensures
            option_view(entry) == self@.field2(outer@, inner@),
    {
        match self.get(outer) {
            Some(value) => value.get(inner),
            None => None,
        }
    }

    /// A text value.
    pub fn text(text: &str) -> (json: Json)
        ensures
            json@ == JsonView::Text(text@),
    {
        Json::Text(text.to_owned())
    }

    /// An object without entries.
    pub fn object() -> (json: Json)
        ensures
            json@ == JsonView::Object(Map::empty()),
    {
        let entries: Vec<(String, Json)> = Vec::new();
        assert(entries_view(entries@) == Map::<Seq<char>, JsonView>::empty());
        Json::Object(entries)
    }

    /// An array without items.
    pub fn array() -> (json: Json)
        ensures
            json@ == JsonView::Array(Seq::empty()),
    {
        let items: Vec<Json> = Vec::new();
        assert(items_view(items@) == Seq::<JsonView>::empty());
        Json::Array(items)
    }

    /// An object with one more entry.
    pub fn with(self, name: &str, value: Json) -> (json: Json)
        requires
            self@ is Object,
        ensures
            json@ == JsonView::Object(self@->Object_0.insert(name@, value@)),
    {
        match self {
            Json::Object(entries) => {
                let mut entries = entries;
                let ghost before = entries@;
                entries.push((name.to_owned(), value));
                assert(entries@.drop_last() == before);
                Json::Object(entries)
            },
            other => other,
        }
    }

    /// An array with one more item at its end.
    pub fn and(self, item: Json) -> (json: Json)
        requires
            self@ is Array,
        ensures
            json@ == JsonView::Array(self@->Array_0.push(item@)),
    {
        match self {
            Json::Array(items) => {
                let mut items = items;
                let ghost before = items@;
                items.push(item);
                assert(items@.drop_last() == before);
                Json::Array(items)
            },
            other => other,
        }
    }
}

/// An object has under a name what its map has there; other values have no entries. A value is
/// read as a text, a truth value or an unsigned number exactly where it is one.
pub proof fn law_values_are_read_as_they_are(value: JsonView, name: Seq<char>, inner: Seq<char>)
    ensures
        value matches JsonView::Object(map) ==> {
            &&& map.dom().contains(name) ==> value.field(name) == Some(map[name])
            &&& !map.dom().contains(name) ==> value.field(name) is None
        },
        !(value is Object) ==> value.field(name) is None,
        value.as_text() is Some <==> value is Text,
        value matches JsonView::Text(text) ==> value.as_text() == Some(text),
        value.as_bool() is Some <==> value is Bool,
        value matches JsonView::Bool(truth) ==> value.as_bool() == Some(truth),
        value.as_u64() is Some <==> (value matches JsonView::Int(n) && 0 <= n <= u64::MAX),
        value matches JsonView::Int(n) ==> (0 <= n <= u64::MAX ==> value.as_u64() == Some(
            n as u64,
        )),
        value.field(name) matches Some(entry) ==> value.text_field(name) == entry.as_text(),
        value.field(name) is None ==> value.text_field(name) is None,
        value.field(name) matches Some(entry) ==> value.field2(name, inner) == entry.field(inner),
        value.field(name) is None ==> value.field2(name, inner) is None,
{
}

/// An object that is made of a list of entries has under a name the last entry with that name,
/// and nothing where the list has none.
pub proof fn law_last_entry_counts(entries: Seq<(String, Json)>, name: Seq<char>, at: int)
    ensures
        (forall|i: int| 0 <= i < entries.len() ==> (#[trigger] entries[i]).0@ != name)
            ==> !entries_view(entries).dom().contains(name),
        0 <= at < entries.len() && entries[at].0@ == name && (forall|i: int|
            at < i < entries.len() ==> (#[trigger] entries[i]).0@ != name) ==> entries_view(
            entries,
        ).dom().contains(name) && entries_view(entries)[name] == entries[at].1@,
    decreases entries.len(),
{
    if entries.len() > 0 {
        let front = entries.drop_last();
        assert forall|i: int| 0 <= i < front.len() implies front[i] == #[trigger] entries[i] by {
        }
        law_last_entry_counts(front, name, at);
        assert(entries.last() == entries[entries.len() - 1]);
        if (forall|i: int| 0 <= i < entries.len() ==> (#[trigger] entries[i]).0@ != name) {
            assert forall|i: int| 0 <= i < front.len() implies (#[trigger] front[i]).0@ != name by {
                assert(entries[i].0@ != name);
            }
        }
        if 0 <= at < front.len() && (forall|i: int|
            at < i < entries.len() ==> (#[trigger] entries[i]).0@ != name) {
            assert forall|i: int| at < i < front.len() implies (#[trigger] front[i]).0@
                != name by {
                assert(entries[i].0@ != name);
            }
            assert(entries[entries.len() - 1].0@ != name);
        }
    }
}

/// What a tree says is what it holds: truth values, numbers and texts as they are, an array item
/// by item, and an object by its entries. An outcome says its value or its message.
pub proof fn law_trees_say_what_they_hold(json: Json, outcome: Result<Json, String>)
    ensures
        json is Null <==> json@ is Null,
        json matches Json::Bool(truth) ==> json@ == JsonView::Bool(truth),
        json matches Json::Unsigned(n) ==> json@ == JsonView::Int(n as int),
        json matches Json::Signed(n) ==> json@ == JsonView::Int(n as int),
        json matches Json::Text(text) ==> json@ == JsonView::Text(text@),
        json matches Json::Array(items) ==> (json@ matches JsonView::Array(values) && values.len()
            == items@.len() && forall|i: int|
            0 <= i < values.len() ==> #[trigger] values[i] == items@[i]@),
        json matches Json::Object(entries) ==> json@ == JsonView::Object(entries_view(entries@)),
        outcome matches Ok(value) ==> outcome_view(outcome) == Ok::<JsonView, Seq<char>>(value@),
        outcome matches Err(message) ==> outcome_view(outcome) == Err::<JsonView, Seq<char>>(
            message@,
        ),
{
    if let Json::Array(items) = json {
        lemma_items_view(items@);
    }
}

/// What is looked up in a tree says what was found.
pub proof fn law_found_values_say_what_they_hold(value: Option<&Json>, text: Option<&str>)
    ensures
        value matches Some(json) ==> option_view(value) == Some(json@),
        value is None ==> option_view(value) is None,
        text matches Some(found) ==> text_view(text) == Some(found@),
        text is None ==> text_view(text) is None,
{
}

} // verus!
