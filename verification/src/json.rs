//! JSON values, kept, read and written by `serde_json`.
//!
//! A [`Json`] holds a `serde_json::Value`, a tree whose inner nodes are arrays and objects. What
//! the tree holds is its view, a [`JsonView`]; every operation below is stated over that view.
use serde_json::{Error, Number, Value};
use vstd::prelude::*;

verus! {

/// `serde_json::Value`. It is closed here; what it holds is told by [`contents`].
#[verifier::external_type_specification]
#[verifier::external_body]
pub struct ExValue(serde_json::Value);

/// `serde_json::Number`, which is carried along where it is no unsigned integer.
#[verifier::external_type_specification]
#[verifier::external_body]
pub struct ExNumber(serde_json::Number);

/// `serde_json::Error`. Why a text is not JSON does not matter here.
#[verifier::external_type_specification]
#[verifier::external_body]
pub struct ExError(serde_json::Error);

/// The mathematical content of a JSON value.
pub enum JsonView {
    Null,
    Bool(bool),
    /// An integer that fits in a `u64`.
    Unsigned(u64),
    /// A negative integer that fits in an `i64`.
    Negative(i64),
    /// Any other number: one that was read with a fraction or an exponent, one that is too large
    /// or too small, and negative zero.
    Number(Number),
    Text(Seq<char>),
    Array(Seq<JsonView>),
    Object(Map<Seq<char>, JsonView>),
}

impl JsonView {
    /// What stands under `key`: null where the value is not an object or has no such key.
    pub open spec fn member(self, key: Seq<char>) -> JsonView {
        match self {
            JsonView::Object(members) => if members.contains_key(key) {
                members[key]
            } else {
                JsonView::Null
            },
            _ => JsonView::Null,
        }
    }

    /// The string, where the value is one.
    pub open spec fn as_text(self) -> Option<Seq<char>> {
        match self {
            JsonView::Text(text) => Some(text),
            _ => None,
        }
    }

    /// The number, where the value is one that fits in a `u64`.
    pub open spec fn as_unsigned(self) -> Option<u64> {
        match self {
            JsonView::Unsigned(number) => Some(number),
            _ => None,
        }
    }

    /// The items, where the value is an array.
    pub open spec fn as_items(self) -> Option<Seq<JsonView>> {
        match self {
            JsonView::Array(items) => Some(items),
            _ => None,
        }
    }

    /// An object without members.
    pub open spec fn empty_object() -> JsonView {
        JsonView::Object(Map::empty())
    }

    /// The object `self` with `item` under `key`.
    pub open spec fn with(self, key: Seq<char>, item: JsonView) -> JsonView {
        match self {
            JsonView::Object(members) => JsonView::Object(members.insert(key, item)),
            _ => self,
        }
    }

    /// Whether every number in the value is an integer that fits in a `u64` or an `i64` and at most
    /// `depth` arrays and objects stand inside each other.
    pub open spec fn plain(self, depth: nat) -> bool
        decreases depth,
    {
        match self {
            JsonView::Number(_) => false,
            JsonView::Array(items) => {
                &&& depth > 0
                &&& forall|i: int|
                    0 <= i < items.len() ==> (#[trigger] items[i]).plain((depth - 1) as nat)
            },
            JsonView::Object(members) => {
                &&& depth > 0
                &&& forall|key: Seq<char>| #[trigger]
                    members.contains_key(key) ==> members[key].plain((depth - 1) as nat)
            },
            _ => true,
        }
    }

    /// Whether at most `depth` arrays and objects stand inside each other.
    pub open spec fn shallow(self, depth: nat) -> bool
        decreases depth,
    {
        match self {
            JsonView::Array(items) => {
                &&& depth > 0
                &&& forall|i: int|
                    0 <= i < items.len() ==> (#[trigger] items[i]).shallow((depth - 1) as nat)
            },
            JsonView::Object(members) => {
                &&& depth > 0
                &&& forall|key: Seq<char>| #[trigger]
                    members.contains_key(key) ==> members[key].shallow((depth - 1) as nat)
            },
            _ => true,
        }
    }

    /// Whether two values, with at most `depth` arrays and objects inside each other, are the same
    /// but for numbers that are no integers of a `u64` or an `i64`.
    pub open spec fn alike(self, other: JsonView, depth: nat) -> bool
        decreases depth,
    {
        match (self, other) {
            (JsonView::Number(_), JsonView::Number(_)) => true,
            (JsonView::Array(one), JsonView::Array(two)) => {
                &&& depth > 0
                &&& one.len() == two.len()
                &&& forall|i: int|
                    0 <= i < one.len() ==> (#[trigger] one[i]).alike(two[i], (depth - 1) as nat)
            },
            (JsonView::Object(one), JsonView::Object(two)) => {
                &&& depth > 0
                &&& one.dom() == two.dom()
                &&& forall|key: Seq<char>| #[trigger]
                    one.contains_key(key) ==> one[key].alike(two[key], (depth - 1) as nat)
            },
            _ => self == other,
        }
    }

    /// Whether `serde_json::from_str` takes the text of the value. The reader gives up where 128
    /// arrays and objects stand inside each other.
    pub open spec fn legible(self) -> bool {
        self.shallow(127)
    }

    /// Whether `back` is the value as it is after it was written and read: it may differ in numbers
    /// that are no integers of a `u64` or an `i64`.
    pub open spec fn comes_back_as(self, back: JsonView) -> bool {
        back.alike(self, 127)
    }

    /// Whether `serde_json::from_str` reads the value back from its text as it was. The reader
    /// gives up where 128 arrays and objects stand inside each other.
    pub open spec fn readable(self) -> bool {
        self.plain(127)
    }
}

/// Allowing deeper nesting keeps a value plain.
pub proof fn lemma_plain_deeper(value: JsonView, depth: nat, deeper: nat)
    requires
        value.plain(depth),
        depth <= deeper,
    ensures
        value.plain(deeper),
    decreases depth,
{
    match value {
        JsonView::Array(items) => {
            assert forall|i: int| 0 <= i < items.len() implies (#[trigger] items[i]).plain(
                (deeper - 1) as nat,
            ) by {
                lemma_plain_deeper(items[i], (depth - 1) as nat, (deeper - 1) as nat);
            }
        },
        JsonView::Object(members) => {
            assert forall|key: Seq<char>| #[trigger] members.contains_key(key) implies members[key].plain(
                (deeper - 1) as nat,
            ) by {
                lemma_plain_deeper(members[key], (depth - 1) as nat, (deeper - 1) as nat);
            }
        },
        _ => {},
    }
}

/// An object stays plain where a member is put in that nests less deep.
pub broadcast proof fn lemma_plain_with(
    object: JsonView,
    key: Seq<char>,
    item: JsonView,
    depth: nat,
)
    requires
        object is Object,
        object.plain(depth),
        item.plain((depth - 1) as nat),
    ensures
        #[trigger] object.with(key, item).plain(depth),
{
}

/// An array nests one deeper than its items.
pub broadcast proof fn lemma_plain_array(items: Seq<JsonView>, depth: nat)
    requires
        depth > 0,
        forall|i: int| 0 <= i < items.len() ==> (#[trigger] items[i]).plain((depth - 1) as nat),
    ensures
        #[trigger] JsonView::Array(items).plain(depth),
{
}

/// What a `serde_json::Value` holds.
pub uninterp spec fn contents(value: Value) -> JsonView;

/// What each of `values` holds, in their order.
pub open spec fn contents_each(values: Seq<Value>) -> Seq<JsonView> {
    Seq::new(values.len(), |i: int| contents(values[i]))
}

/// What `serde_json::from_str` reads out of a text; `None` where it reports an error.
pub uninterp spec fn parsed(text: Seq<char>) -> Option<JsonView>;

/// The text that `serde_json` writes for a value: compact, the keys of each object in order.
pub uninterp spec fn rendered(value: JsonView) -> Seq<char>;

/// `serde_json::from_str::<Value>`: succeeds or fails by the text alone, and on success gives the
/// value that the text denotes, in which at most 127 arrays and objects stand inside each other.
#[verifier::external_body]
fn value_from_text(text: &str) -> (result: Result<Value, Error>)
    ensures
        match result {
            Ok(value) => parsed(text@) == Some(contents(value)) && contents(value).legible(),
            Err(_) => parsed(text@) is None,
        },
{
    serde_json::from_str(text)
}

/// `Value`'s `Display`, through `to_string`: the text is fixed by what the value holds, and
/// `from_str` reads a readable value back out of it. Of a value that holds other numbers, `from_str`
/// reads back all but those numbers: such a number is written with a point or an exponent and read
/// back as one of its kind, perhaps rounded, and the greatest `f64`, which is written as
/// `1.7976931348623157e+308`, is still read as finite. What it is rounded to is not said.
#[verifier::external_body]
fn value_to_text(value: &Value) -> (text: String)
    ensures
        text@ == rendered(contents(*value)),
        contents(*value).readable() ==> parsed(text@) == Some(contents(*value)),
        contents(*value).legible() ==> parsed(text@) is Some && contents(*value).comes_back_as(
            parsed(text@)->0,
        ),
{
    value.to_string()
}

/// `Value`'s `Index` by a string: the member of an object, and null for a key that is not there
/// and for a value that is no object.
#[verifier::external_body]
fn value_member<'a>(value: &'a Value, key: &str) -> (member: &'a Value)
    ensures
        contents(*member) == contents(*value).member(key@),
{
    &value[key]
}

/// `Value::as_str`: the string, and `None` for a value that is no string.
#[verifier::external_body]
fn value_as_text<'a>(value: &'a Value) -> (text: Option<&'a str>)
    ensures
        match text {
            Some(text) => contents(*value).as_text() == Some(text@),
            None => contents(*value).as_text() is None,
        },
{
    value.as_str()
}

/// `Value::as_u64`: the number where it is an integer in the range of `u64`, else `None`.
#[verifier::external_body]
fn value_as_unsigned(value: &Value) -> (number: Option<u64>)
    ensures
        number == contents(*value).as_unsigned(),
{
    value.as_u64()
}

/// `Value::as_array`: the items, and `None` for a value that is no array.
#[verifier::external_body]
fn value_as_items<'a>(value: &'a Value) -> (items: Option<&'a Vec<Value>>)
    ensures
        match items {
            Some(items) => contents(*value).as_items() == Some(contents_each(items@)),
            None => contents(*value).as_items() is None,
        },
{
    value.as_array()
}

/// `Value`'s `Clone`: a second value that holds the same.
#[verifier::external_body]
fn value_clone(value: &Value) -> (copy: Value)
    ensures
        contents(copy) == contents(*value),
{
    value.clone()
}

/// `Value::String`: a value that is this string.
#[verifier::external_body]
fn value_of_text(text: String) -> (value: Value)
    ensures
        contents(value) == JsonView::Text(text@),
{
    Value::String(text)
}

/// `Value`'s `From<u64>`: a value that is this number.
#[verifier::external_body]
fn value_of_unsigned(number: u64) -> (value: Value)
    ensures
        contents(value) == JsonView::Unsigned(number),
{
    Value::from(number)
}

/// `Value::Bool`: a value that is this truth value.
#[verifier::external_body]
fn value_of_bool(flag: bool) -> (value: Value)
    ensures
        contents(value) == JsonView::Bool(flag),
{
    Value::Bool(flag)
}

/// `Value::Array`: a value that is the array of these items, in their order.
#[verifier::external_body]
fn value_of_items(items: Vec<Value>) -> (value: Value)
    ensures
        contents(value) == JsonView::Array(contents_each(items@)),
{
    Value::Array(items)
}

/// `Value::Object` of `serde_json::Map::new()`: an object without members.
#[verifier::external_body]
fn value_of_no_members() -> (value: Value)
    ensures
        contents(value) == JsonView::empty_object(),
{
    Value::Object(serde_json::Map::new())
}

/// `Value`'s `IndexMut` by a string, on an object: puts `item` under `key`, in place of what stood
/// there, and leaves the other members as they are.
#[verifier::external_body]
fn value_insert(value: &mut Value, key: &str, item: Value)
    requires
        contents(*old(value)) is Object,
    ensures
        contents(*final(value)) == contents(*old(value)).with(key@, contents(item)),
{
    value[key] = item;
}

/// A JSON value.
pub struct Json {
    value: Value,
}

impl View for Json {
    type V = JsonView;

    closed spec fn view(&self) -> JsonView {
        contents(self.value)
    }
}

/// The views of `items`, in their order.
pub open spec fn json_views(items: Seq<Json>) -> Seq<JsonView> {
    Seq::new(items.len(), |i: int| items[i]@)
}

/// JSON by its view, where there is any.
pub open spec fn json_view(json: Option<Json>) -> Option<JsonView> {
    match json {
        Some(json) => Some(json@),
        None => None,
    }
}

impl Clone for Json {
    fn clone(&self) -> (copy: Self)
        ensures
            copy@ == self@,
    {
        Json { value: value_clone(&self.value) }
    }
}

impl Json {
    /// Reads a text as JSON. What comes out can be written and read again.
    pub fn parse(text: &str) -> (result: Option<Json>)
        ensures
            match result {
                Some(json) => parsed(text@) == Some(json@) && json@.legible(),
                None => parsed(text@) is None,
            },
    {
        match value_from_text(text) {
            Ok(value) => Some(Json { value }),
            Err(_) => None,
        }
    }

    /// Writes the value as compact JSON. A readable value is read back from the text as it was, a
    /// legible one with perhaps some numbers rounded.
    pub fn to_text(&self) -> (text: String)
        ensures
            text@ == rendered(self@),
            self@.readable() ==> parsed(text@) == Some(self@),
            self@.legible() ==> parsed(text@) is Some && self@.comes_back_as(parsed(text@)->0),
    {
        value_to_text(&self.value)
    }

    /// A string.
    pub fn text(text: &str) -> (json: Json)
        ensures
            json@ == JsonView::Text(text@),
    {
        Json { value: value_of_text(text.to_owned()) }
    }

    /// A number.
    pub fn unsigned(number: u64) -> (json: Json)
        ensures
            json@ == JsonView::Unsigned(number),
    {
        Json { value: value_of_unsigned(number) }
    }

    /// A truth value.
    pub fn boolean(flag: bool) -> (json: Json)
        ensures
            json@ == JsonView::Bool(flag),
    {
        Json { value: value_of_bool(flag) }
    }

    /// An array of `items`.
    pub fn array(items: Vec<Json>) -> (json: Json)
        ensures
            json@ == JsonView::Array(json_views(items@)),
    {
        let mut values: Vec<Value> = Vec::new();
        for item in iter: items
            invariant
                iter.seq() == items@,
                values@.len() == iter.index(),
                forall|j: int|
                    0 <= j < values@.len() ==> contents(#[trigger] values@[j]) == items@[j]@,
        {
            values.push(item.value);
        }
        let json = Json { value: value_of_items(values) };
        assert(contents_each(values@) =~= json_views(items@));
        json
    }

    /// An object without members.
    pub fn object() -> (json: Json)
        ensures
            json@ == JsonView::empty_object(),
    {
        Json { value: value_of_no_members() }
    }

    /// The object with `item` under `key`.
    pub fn with(self, key: &str, item: Json) -> (json: Json)
        requires
            self@ is Object,
        ensures
            json@ == self@.with(key@, item@),
    {
        let mut value = self.value;
        value_insert(&mut value, key, item.value);
        Json { value }
    }

    /// The string, where the value is one.
    pub fn as_text(&self) -> (text: Option<&str>)
        ensures
            match text {
                Some(text) => self@.as_text() == Some(text@),
                None => self@.as_text() is None,
            },
    {
        value_as_text(&self.value)
    }

    /// The string under `key`, where there is one.
    pub fn text_at(&self, key: &str) -> (text: Option<&str>)
        ensures
            match text {
                Some(text) => self@.member(key@).as_text() == Some(text@),
                None => self@.member(key@).as_text() is None,
            },
    {
        value_as_text(value_member(&self.value, key))
    }

    /// The number under `key`, where there is one that fits in a `u64`.
    pub fn unsigned_at(&self, key: &str) -> (number: Option<u64>)
        ensures
            number == self@.member(key@).as_unsigned(),
    {
        value_as_unsigned(value_member(&self.value, key))
    }

    /// The items of the array under `key`, where there is one.
    pub fn items_at(&self, key: &str) -> (items: Option<Vec<Json>>)
        ensures
            match items {
                Some(items) => self@.member(key@).as_items() == Some(json_views(items@)),
                None => self@.member(key@).as_items() is None,
            },
    {
        match value_as_items(value_member(&self.value, key)) {
            Some(values) => {
                let mut items: Vec<Json> = Vec::new();
                for i in 0..values.len()
                    invariant
                        items@.len() == i,
                        forall|j: int| 0 <= j < i ==> (#[trigger] items@[j])@ == contents(values@[j]),
                {
                    items.push(Json { value: value_clone(&values[i]) });
                }
                assert(json_views(items@) =~= contents_each(values@));
                Some(items)
            },
            None => None,
        }
    }
}

/// What stands under a key of an object is what its members have there; a key that is not there,
/// and any key of a value that is no object, has null.
pub proof fn law_member_is_what_stands_under_the_key(value: JsonView, key: Seq<char>)
    ensures
        forall|members: Map<Seq<char>, JsonView>|
            value == JsonView::Object(members) && #[trigger] members.contains_key(key)
                ==> value.member(key) == members[key],
        value is Object && !value->Object_0.contains_key(key) ==> value.member(key) is Null,
        !(value is Object) ==> value.member(key) is Null,
{
}

/// A member that is put into an object is found there, and the other members stay as they are.
pub proof fn law_put_in_member_is_found(
    object: JsonView,
    key: Seq<char>,
    item: JsonView,
    other: Seq<char>,
)
    requires
        object is Object,
        other != key,
    ensures
        object.with(key, item) is Object,
        object.with(key, item).member(key) == item,
        object.with(key, item).member(other) == object.member(other),
        JsonView::empty_object().member(key) is Null,
{
}

/// A value is read as a string, a number or an array exactly where it is one, and then whole.
pub proof fn law_values_are_read_as_what_they_are(
    value: JsonView,
    text: Seq<char>,
    number: u64,
    items: Seq<JsonView>,
)
    ensures
        value.as_text() == Some(text) <==> value == JsonView::Text(text),
        value.as_text() is None <==> !(value is Text),
        value.as_unsigned() == Some(number) <==> value == JsonView::Unsigned(number),
        value.as_unsigned() is None <==> !(value is Unsigned),
        value.as_items() == Some(items) <==> value == JsonView::Array(items),
        value.as_items() is None <==> !(value is Array),
{
}

/// The view of a list has one item for each item of the list, in the same place.
pub proof fn law_list_is_viewed_whole(items: Seq<Json>)
    ensures
        json_views(items).len() == items.len(),
        forall|i: int| 0 <= i < items.len() ==> #[trigger] json_views(items)[i] == items[i]@,
{
}

/// What a list of values holds has one item for each value, in the same place.
pub proof fn law_contents_are_whole(values: Seq<Value>)
    ensures
        contents_each(values).len() == values.len(),
        forall|i: int|
            0 <= i < values.len() ==> #[trigger] contents_each(values)[i] == contents(values[i]),
{
}

/// JSON that is there is seen as what it is, and JSON that is not there as nothing.
pub proof fn law_json_is_seen_where_it_is(json: Json)
    ensures
        json_view(Some(json)) == Some(json@),
        json_view(None) is None,
{
}

/// An array or an object nests one deeper than what it holds.
pub proof fn law_how_deep_values_nest(value: JsonView, depth: nat)
    ensures
        value is Array ==> (value.shallow(depth) <==> depth > 0 && forall|i: int|
            0 <= i < value->Array_0.len() ==> (#[trigger] value->Array_0[i]).shallow(
                (depth - 1) as nat,
            )),
        value is Object ==> (value.shallow(depth) <==> depth > 0 && forall|key: Seq<char>| #[trigger]
            value->Object_0.contains_key(key) ==> value->Object_0[key].shallow((depth - 1) as nat)),
{
    if value is Array && value.shallow(depth) {
        assert forall|i: int| 0 <= i < value->Array_0.len() implies (
        #[trigger] value->Array_0[i]).shallow((depth - 1) as nat) by {}
    }
    if value is Object && value.shallow(depth) {
        assert forall|key: Seq<char>| #[trigger]
            value->Object_0.contains_key(key) implies value->Object_0[key].shallow(
            (depth - 1) as nat,
        ) by {}
    }
}

/// A value that is neither array nor object does not nest. A value that can be read nests at most
/// 127 deep.
pub proof fn law_what_nests(value: JsonView, depth: nat)
    ensures
        !(value is Array) && !(value is Object) ==> value.shallow(depth),
        value.legible() <==> value.shallow(127),
{
}

/// A value that is read back as it was nests no deeper than the reader goes and has no numbers but
/// integers; what comes back otherwise differs in such numbers alone.
pub proof fn law_what_comes_back(value: JsonView, back: JsonView)
    ensures
        value.readable() ==> value.legible() && !(value is Number),
        value.comes_back_as(back) && !(value is Array) && !(value is Object) && !(value is Number)
            ==> back == value,
        value.comes_back_as(back) && value is Number ==> back is Number,
        value.comes_back_as(back) && value is Array ==> back is Array && back->Array_0.len()
            == value->Array_0.len(),
        value.comes_back_as(back) && value is Object ==> back is Object && back->Object_0.dom()
            == value->Object_0.dom(),
{
    if value.readable() {
        lemma_plain_is_shallow(value, 127);
    }
}

/// A plain value nests no deeper than it is plain.
proof fn lemma_plain_is_shallow(value: JsonView, depth: nat)
    requires
        value.plain(depth),
    ensures
        value.shallow(depth),
    decreases depth,
{
    match value {
        JsonView::Array(items) => {
            assert forall|i: int| 0 <= i < items.len() implies (#[trigger] items[i]).shallow(
                (depth - 1) as nat,
            ) by {
                lemma_plain_is_shallow(items[i], (depth - 1) as nat);
            }
        },
        JsonView::Object(members) => {
            assert forall|key: Seq<char>| #[trigger] members.contains_key(key) implies members[key].shallow(
                (depth - 1) as nat,
            ) by {
                lemma_plain_is_shallow(members[key], (depth - 1) as nat);
            }
        },
        _ => {},
    }
}

} // verus!
