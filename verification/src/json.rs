//! JSON values: the tree that the rules of this crate read, and how a document becomes one.

use vstd::prelude::*;

use crate::text::same_text;

verus! {

/// A JSON number, as the three things that are read from it.
#[derive(Debug, PartialEq, Eq)]
pub struct JsonNumber {
    /// The number as it is written.
    pub text: String,
    /// The number itself, if it is an integer from 0 to `u64::MAX`.
    pub unsigned: Option<u64>,
    /// The bits of the nearest double-precision number, if there is one.
    pub double_bits: Option<u64>,
}

/// A JSON value. An object keeps its members in a row; its first member with a key is the one
/// that the key stands for.
#[derive(Debug, PartialEq, Eq)]
pub enum JsonValue {
    Null,
    Bool(bool),
    Number(JsonNumber),
    Text(String),
    Array(Vec<JsonValue>),
    Object(Vec<(String, JsonValue)>),
}

/// What a `JsonNumber` stands for.
pub struct NumberModel {
    pub text: Seq<char>,
    pub unsigned: Option<u64>,
    pub double_bits: Option<u64>,
}

/// What a `JsonValue` stands for.
pub enum Json {
    Null,
    Bool(bool),
    Number(NumberModel),
    Text(Seq<char>),
    Array(Seq<Json>),
    Object(Seq<(Seq<char>, Json)>),
}

/// The value of the first member with the key.
pub open spec fn first_member(members: Seq<(Seq<char>, Json)>, key: Seq<char>) -> Option<Json>
    decreases members.len(),
{
    if members.len() == 0 {
        None
    } else if members[0].0 == key {
        Some(members[0].1)
    } else {
        first_member(members.drop_first(), key)
    }
}

impl Json {
    /// The member of an object; nothing else has members.
    pub open spec fn get(self, key: Seq<char>) -> Option<Json> {
        match self {
            Json::Object(members) => first_member(members, key),
            _ => None,
        }
    }

    /// The member `inner` of the member `outer`.
    pub open spec fn at(self, outer: Seq<char>, inner: Seq<char>) -> Option<Json> {
        member(self.get(outer), inner)
    }
}

/// The decimal digits of a number.
pub open spec fn decimal(number: nat) -> Seq<char>
    decreases number,
{
    let digit = ((number % 10) + ('0' as u32)) as char;
    if number < 10 {
        seq![digit]
    } else {
        decimal(number / 10).push(digit)
    }
}

/// Whether a value is one that a document can say: no object has two members with one key, every
/// number has a nearest double, and a non-negative integer is written in its decimal digits.
pub open spec fn well_formed(value: Json) -> bool
    decreases value,
{
    match value {
        Json::Number(number) => {
            &&& number.double_bits is Some
            &&& number.unsigned is Some ==> number.text == decimal(number.unsigned->0 as nat)
        },
        Json::Array(values) => forall|i: int|
            0 <= i < values.len() ==> well_formed(#[trigger] values[i]),
        Json::Object(members) => {
            &&& distinct_keys(members)
            &&& forall|i: int| 0 <= i < members.len() ==> well_formed((#[trigger] members[i]).1)
        },
        _ => true,
    }
}

/// Whether no two members have the same key.
pub open spec fn distinct_keys(members: Seq<(Seq<char>, Json)>) -> bool {
    forall|i: int, j: int|
        0 <= i < j < members.len() ==> (#[trigger] members[i]).0 != (#[trigger] members[j]).0
}

/// The member of a value that may be missing.
pub open spec fn member(value: Option<Json>, key: Seq<char>) -> Option<Json> {
    match value {
        Some(value) => value.get(key),
        None => None,
    }
}

/// The text of a value, if it is there and is a text.
pub open spec fn text_of(value: Option<Json>) -> Option<Seq<char>> {
    match value {
        Some(Json::Text(text)) => Some(text),
        _ => None,
    }
}

/// The truth value, if it is there and is one.
pub open spec fn bool_of(value: Option<Json>) -> Option<bool> {
    match value {
        Some(Json::Bool(flag)) => Some(flag),
        _ => None,
    }
}

/// The unsigned integer, if it is there and is one.
pub open spec fn unsigned_of(value: Option<Json>) -> Option<u64> {
    match value {
        Some(Json::Number(number)) => number.unsigned,
        _ => None,
    }
}

/// The bits of the double-precision number, if the value is there and is a number.
pub open spec fn double_of(value: Option<Json>) -> Option<u64> {
    match value {
        Some(Json::Number(number)) => number.double_bits,
        _ => None,
    }
}

/// A text as it is, or a number as it is written.
pub open spec fn scalar_of(value: Option<Json>) -> Option<Seq<char>> {
    match value {
        Some(Json::Text(text)) => Some(text),
        Some(Json::Number(number)) => Some(number.text),
        _ => None,
    }
}

/// Whether the value is there and is not null.
pub open spec fn present(value: Option<Json>) -> bool {
    value is Some && value->0 !is Null
}

impl View for JsonNumber {
    type V = NumberModel;

    open spec fn view(&self) -> NumberModel {
        NumberModel {
            text: self.text@,
            unsigned: self.unsigned,
            double_bits: self.double_bits,
        }
    }
}

/// What each value of a row stands for.
pub open spec fn models(values: Seq<JsonValue>) -> Seq<Json>
    decreases values,
{
    if values.len() == 0 {
        Seq::empty()
    } else {
        seq![model(values[0])] + models(values.subrange(1, values.len() as int))
    }
}

/// What each member of an object stands for.
pub open spec fn member_models(members: Seq<(String, JsonValue)>) -> Seq<(Seq<char>, Json)>
    decreases members,
{
    if members.len() == 0 {
        Seq::empty()
    } else {
        seq![(members[0].0@, model(members[0].1))] + member_models(
            members.subrange(1, members.len() as int),
        )
    }
}

/// What a value stands for.
pub open spec fn model(value: JsonValue) -> Json
    decreases value,
{
    match value {
        JsonValue::Null => Json::Null,
        JsonValue::Bool(flag) => Json::Bool(flag),
        JsonValue::Number(number) => Json::Number(number@),
        JsonValue::Text(text) => Json::Text(text@),
        JsonValue::Array(values) => Json::Array(models(values@)),
        JsonValue::Object(members) => Json::Object(member_models(members@)),
    }
}

impl View for JsonValue {
    type V = Json;

    open spec fn view(&self) -> Json {
        model(*self)
    }
}

/// What a value that may be missing stands for.
pub open spec fn view_of(value: Option<&JsonValue>) -> Option<Json> {
    match value {
        Some(value) => Some(value@),
        None => None,
    }
}

/// What a text that may be missing stands for.
pub open spec fn chars_of(text: Option<&str>) -> Option<Seq<char>> {
    match text {
        Some(text) => Some(text@),
        None => None,
    }
}

/// The models of a row stand in the row's order.
pub proof fn models_by_index(values: Seq<JsonValue>)
    ensures
        models(values).len() == values.len(),
        forall|i: int| 0 <= i < values.len() ==> #[trigger] models(values)[i] == model(values[i]),
    decreases values.len(),
{
    if values.len() > 0 {
        let rest = values.subrange(1, values.len() as int);
        models_by_index(rest);
        assert forall|i: int| 0 <= i < values.len() implies #[trigger] models(values)[i] == model(
            values[i],
        ) by {
            if i > 0 {
                assert(models(values)[i] == models(rest)[i - 1]);
                assert(rest[i - 1] == values[i]);
            }
        }
    }
}

/// The models of an object's members stand in the members' order.
pub proof fn member_models_by_index(members: Seq<(String, JsonValue)>)
    ensures
        member_models(members).len() == members.len(),
        forall|i: int|
            0 <= i < members.len() ==> #[trigger] member_models(members)[i] == (
                members[i].0@,
                model(members[i].1),
            ),
    decreases members.len(),
{
    if members.len() > 0 {
        let rest = members.subrange(1, members.len() as int);
        member_models_by_index(rest);
        assert forall|i: int| 0 <= i < members.len() implies #[trigger] member_models(members)[i]
            == (members[i].0@, model(members[i].1)) by {
            if i > 0 {
                assert(member_models(members)[i] == member_models(rest)[i - 1]);
                assert(rest[i - 1] == members[i]);
            }
        }
    }
}

/// Members with other keys in front do not matter to a key.
proof fn first_member_after(members: Seq<(Seq<char>, Json)>, key: Seq<char>, skipped: int)
    requires
        0 <= skipped <= members.len(),
        forall|i: int| 0 <= i < skipped ==> (#[trigger] members[i]).0 != key,
    ensures
        first_member(members, key) == first_member(
            members.subrange(skipped, members.len() as int),
            key,
        ),
    decreases skipped,
{
    if skipped == 0 {
        assert(members.subrange(0, members.len() as int) =~= members);
    } else {
        let rest = members.drop_first();
        assert(members[0].0 != key);
        assert forall|i: int| 0 <= i < skipped - 1 implies (#[trigger] rest[i]).0 != key by {
            assert(rest[i] == members[i + 1]);
        }
        first_member_after(rest, key, skipped - 1);
        assert(rest.subrange(skipped - 1, rest.len() as int) =~= members.subrange(
            skipped,
            members.len() as int,
        ));
    }
}

/// In a well-formed object every member is the one that its key stands for, wherever it stands.
pub proof fn every_member_is_found(members: Seq<(Seq<char>, Json)>, i: int)
    requires
        well_formed(Json::Object(members)),
        0 <= i < members.len(),
    ensures
        Json::Object(members).get(members[i].0) == Some(members[i].1),
{
    first_member_after(members, members[i].0, i);
    assert(members.subrange(i, members.len() as int)[0] == members[i]);
}

impl JsonValue {
    /// The member of an object with the key.
    pub fn get(&self, key: &str) -> (value: Option<&JsonValue>)
        ensures
            view_of(value) == self@.get(key@),
    {
        match self {
            JsonValue::Object(members) => {
                let ghost all = member_models(members@);
                proof {
                    member_models_by_index(members@);
                }
                let mut i: usize = 0;
                while i < members.len()
                    invariant
                        i <= members.len(),
                        all == member_models(members@),
                        all.len() == members.len(),
                        forall|j: int|
                            0 <= j < members.len() ==> #[trigger] all[j] == (
                                members@[j].0@,
                                model(members@[j].1),
                            ),
                        forall|j: int| 0 <= j < i ==> (#[trigger] all[j]).0 != key@,
                        self@ == Json::Object(all),
                    decreases members.len() - i,
                {
                    if same_text(members[i].0.as_str(), key) {
                        proof {
                            first_member_after(all, key@, i as int);
                            assert(all.subrange(i as int, all.len() as int)[0] == all[i as int]);
                        }
                        return Some(&members[i].1);
                    }
                    i += 1;
                }
                proof {
                    first_member_after(all, key@, all.len() as int);
                }
                None
            },
            _ => None,
        }
    }

    /// The member `inner` of the member `outer`.
    pub fn at(&self, outer: &str, inner: &str) -> (value: Option<&JsonValue>)
        ensures
            view_of(value) == self@.at(outer@, inner@),
    {
        get_in(self.get(outer), inner)
    }

    /// Whether the value is null.
    pub fn is_null(&self) -> (null: bool)
        ensures
            null == (self@ is Null),
    {
        match self {
            JsonValue::Null => true,
            _ => false,
        }
    }
}

/// The member of a value that may be missing.
pub fn get_in<'a>(value: Option<&'a JsonValue>, key: &str) -> (inner: Option<&'a JsonValue>)
    ensures
        view_of(inner) == member(view_of(value), key@),
{
    match value {
        Some(value) => value.get(key),
        None => None,
    }
}

/// The text of a value, if it is there and is a text.
pub fn as_text<'a>(value: Option<&'a JsonValue>) -> (text: Option<&'a str>)
    ensures
        chars_of(text) == text_of(view_of(value)),
{
    match value {
        Some(JsonValue::Text(text)) => Some(text.as_str()),
        _ => None,
    }
}

/// The truth value, if it is there and is one.
pub fn as_bool(value: Option<&JsonValue>) -> (flag: Option<bool>)
    ensures
        flag == bool_of(view_of(value)),
{
    match value {
        Some(JsonValue::Bool(flag)) => Some(*flag),
        _ => None,
    }
}

/// The unsigned integer, if it is there and is one.
pub fn as_unsigned(value: Option<&JsonValue>) -> (number: Option<u64>)
    ensures
        number == unsigned_of(view_of(value)),
{
    match value {
        Some(JsonValue::Number(number)) => number.unsigned,
        _ => None,
    }
}

/// The bits of the double-precision number, if the value is there and is a number.
pub fn as_double_bits(value: Option<&JsonValue>) -> (bits: Option<u64>)
    ensures
        bits == double_of(view_of(value)),
{
    match value {
        Some(JsonValue::Number(number)) => number.double_bits,
        _ => None,
    }
}

/// Whether the value is there and is not null.
pub fn is_present(value: Option<&JsonValue>) -> (there: bool)
    ensures
        there == present(view_of(value)),
{
    match value {
        Some(value) => !value.is_null(),
        None => false,
    }
}

#[verifier::external_type_specification]
#[verifier::external_body]
pub struct ExSerdeValue(serde_json::Value);

#[verifier::external_type_specification]
#[verifier::external_body]
pub struct ExSerdeNumber(serde_json::Number);

#[verifier::external_type_specification]
#[verifier::external_body]
#[verifier::reject_recursive_types(K)]
#[verifier::reject_recursive_types(V)]
pub struct ExSerdeMap<K, V>(serde_json::Map<K, V>);

#[verifier::external_type_specification]
#[verifier::external_body]
pub struct ExSerdeError(serde_json::Error);

/// What a `serde_json::Value` holds.
pub uninterp spec fn value_held(value: serde_json::Value) -> Json;

/// The entries that a `serde_json::Map` holds, in the order in which it is walked.
pub uninterp spec fn entries_held(map: serde_json::Map<String, serde_json::Value>) -> Seq<
    (String, serde_json::Value),
>;

/// What a `serde_json::Number` holds.
pub uninterp spec fn number_held(number: serde_json::Number) -> NumberModel;

/// The value that `serde_json::from_str` reads from a document, if it is one.
pub uninterp spec fn document(text: Seq<char>) -> Option<Json>;

/// One level of a `serde_json::Value`.
pub enum Level {
    Null,
    Bool(bool),
    Number(serde_json::Number),
    Text(String),
    Array(Vec<serde_json::Value>),
    Object(serde_json::Map<String, serde_json::Value>),
}

/// What a level stands for, over what the values below it hold.
pub open spec fn level_held(level: Level) -> Json {
    match level {
        Level::Null => Json::Null,
        Level::Bool(flag) => Json::Bool(flag),
        Level::Number(number) => Json::Number(number_held(number)),
        Level::Text(text) => Json::Text(text@),
        Level::Array(values) => Json::Array(
            values@.map_values(|value: serde_json::Value| value_held(value)),
        ),
        Level::Object(map) => Json::Object(
            entries_held(map).map_values(
                |entry: (String, serde_json::Value)| (entry.0@, value_held(entry.1)),
            ),
        ),
    }
}

/// The variants of `serde_json::Value`, told apart. A value holds what its variant says, over
/// what the values inside it hold.
#[verifier::external_body]
fn open_value(value: serde_json::Value) -> (level: Level)
    ensures
        value_held(value) == level_held(level),
{
    match value {
        serde_json::Value::Null => Level::Null,
        serde_json::Value::Bool(flag) => Level::Bool(flag),
        serde_json::Value::Number(number) => Level::Number(number),
        serde_json::Value::String(text) => Level::Text(text),
        serde_json::Value::Array(values) => Level::Array(values),
        serde_json::Value::Object(map) => Level::Object(map),
    }
}

/// `serde_json::Map::into_iter`: every entry of the map, once, in the map's own order. No two
/// entries have the same key.
#[verifier::external_body]
fn entries(map: serde_json::Map<String, serde_json::Value>) -> (entries: Vec<
    (String, serde_json::Value),
>)
    ensures
        entries@ == entries_held(map),
        forall|i: int, j: int| 0 <= i < j < entries@.len() ==> entries@[i].0@ != entries@[j].0@,
{
    map.into_iter().collect()
}

/// `serde_json::Number` as text: an integer in decimal digits, with a sign if it is negative,
/// and any other number in the shortest form that reads back as the same double.
#[verifier::external_body]
fn write_number(number: &serde_json::Number) -> (text: String)
    ensures
        text@ == number_held(*number).text,
        number_held(*number).unsigned is Some ==> text@ == decimal(
            number_held(*number).unsigned->0 as nat,
        ),
{
    number.to_string()
}

/// `serde_json::Number::as_u64`: the number, if it was read as a non-negative integer.
#[verifier::external_body]
fn unsigned_number(number: &serde_json::Number) -> (value: Option<u64>)
    ensures
        value == number_held(*number).unsigned,
{
    number.as_u64()
}

/// `serde_json::Number::as_f64`: the nearest double, as its bits. Every number has one, since the
/// crate is built without numbers of arbitrary precision.
#[verifier::external_body]
fn double_number(number: &serde_json::Number) -> (bits: Option<u64>)
    ensures
        bits == number_held(*number).double_bits,
        bits is Some,
{
    match number.as_f64() {
        Some(value) => Some(value.to_bits()),
        None => None,
    }
}

/// `serde_json::from_str` into a `serde_json::Value`: the value that the document says, or an
/// error if the text is not one JSON document.
#[verifier::external_body]
fn read_document(text: &str) -> (value: Result<serde_json::Value, serde_json::Error>)
    ensures
        value is Ok <==> document(text@) is Some,
        value is Ok ==> document(text@) == Some(value_held(value->Ok_0)),
{
    serde_json::from_str(text)
}

/// The tree that a `serde_json::Value` holds.
pub fn from_serde(value: serde_json::Value) -> (tree: JsonValue)
    ensures
        tree@ == value_held(value),
        well_formed(tree@),
    decreases value_held(value),
{
    let ghost whole = value_held(value);
    match open_value(value) {
        Level::Null => JsonValue::Null,
        Level::Bool(flag) => JsonValue::Bool(flag),
        Level::Number(number) => JsonValue::Number(
            JsonNumber {
                text: write_number(&number),
                unsigned: unsigned_number(&number),
                double_bits: double_number(&number),
            },
        ),
        Level::Text(text) => JsonValue::Text(text),
        Level::Array(values) => {
            let ghost held = values@.map_values(|value: serde_json::Value| value_held(value));
            let ghost inside = values@;
            let mut trees: Vec<JsonValue> = Vec::new();
            for inner in it: values
                invariant
                    whole == value_held(value),
                    whole == Json::Array(held),
                    it.seq() == inside,
                    held == inside.map_values(|value: serde_json::Value| value_held(value)),
                    trees.len() == it.index(),
                    forall|i: int| 0 <= i < trees.len() ==> #[trigger] model(trees@[i]) == held[i]
                        && well_formed(held[i]),
            {
                assert(inner == inside[it.index() as int]);
                assert(held[it.index() as int] == value_held(inner));
                assert(decreases_to!(whole => whole->Array_0));
                trees.push(from_serde(inner));
            }
            proof {
                models_by_index(trees@);
                assert(models(trees@) =~= held);
                assert(forall|i: int| 0 <= i < held.len() ==> #[trigger] held[i] == model(trees@[i]));
            }
            JsonValue::Array(trees)
        },
        Level::Object(map) => {
            let members = entries(map);
            let ghost inside = members@;
            let ghost held = inside.map_values(
                |entry: (String, serde_json::Value)| (entry.0@, value_held(entry.1)),
            );
            let mut trees: Vec<(String, JsonValue)> = Vec::new();
            for entry in it: members
                invariant
                    whole == value_held(value),
                    whole == Json::Object(held),
                    it.seq() == inside,
                    held == inside.map_values(
                        |entry: (String, serde_json::Value)| (entry.0@, value_held(entry.1)),
                    ),
                    trees.len() == it.index(),
                    forall|i: int|
                        0 <= i < trees.len() ==> (#[trigger] trees@[i]).0@ == held[i].0 && model(
                            trees@[i].1,
                        ) == held[i].1 && well_formed(held[i].1),
            {
                let (key, inner) = entry;
                assert(held[it.index() as int] == (key@, value_held(inner)));
                assert(decreases_to!(whole => whole->Object_0));
                assert(decreases_to!(held[it.index() as int] => held[it.index() as int].1));
                trees.push((key, from_serde(inner)));
            }
            proof {
                member_models_by_index(trees@);
                assert(member_models(trees@) =~= held);
                assert forall|i: int| 0 <= i < held.len() implies well_formed(
                    (#[trigger] held[i]).1,
                ) by {
                    assert(trees@[i].0@ == held[i].0);
                }
                assert(distinct_keys(held));
            }
            JsonValue::Object(trees)
        },
    }
}

/// The tree that a document says, if the text is one JSON document.
pub fn parse_json(text: &str) -> (tree: Option<JsonValue>)
    ensures
        tree is Some <==> document(text@) is Some,
        tree is Some ==> document(text@) == Some(tree->0@),
        tree is Some ==> well_formed(tree->0@),
{
    match read_document(text) {
        Ok(value) => Some(from_serde(value)),
        Err(_) => None,
    }
}

} // verus!
