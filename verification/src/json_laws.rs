//! What reading a JSON value gives.

use vstd::prelude::*;

use crate::failure::owned_chars;
use crate::json::{
    bool_of, chars_of, decimal, document, double_of, entries_held, level_held, member,
    member_models_by_index, models_by_index, number_held, parse_json, present, scalar_of, text_of,
    unsigned_of, value_held, view_of, Json, JsonValue, Level,
};

verus! {

/// The member of an object is the first one with the key.
pub proof fn first_members_are_found(members: Seq<(Seq<char>, Json)>, key: Seq<char>, i: int)
    requires
        0 <= i < members.len(),
        members[i].0 == key,
        forall|j: int| 0 <= j < i ==> (#[trigger] members[j]).0 != key,
    ensures
        Json::Object(members).get(key) == Some(members[i].1),
    decreases members.len(),
{
    if i > 0 {
        let rest = members.drop_first();
        assert(members[0].0 != key);
        assert forall|j: int| 0 <= j < i - 1 implies (#[trigger] rest[j]).0 != key by {
            assert(rest[j] == members[j + 1]);
        }
        first_members_are_found(rest, key, i - 1);
    }
}

/// An object without the key has no such member.
pub proof fn other_members_are_not_found(members: Seq<(Seq<char>, Json)>, key: Seq<char>)
    requires
        forall|j: int| 0 <= j < members.len() ==> (#[trigger] members[j]).0 != key,
    ensures
        Json::Object(members).get(key) is None,
    decreases members.len(),
{
    if members.len() > 0 {
        let rest = members.drop_first();
        assert(members[0].0 != key);
        assert forall|j: int| 0 <= j < rest.len() implies (#[trigger] rest[j]).0 != key by {
            assert(rest[j] == members[j + 1]);
        }
        other_members_are_not_found(rest, key);
    }
}

/// Nothing but an object has members, and a member of a member is found by two keys.
pub proof fn only_objects_have_members(value: Json, outer: Seq<char>, inner: Seq<char>)
    ensures
        !(value is Object) ==> value.get(outer) is None,
        value.get(outer) is None ==> value.at(outer, inner) is None,
        value.get(outer) is Some ==> value.at(outer, inner) == value.get(outer)->0.get(inner),
        member(None, inner) is None,
        member(Some(value), inner) == value.get(inner),
{
}

/// A value is read as what it is and as nothing else.
pub proof fn values_are_read_as_they_are(value: Json)
    ensures
        match value {
            Json::Null => {
                &&& text_of(Some(value)) is None
                &&& bool_of(Some(value)) is None
                &&& unsigned_of(Some(value)) is None
                &&& double_of(Some(value)) is None
                &&& scalar_of(Some(value)) is None
                &&& !present(Some(value))
            },
            Json::Bool(flag) => {
                &&& text_of(Some(value)) is None
                &&& bool_of(Some(value)) == Some(flag)
                &&& unsigned_of(Some(value)) is None
                &&& double_of(Some(value)) is None
                &&& scalar_of(Some(value)) is None
                &&& present(Some(value))
            },
            Json::Number(number) => {
                &&& text_of(Some(value)) is None
                &&& bool_of(Some(value)) is None
                &&& unsigned_of(Some(value)) == number.unsigned
                &&& double_of(Some(value)) == number.double_bits
                &&& scalar_of(Some(value)) == Some(number.text)
                &&& present(Some(value))
            },
            Json::Text(text) => {
                &&& text_of(Some(value)) == Some(text)
                &&& bool_of(Some(value)) is None
                &&& unsigned_of(Some(value)) is None
                &&& double_of(Some(value)) is None
                &&& scalar_of(Some(value)) == Some(text)
                &&& present(Some(value))
            },
            _ => {
                &&& text_of(Some(value)) is None
                &&& bool_of(Some(value)) is None
                &&& unsigned_of(Some(value)) is None
                &&& double_of(Some(value)) is None
                &&& scalar_of(Some(value)) is None
                &&& present(Some(value))
            },
        },
        text_of(None) is None,
        bool_of(None) is None,
        unsigned_of(None) is None,
        double_of(None) is None,
        scalar_of(None) is None,
        !present(None),
{
}

/// A value stands for itself, part by part.
pub proof fn values_stand_for_themselves(value: JsonValue)
    ensures
        match value {
            JsonValue::Null => value@ == Json::Null,
            JsonValue::Bool(flag) => value@ == Json::Bool(flag),
            JsonValue::Number(number) => value@ is Number && value@->Number_0.text == number.text@
                && value@->Number_0.unsigned == number.unsigned && value@->Number_0.double_bits
                == number.double_bits,
            JsonValue::Text(text) => value@ == Json::Text(text@),
            JsonValue::Array(values) => value@ is Array && value@->Array_0.len() == values@.len()
                && forall|i: int|
                0 <= i < values@.len() ==> #[trigger] value@->Array_0[i] == values@[i]@,
            JsonValue::Object(members) => value@ is Object && value@->Object_0.len()
                == members@.len() && forall|i: int|
                0 <= i < members@.len() ==> (#[trigger] value@->Object_0[i]).0 == members@[i].0@
                    && value@->Object_0[i].1 == members@[i].1@,
        },
{
    match value {
        JsonValue::Array(values) => {
            models_by_index(values@);
        },
        JsonValue::Object(members) => {
            member_models_by_index(members@);
        },
        _ => {},
    }
}

/// A level of a `serde_json::Value` stands for its own variant, over what is held below it.
pub proof fn levels_stand_for_their_variant(level: Level)
    ensures
        match level {
            Level::Null => level_held(level) == Json::Null,
            Level::Bool(flag) => level_held(level) == Json::Bool(flag),
            Level::Number(number) => level_held(level) == Json::Number(number_held(number)),
            Level::Text(text) => level_held(level) == Json::Text(text@),
            Level::Array(values) => level_held(level) is Array && level_held(level)->Array_0.len()
                == values@.len() && forall|i: int|
                0 <= i < values@.len() ==> #[trigger] level_held(level)->Array_0[i] == value_held(
                    values@[i],
                ),
            Level::Object(map) => level_held(level) is Object && level_held(level)->Object_0.len()
                == entries_held(map).len() && forall|i: int|
                0 <= i < entries_held(map).len() ==> #[trigger] level_held(level)->Object_0[i] == (
                    entries_held(map)[i].0@,
                    value_held(entries_held(map)[i].1),
                ),
        },
{
}

/// What may be missing is missing exactly when nothing is there, and stands for itself otherwise.
pub proof fn what_is_there_stands_for_itself(
    value: Option<&JsonValue>,
    text: Option<&str>,
    owned: Option<String>,
)
    ensures
        value is Some ==> view_of(value) == Some(value->0@),
        value is None ==> view_of(value) is None,
        text is Some ==> chars_of(text) == Some(text->0@),
        text is None ==> chars_of(text) is None,
        owned is Some ==> owned_chars(owned) == Some(owned->0@),
        owned is None ==> owned_chars(owned) is None,
{
}

/// A text is read exactly when it is one JSON document, and then as what that says.
pub proof fn documents_are_read(text: &str, tree: Option<JsonValue>)
    requires
        call_ensures(parse_json, (text,), tree),
    ensures
        tree is Some <==> document(text@) is Some,
        tree is Some ==> tree->0@ == document(text@)->0,
{
}

/// The number that decimal digits say.
pub open spec fn said_number(digits: Seq<char>) -> int
    decreases digits.len(),
{
    if digits.len() == 0 {
        0
    } else {
        10 * said_number(digits.drop_last()) + (digits.last() as int - 48)
    }
}

/// The decimal digits of a number say that number, and each is a digit.
pub proof fn decimals_say_the_number(number: nat)
    ensures
        said_number(decimal(number)) == number,
        decimal(number).len() > 0,
        forall|i: int|
            0 <= i < decimal(number).len() ==> 48 <= (#[trigger] decimal(number)[i]) as u32 <= 57,
    decreases number,
{
    let digit = ((number % 10) + ('0' as u32)) as char;
    assert(digit as u32 == number % 10 + 48);
    if number < 10 {
        let digits = decimal(number);
        assert(digits.drop_last() =~= Seq::<char>::empty());
        assert(digits.last() == digit);
        assert(said_number(digits.drop_last()) == 0);
    } else {
        decimals_say_the_number(number / 10);
        assert(decimal(number).drop_last() =~= decimal(number / 10));
        assert(decimal(number).last() == digit);
    }
}

} // verus!
