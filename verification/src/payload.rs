//! The message body that a set of settings is reported as.

use vstd::prelude::*;
use crate::config::{Configuration, Settings};
use crate::json::{
    insert_bool, insert_unsigned, new_object, object_members, object_text, object_to_text,
    JsonMember,
};

verus! {

/// Key under which the battery charge is reported.
pub const BATTERY_KEY: &'static str = "battery";

/// Key under which the voltage is reported.
pub const VOLTAGE_KEY: &'static str = "voltage";

/// The body could not be encoded.
#[derive(Copy, Clone, PartialEq, Eq, Debug, Structural)]
pub struct SerializationError;

/// What the body holds under `key`, if anything. A reading that is present
/// owns its key: a trigger field of the same name gives way to it.
pub open spec fn payload_member(s: Settings, key: Seq<char>) -> Option<JsonMember> {
    if key == VOLTAGE_KEY@ && s.voltage_millivolts is Some {
        Some(JsonMember::Unsigned(s.voltage_millivolts->0 as u64))
    } else if key == BATTERY_KEY@ && s.battery_percent is Some {
        Some(JsonMember::Unsigned(s.battery_percent->0 as u64))
    } else if key == s.field_name {
        Some(JsonMember::Bool(s.field_value))
    } else {
        None
    }
}

/// The body as a mapping from keys to values.
pub open spec fn payload_members(s: Settings) -> Map<Seq<char>, JsonMember> {
    Map::new(
        |key: Seq<char>| payload_member(s, key) is Some,
        |key: Seq<char>| payload_member(s, key)->0,
    )
}

/// The two reading keys differ.
pub proof fn lemma_reading_keys_differ()
    ensures
        BATTERY_KEY@ != VOLTAGE_KEY@,
{
    reveal_strlit("battery");
    reveal_strlit("voltage");
    assert(BATTERY_KEY@[0] != VOLTAGE_KEY@[0]);
}

/// The encoded body.
pub open spec fn payload_text(s: Settings) -> Seq<char> {
    object_text(payload_members(s))
}

/// `built` is the outcome of `build` for `s`: success, with the encoded body.
pub open spec fn is_build_of(s: Settings, built: Result<String, SerializationError>) -> bool {
    built matches Ok(text) && text@ == payload_text(s)
}

/// Turns the outcome of the encoder into the outcome of building the body:
/// the text as it is, or `SerializationError` whatever the encoder's complaint.
pub fn conclude(encoded: Result<String, serde_json::Error>) -> (built: Result<
    String,
    SerializationError,
>)
    ensures
        match encoded {
            Ok(text) => built is Ok && built->Ok_0 == text,
            Err(_) => built is Err,
        },
{
    match encoded {
        Ok(text) => Ok(text),
        Err(_) => Err(SerializationError),
    }
}

/// Builds the body for `config`: a JSON object with the trigger field and
/// with each reading that is present. Accepted settings always have a body.
pub fn build(config: &Configuration) -> (built: Result<String, SerializationError>)
    ensures
        is_build_of(config@, built),
{
    let mut object = new_object();
    insert_bool(&mut object, config.field_name(), config.field_value());
    if let Some(percent) = config.battery_percent() {
        insert_unsigned(&mut object, BATTERY_KEY, percent as u64);
    }
    if let Some(millivolts) = config.voltage_millivolts() {
        insert_unsigned(&mut object, VOLTAGE_KEY, millivolts as u64);
    }
    proof {
        assert(object_members(object) =~= payload_members(config@));
    }
    conclude(object_to_text(&object))
}

/// The body holds the trigger under the field name, as a boolean, unless a
/// reading that is present has that very name.
pub proof fn lemma_trigger_is_reported(s: Settings)
    requires
        s.battery_percent is Some ==> s.field_name != BATTERY_KEY@,
        s.voltage_millivolts is Some ==> s.field_name != VOLTAGE_KEY@,
    ensures
        payload_members(s).contains_key(s.field_name),
        payload_members(s)[s.field_name] == JsonMember::Bool(s.field_value),
{
}

/// A battery charge that is present stands under `BATTERY_KEY`, as that
/// number. Without one the key is absent, unless the trigger field is named so.
pub proof fn lemma_battery_is_reported(s: Settings)
    ensures
        s.battery_percent matches Some(percent) ==> payload_members(s).contains_key(BATTERY_KEY@)
            && payload_members(s)[BATTERY_KEY@] == JsonMember::Unsigned(percent as u64),
        s.battery_percent is None && s.field_name != BATTERY_KEY@ ==> !payload_members(
            s,
        ).contains_key(BATTERY_KEY@),
{
    lemma_reading_keys_differ();
}

/// A voltage that is present stands under `VOLTAGE_KEY`, as that number.
/// Without one the key is absent, unless the trigger field is named so.
pub proof fn lemma_voltage_is_reported(s: Settings)
    ensures
        s.voltage_millivolts matches Some(millivolts) ==> payload_members(s).contains_key(
            VOLTAGE_KEY@,
        ) && payload_members(s)[VOLTAGE_KEY@] == JsonMember::Unsigned(millivolts as u64),
        s.voltage_millivolts is None && s.field_name != VOLTAGE_KEY@ ==> !payload_members(
            s,
        ).contains_key(VOLTAGE_KEY@),
{
    lemma_reading_keys_differ();
}

/// The body has no key but the field name and the keys of the readings that
/// are present, and no value but a boolean or an unsigned integer.
pub proof fn lemma_nothing_else_is_reported(s: Settings, key: Seq<char>)
    requires
        payload_members(s).contains_key(key),
    ensures
        key == s.field_name || (key == BATTERY_KEY@ && s.battery_percent is Some) || (key
            == VOLTAGE_KEY@ && s.voltage_millivolts is Some),
        !(payload_members(s)[key] is Other),
{
}

/// Building is repeatable: two outcomes for the same settings both succeed,
/// with the same text.
pub proof fn lemma_build_is_repeatable(
    s: Settings,
    first: Result<String, SerializationError>,
    second: Result<String, SerializationError>,
)
    requires
        is_build_of(s, first),
        is_build_of(s, second),
    ensures
        first is Ok,
        second is Ok,
        first->Ok_0@ == second->Ok_0@,
{
}

/// The body depends on the trigger field and the readings alone: settings
/// that agree on them have the same members and the same encoding.
pub proof fn lemma_body_ignores_the_rest(a: Settings, b: Settings)
    requires
        a.field_name == b.field_name,
        a.field_value == b.field_value,
        a.battery_percent == b.battery_percent,
        a.voltage_millivolts == b.voltage_millivolts,
    ensures
        payload_members(a) == payload_members(b),
        payload_text(a) == payload_text(b),
{
    assert(payload_members(a) =~= payload_members(b));
}

} // verus!
