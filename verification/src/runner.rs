//! From the arguments of an invocation to a run that is ready to begin.

use vstd::prelude::*;
use crate::config::{rejection, Configuration, Settings};
use crate::failure::Failure;
use crate::payload::{build, payload_text};
use crate::publisher::{Phase, Publisher, PublisherView};

verus! {

/// What `prepare` gives for settings `s`: a run that has not begun and holds
/// the encoded body.
pub open spec fn is_prepared(s: Settings, prepared: Result<Publisher, Failure>) -> bool {
    prepared matches Ok(publisher) && publisher@ == (PublisherView {
        settings: s,
        payload: payload_text(s),
        phase: Phase::Disconnected,
    })
}

/// Builds the body for `config` and sets up the run that will send it. This
/// always succeeds: no accepted settings are without a body.
pub fn prepare(config: Configuration) -> (prepared: Result<Publisher, Failure>)
    ensures
        is_prepared(config@, prepared),
{
    match build(&config) {
        Ok(payload) => Ok(Publisher::new(config, payload)),
        Err(_) => Err(Failure::Serialization),
    }
}

/// Checks the arguments of an invocation and prepares its run. Settings
/// that break a rule end here, as `Failure::Configuration` with the first
/// rule broken: no run exists then, so nothing is opened or sent. All other
/// settings give a run.
pub fn plan(
    topic: String,
    field_name: String,
    field_value: bool,
    broker_host: String,
    broker_port: u16,
    battery_percent: Option<u8>,
    voltage_millivolts: Option<u16>,
    sensor_id: u16,
) -> (planned: Result<Publisher, Failure>)
    ensures
        ({
            let asked = Settings {
                topic: topic@,
                field_name: field_name@,
                field_value,
                broker_host: broker_host@,
                broker_port,
                battery_percent,
                voltage_millivolts,
                sensor_id,
            };
            match rejection(asked) {
                Some(reason) => planned is Err && planned->Err_0 == Failure::Configuration(reason),
                None => is_prepared(asked, planned),
            }
        }),
{
    match Configuration::new(
        topic,
        field_name,
        field_value,
        broker_host,
        broker_port,
        battery_percent,
        voltage_millivolts,
        sensor_id,
    ) {
        Ok(config) => prepare(config),
        Err(reason) => Err(Failure::Configuration(reason)),
    }
}

} // verus!
