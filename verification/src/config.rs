//! The settings of one run and the rules that accept or reject them.

use vstd::prelude::*;

verus! {

/// Highest battery charge, in percent, that is accepted.
pub const MAX_BATTERY_PERCENT: u8 = 100;

/// Highest cell voltage, in millivolts, that is accepted.
pub const MAX_VOLTAGE_MILLIVOLTS: u16 = 4200;

/// Port of the broker when none is given.
pub const DEFAULT_BROKER_PORT: u16 = 1883;

/// Sensor number when none is given.
pub const DEFAULT_SENSOR_ID: u16 = 1;

/// Host of the broker when none is given.
pub const DEFAULT_BROKER_HOST: &'static str = "localhost";

/// The two states of a binary sensor, as they are spelled on the command line.
#[derive(Copy, Clone, PartialEq, Eq, PartialOrd, Ord, Debug, Structural)]
pub enum Bool {
    True,
    False,
}

impl Bool {
    /// The truth value that the spelling stands for.
    pub fn to_bool(&self) -> (b: bool)
        ensures
            b == (*self is True),
    {
        match self {
            Bool::True => true,
            Bool::False => false,
        }
    }
}

/// Why a set of settings was turned down.
#[derive(Copy, Clone, PartialEq, Eq, Debug, Structural)]
pub enum ConfigurationError {
    /// The topic is the empty string.
    EmptyTopic,
    /// The name of the payload field is the empty string.
    EmptyFieldName,
    /// The broker port is 0.
    PortOutOfRange,
    /// The battery charge is above `MAX_BATTERY_PERCENT`.
    BatteryOutOfRange,
    /// The voltage is above `MAX_VOLTAGE_MILLIVOLTS`.
    VoltageOutOfRange,
}

/// What a `Configuration` holds, as mathematical values.
pub struct Settings {
    pub topic: Seq<char>,
    pub field_name: Seq<char>,
    pub field_value: bool,
    pub broker_host: Seq<char>,
    pub broker_port: u16,
    pub battery_percent: Option<u8>,
    pub voltage_millivolts: Option<u16>,
    pub sensor_id: u16,
}

/// The first rule that `s` breaks, in the order topic, field name, port,
/// battery, voltage; `None` when it breaks none.
pub open spec fn rejection(s: Settings) -> Option<ConfigurationError> {
    if s.topic.len() == 0 {
        Some(ConfigurationError::EmptyTopic)
    } else if s.field_name.len() == 0 {
        Some(ConfigurationError::EmptyFieldName)
    } else if s.broker_port == 0 {
        Some(ConfigurationError::PortOutOfRange)
    } else if s.battery_percent matches Some(percent) && percent > MAX_BATTERY_PERCENT {
        Some(ConfigurationError::BatteryOutOfRange)
    } else if s.voltage_millivolts matches Some(millivolts) && millivolts
        > MAX_VOLTAGE_MILLIVOLTS {
        Some(ConfigurationError::VoltageOutOfRange)
    } else {
        None
    }
}

/// `s` breaks no rule.
pub open spec fn acceptable(s: Settings) -> bool {
    &&& s.topic.len() > 0
    &&& s.field_name.len() > 0
    &&& 1 <= s.broker_port
    &&& s.battery_percent matches Some(percent) ==> percent <= MAX_BATTERY_PERCENT
    &&& s.voltage_millivolts matches Some(millivolts) ==> millivolts <= MAX_VOLTAGE_MILLIVOLTS
}

/// Settings are acceptable exactly when no rule rejects them.
pub proof fn lemma_acceptable_iff_not_rejected(s: Settings)
    ensures
        acceptable(s) <==> rejection(s) is None,
{
}

/// The validated, immutable settings of one run.
pub struct Configuration {
    topic: String,
    field_name: String,
    field_value: bool,
    broker_host: String,
    broker_port: u16,
    battery_percent: Option<u8>,
    voltage_millivolts: Option<u16>,
    sensor_id: u16,
}

impl View for Configuration {
    type V = Settings;

    closed spec fn view(&self) -> Settings {
        Settings {
            topic: self.topic@,
            field_name: self.field_name@,
            field_value: self.field_value,
            broker_host: self.broker_host@,
            broker_port: self.broker_port,
            battery_percent: self.battery_percent,
            voltage_millivolts: self.voltage_millivolts,
            sensor_id: self.sensor_id,
        }
    }
}

impl Configuration {
    #[verifier::type_invariant]
    spec fn well_formed(&self) -> bool {
        acceptable(self@)
    }

    /// Checks the settings and keeps them if every rule holds; otherwise
    /// reports the first rule that is broken.
    pub fn new(
        topic: String,
        field_name: String,
        field_value: bool,
        broker_host: String,
        broker_port: u16,
        battery_percent: Option<u8>,
        voltage_millivolts: Option<u16>,
        sensor_id: u16,
    ) -> (outcome: Result<Configuration, ConfigurationError>)
        ensures
            ({
                let asked = Settings {
                    topic: topic@,
                    field_name: field_name@,
                    field_value,
                    broker_host: broker_host@,
                    broker_port,
                    battery_percent,
                    voltage_millivolts,
                    sensor_id,
                };
                match rejection(asked) {
                    Some(reason) => outcome is Err && outcome->Err_0 == reason,
                    None => outcome is Ok && outcome->Ok_0@ == asked,
                }
            }),
    {
        if topic.as_str().is_empty() {
            return Err(ConfigurationError::EmptyTopic);
        }
        if field_name.as_str().is_empty() {
            return Err(ConfigurationError::EmptyFieldName);
        }
        if broker_port == 0 {
            return Err(ConfigurationError::PortOutOfRange);
        }
        if let Some(percent) = battery_percent {
            if percent > MAX_BATTERY_PERCENT {
                return Err(ConfigurationError::BatteryOutOfRange);
            }
        }
        if let Some(millivolts) = voltage_millivolts {
            if millivolts > MAX_VOLTAGE_MILLIVOLTS {
                return Err(ConfigurationError::VoltageOutOfRange);
            }
        }
        Ok(
            Configuration {
                topic,
                field_name,
                field_value,
                broker_host,
                broker_port,
                battery_percent,
                voltage_millivolts,
                sensor_id,
            },
        )
    }

    /// Settings with only the topic and the trigger given: the broker at
    /// `DEFAULT_BROKER_HOST` and `DEFAULT_BROKER_PORT`, no readings, and
    /// `DEFAULT_SENSOR_ID`.
    pub fn with_defaults(topic: String, field_name: String, field_value: bool) -> (outcome: Result<
        Configuration,
        ConfigurationError,
    >)
        ensures
            ({
                let asked = Settings {
                    topic: topic@,
                    field_name: field_name@,
                    field_value,
                    broker_host: DEFAULT_BROKER_HOST@,
                    broker_port: DEFAULT_BROKER_PORT,
                    battery_percent: None,
                    voltage_millivolts: None,
                    sensor_id: DEFAULT_SENSOR_ID,
                };
                match rejection(asked) {
                    Some(reason) => outcome is Err && outcome->Err_0 == reason,
                    None => outcome is Ok && outcome->Ok_0@ == asked,
                }
            }),
    {
        Configuration::new(
            topic,
            field_name,
            field_value,
            DEFAULT_BROKER_HOST.to_owned(),
            DEFAULT_BROKER_PORT,
            None,
            None,
            DEFAULT_SENSOR_ID,
        )
    }

    /// The channel that the message goes to: never the empty string.
    pub fn topic(&self) -> (topic: &str)
        ensures
            topic@ == self@.topic,
            topic@.len() > 0,
    {
        proof {
            use_type_invariant(self);
        }
        self.topic.as_str()
    }

    /// The key of the trigger field: never the empty string.
    pub fn field_name(&self) -> (name: &str)
        ensures
            name@ == self@.field_name,
            name@.len() > 0,
    {
        proof {
            use_type_invariant(self);
        }
        self.field_name.as_str()
    }

    /// Whether the sensor is triggered.
    pub fn field_value(&self) -> (value: bool)
        ensures
            value == self@.field_value,
    {
        self.field_value
    }

    /// Host of the broker.
    pub fn broker_host(&self) -> (host: &str)
        ensures
            host@ == self@.broker_host,
    {
        self.broker_host.as_str()
    }

    /// Port of the broker: never 0.
    pub fn broker_port(&self) -> (port: u16)
        ensures
            port == self@.broker_port,
            port >= 1,
    {
        proof {
            use_type_invariant(self);
        }
        self.broker_port
    }

    /// Battery charge in percent, if it is reported: never above
    /// `MAX_BATTERY_PERCENT`.
    pub fn battery_percent(&self) -> (percent: Option<u8>)
        ensures
            percent == self@.battery_percent,
            percent matches Some(charge) ==> charge <= MAX_BATTERY_PERCENT,
    {
        proof {
            use_type_invariant(self);
        }
        self.battery_percent
    }

    /// Voltage in millivolts, if it is reported: never above
    /// `MAX_VOLTAGE_MILLIVOLTS`.
    pub fn voltage_millivolts(&self) -> (millivolts: Option<u16>)
        ensures
            millivolts == self@.voltage_millivolts,
            millivolts matches Some(reading) ==> reading <= MAX_VOLTAGE_MILLIVOLTS,
    {
        proof {
            use_type_invariant(self);
        }
        self.voltage_millivolts
    }

    /// Number of the sensor. It names the device to other tools and is not
    /// part of the message.
    pub fn sensor_id(&self) -> (id: u16)
        ensures
            id == self@.sensor_id,
    {
        self.sensor_id
    }
}

} // verus!
