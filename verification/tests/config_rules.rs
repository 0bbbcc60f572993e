use sensor_publisher::config::{
    Bool, Configuration, ConfigurationError, DEFAULT_BROKER_HOST, DEFAULT_BROKER_PORT,
    DEFAULT_SENSOR_ID, MAX_BATTERY_PERCENT, MAX_VOLTAGE_MILLIVOLTS,
};

fn settings(
    battery: Option<u8>,
    voltage: Option<u16>,
) -> Result<Configuration, ConfigurationError> {
    Configuration::new(
        String::from("home/sensor1"),
        String::from("motion"),
        true,
        String::from("localhost"),
        1883,
        battery,
        voltage,
        1,
    )
}

fn rejected(outcome: Result<Configuration, ConfigurationError>) -> Option<ConfigurationError> {
    match outcome {
        Ok(_) => None,
        Err(reason) => Some(reason),
    }
}

#[test]
fn bool_true_is_true() {
    assert!(Bool::True.to_bool());
}

#[test]
fn bool_false_is_false() {
    assert!(!Bool::False.to_bool());
}

#[test]
fn bool_spellings_differ() {
    assert_ne!(Bool::True, Bool::False);
    assert_ne!(Bool::True.to_bool(), Bool::False.to_bool());
}

#[test]
fn accepted_settings_are_kept_as_given() {
    let config = Configuration::new(
        String::from("home/sensor1"),
        String::from("motion"),
        false,
        String::from("broker.example"),
        8883,
        Some(87),
        Some(3700),
        42,
    )
    .unwrap();
    assert_eq!(config.topic(), "home/sensor1");
    assert_eq!(config.field_name(), "motion");
    assert!(!config.field_value());
    assert_eq!(config.broker_host(), "broker.example");
    assert_eq!(config.broker_port(), 8883);
    assert_eq!(config.battery_percent(), Some(87));
    assert_eq!(config.voltage_millivolts(), Some(3700));
    assert_eq!(config.sensor_id(), 42);
}

#[test]
fn defaults_are_localhost_1883_and_sensor_1() {
    assert_eq!(DEFAULT_BROKER_HOST, "localhost");
    assert_eq!(DEFAULT_BROKER_PORT, 1883);
    assert_eq!(DEFAULT_SENSOR_ID, 1);
    let config =
        Configuration::with_defaults(String::from("home/sensor1"), String::from("motion"), true)
            .unwrap();
    assert_eq!(config.topic(), "home/sensor1");
    assert_eq!(config.field_name(), "motion");
    assert!(config.field_value());
    assert_eq!(config.broker_host(), "localhost");
    assert_eq!(config.broker_port(), 1883);
    assert_eq!(config.battery_percent(), None);
    assert_eq!(config.voltage_millivolts(), None);
    assert_eq!(config.sensor_id(), 1);
}

#[test]
fn defaults_still_check_the_topic_and_the_field_name() {
    assert_eq!(
        rejected(Configuration::with_defaults(String::new(), String::from("motion"), true)),
        Some(ConfigurationError::EmptyTopic)
    );
    assert_eq!(
        rejected(Configuration::with_defaults(String::from("t"), String::new(), true)),
        Some(ConfigurationError::EmptyFieldName)
    );
}

#[test]
fn limits_are_100_percent_and_4200_millivolts() {
    assert_eq!(MAX_BATTERY_PERCENT, 100);
    assert_eq!(MAX_VOLTAGE_MILLIVOLTS, 4200);
}

#[test]
fn battery_0_is_accepted() {
    assert_eq!(settings(Some(0), None).unwrap().battery_percent(), Some(0));
}

#[test]
fn battery_100_is_accepted() {
    assert_eq!(settings(Some(100), None).unwrap().battery_percent(), Some(100));
}

#[test]
fn battery_101_is_rejected() {
    assert_eq!(rejected(settings(Some(101), None)), Some(ConfigurationError::BatteryOutOfRange));
}

#[test]
fn battery_150_is_rejected() {
    assert_eq!(rejected(settings(Some(150), None)), Some(ConfigurationError::BatteryOutOfRange));
}

#[test]
fn battery_255_is_rejected() {
    assert_eq!(rejected(settings(Some(255), None)), Some(ConfigurationError::BatteryOutOfRange));
}

#[test]
fn voltage_0_is_accepted() {
    assert_eq!(settings(None, Some(0)).unwrap().voltage_millivolts(), Some(0));
}

#[test]
fn voltage_4200_is_accepted() {
    assert_eq!(settings(None, Some(4200)).unwrap().voltage_millivolts(), Some(4200));
}

#[test]
fn voltage_4201_is_rejected() {
    assert_eq!(rejected(settings(None, Some(4201))), Some(ConfigurationError::VoltageOutOfRange));
}

#[test]
fn voltage_65535_is_rejected() {
    assert_eq!(
        rejected(settings(None, Some(65535))),
        Some(ConfigurationError::VoltageOutOfRange)
    );
}

#[test]
fn empty_topic_is_rejected() {
    let outcome = Configuration::new(
        String::new(),
        String::from("motion"),
        true,
        String::from("localhost"),
        1883,
        None,
        None,
        1,
    );
    assert_eq!(rejected(outcome), Some(ConfigurationError::EmptyTopic));
}

#[test]
fn empty_field_name_is_rejected() {
    let outcome = Configuration::new(
        String::from("home/sensor1"),
        String::new(),
        true,
        String::from("localhost"),
        1883,
        None,
        None,
        1,
    );
    assert_eq!(rejected(outcome), Some(ConfigurationError::EmptyFieldName));
}

#[test]
fn port_0_is_rejected() {
    let outcome = Configuration::new(
        String::from("home/sensor1"),
        String::from("motion"),
        true,
        String::from("localhost"),
        0,
        None,
        None,
        1,
    );
    assert_eq!(rejected(outcome), Some(ConfigurationError::PortOutOfRange));
}

#[test]
fn ports_1_and_65535_are_accepted() {
    for port in [1u16, 65535u16] {
        let config = Configuration::new(
            String::from("home/sensor1"),
            String::from("motion"),
            true,
            String::from("localhost"),
            port,
            None,
            None,
            1,
        )
        .unwrap();
        assert_eq!(config.broker_port(), port);
    }
}

#[test]
fn any_host_and_any_sensor_id_are_accepted() {
    let config = Configuration::new(
        String::from("t"),
        String::from("f"),
        true,
        String::new(),
        1,
        None,
        None,
        0,
    )
    .unwrap();
    assert_eq!(config.broker_host(), "");
    assert_eq!(config.sensor_id(), 0);
}

#[test]
fn the_first_broken_rule_is_reported() {
    let all_wrong = Configuration::new(
        String::new(),
        String::new(),
        true,
        String::from("localhost"),
        0,
        Some(101),
        Some(4201),
        1,
    );
    assert_eq!(rejected(all_wrong), Some(ConfigurationError::EmptyTopic));
    let name_onwards = Configuration::new(
        String::from("t"),
        String::new(),
        true,
        String::from("localhost"),
        0,
        Some(101),
        Some(4201),
        1,
    );
    assert_eq!(rejected(name_onwards), Some(ConfigurationError::EmptyFieldName));
    let port_onwards = Configuration::new(
        String::from("t"),
        String::from("f"),
        true,
        String::from("localhost"),
        0,
        Some(101),
        Some(4201),
        1,
    );
    assert_eq!(rejected(port_onwards), Some(ConfigurationError::PortOutOfRange));
    assert_eq!(
        rejected(settings(Some(101), Some(4201))),
        Some(ConfigurationError::BatteryOutOfRange)
    );
}
