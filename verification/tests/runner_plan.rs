use sensor_publisher::config::{Configuration, ConfigurationError};
use sensor_publisher::failure::{Failure, EXIT_ABORTED, EXIT_CONFIRMED, EXIT_USAGE};
use sensor_publisher::publisher::{Phase, Publisher};
use sensor_publisher::runner::{plan, prepare};

fn planned(battery: Option<u8>, voltage: Option<u16>) -> Result<Publisher, Failure> {
    plan(
        String::from("home/sensor1"),
        String::from("motion"),
        true,
        String::from("localhost"),
        1883,
        battery,
        voltage,
        1,
    )
}

fn failure_of(outcome: Result<Publisher, Failure>) -> Option<Failure> {
    match outcome {
        Ok(_) => None,
        Err(failure) => Some(failure),
    }
}

#[test]
fn exit_statuses() {
    assert_eq!(EXIT_CONFIRMED, 0);
    assert_eq!(EXIT_USAGE, 2);
    assert_eq!(EXIT_ABORTED, 101);
}

#[test]
fn a_plan_holds_the_body_and_has_not_begun() {
    let made = planned(Some(87), Some(3700)).unwrap();
    assert_eq!(made.phase(), Phase::Disconnected);
    assert_eq!(made.exit_status(), None);
    let request = made.publish_request();
    assert_eq!(request.topic, "home/sensor1");
    assert_eq!(request.payload, "{\"battery\":87,\"motion\":true,\"voltage\":3700}");
    let session = made.connect_request();
    assert_eq!(session.host, "localhost");
    assert_eq!(session.port, 1883);
}

#[test]
fn prepare_builds_the_body_of_the_settings() {
    let config = Configuration::new(
        String::from("garden/gate"),
        String::from("open"),
        false,
        String::from("10.0.0.2"),
        1884,
        None,
        Some(3000),
        3,
    )
    .unwrap();
    let made = prepare(config).unwrap();
    assert_eq!(made.phase(), Phase::Disconnected);
    assert_eq!(made.publish_request().topic, "garden/gate");
    assert_eq!(made.publish_request().payload, "{\"open\":false,\"voltage\":3000}");
    assert_eq!(made.connect_request().host, "10.0.0.2");
    assert_eq!(made.connect_request().port, 1884);
}

#[test]
fn scenario_battery_150_fails_before_any_run_exists() {
    let outcome = planned(Some(150), None);
    let failure = failure_of(outcome).unwrap();
    assert_eq!(failure, Failure::Configuration(ConfigurationError::BatteryOutOfRange));
    assert_ne!(failure.exit_status(), 0);
    assert_eq!(failure.exit_status(), 2);
}

#[test]
fn rejected_settings_become_configuration_failures() {
    assert_eq!(
        failure_of(planned(Some(101), None)),
        Some(Failure::Configuration(ConfigurationError::BatteryOutOfRange))
    );
    assert_eq!(
        failure_of(planned(None, Some(4201))),
        Some(Failure::Configuration(ConfigurationError::VoltageOutOfRange))
    );
    let no_topic = plan(
        String::new(),
        String::from("motion"),
        true,
        String::from("localhost"),
        1883,
        None,
        None,
        1,
    );
    assert_eq!(
        failure_of(no_topic),
        Some(Failure::Configuration(ConfigurationError::EmptyTopic))
    );
    let no_name = plan(
        String::from("t"),
        String::new(),
        true,
        String::from("localhost"),
        1883,
        None,
        None,
        1,
    );
    assert_eq!(
        failure_of(no_name),
        Some(Failure::Configuration(ConfigurationError::EmptyFieldName))
    );
    let no_port = plan(
        String::from("t"),
        String::from("f"),
        true,
        String::from("localhost"),
        0,
        None,
        None,
        1,
    );
    assert_eq!(
        failure_of(no_port),
        Some(Failure::Configuration(ConfigurationError::PortOutOfRange))
    );
}

#[test]
fn limits_are_planned() {
    assert!(planned(Some(0), Some(0)).is_ok());
    assert!(planned(Some(100), Some(4200)).is_ok());
}

#[test]
fn every_failure_has_a_non_zero_status() {
    let failures = [
        Failure::Configuration(ConfigurationError::EmptyTopic),
        Failure::Configuration(ConfigurationError::EmptyFieldName),
        Failure::Configuration(ConfigurationError::PortOutOfRange),
        Failure::Configuration(ConfigurationError::BatteryOutOfRange),
        Failure::Configuration(ConfigurationError::VoltageOutOfRange),
        Failure::Serialization,
        Failure::Connection,
        Failure::Publish,
        Failure::Confirmation,
    ];
    for failure in failures {
        assert_ne!(failure.exit_status(), 0);
        assert!(!failure.diagnostic().is_empty());
    }
    assert_eq!(Failure::Serialization.exit_status(), 101);
    assert_eq!(Failure::Connection.exit_status(), 101);
    assert_eq!(Failure::Publish.exit_status(), 101);
    assert_eq!(Failure::Confirmation.exit_status(), 101);
}

#[test]
fn diagnostics() {
    assert_eq!(Failure::Serialization.diagnostic(), "failed to serialize sensor payload");
    assert_eq!(Failure::Connection.diagnostic(), "the connection to the broker failed");
    assert_eq!(Failure::Publish.diagnostic(), "the publish request was rejected");
    assert_eq!(
        Failure::Confirmation.diagnostic(),
        "the session closed before the publish was sent"
    );
    assert_eq!(
        Failure::Configuration(ConfigurationError::EmptyTopic).diagnostic(),
        "the topic must not be empty"
    );
    assert_eq!(
        Failure::Configuration(ConfigurationError::EmptyFieldName).diagnostic(),
        "the payload field name must not be empty"
    );
    assert_eq!(
        Failure::Configuration(ConfigurationError::PortOutOfRange).diagnostic(),
        "the port must lie between 1 and 65535"
    );
    assert_eq!(
        Failure::Configuration(ConfigurationError::BatteryOutOfRange).diagnostic(),
        "the battery charge must lie between 0 and 100"
    );
    assert_eq!(
        Failure::Configuration(ConfigurationError::VoltageOutOfRange).diagnostic(),
        "the voltage must lie between 0 and 4200"
    );
}

#[test]
fn accepted_settings_never_fail_to_serialize() {
    for name in ["motion", "\u{7f}", "\"", "\\", "battery", "voltage"] {
        let outcome = plan(
            String::from("home/sensor1"),
            String::from(name),
            false,
            String::from("localhost"),
            1883,
            Some(100),
            Some(4200),
            1,
        );
        assert_ne!(failure_of(outcome), Some(Failure::Serialization));
    }
    assert!(planned(None, None).is_ok());
}
