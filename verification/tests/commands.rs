use thermostat::json::status_payload;
use thermostat::mqtt::process_mqtt_event;
use thermostat::mqtt::process_mqtt_message;
use thermostat::mqtt::MqttNotification;
use thermostat::thermostat::ThermostatCommand;
use thermostat::thermostat::ThermostatEvent;

#[test]
fn parses_well_formed_payloads() {
    assert_eq!(ThermostatCommand::try_from("ON"), Ok(ThermostatCommand::On));
    assert_eq!(ThermostatCommand::try_from("OFF"), Ok(ThermostatCommand::Off));
    assert_eq!(
        ThermostatCommand::from_payload(b"ON"),
        Some(ThermostatCommand::On)
    );
    assert_eq!(
        ThermostatCommand::from_payload(b"OFF"),
        Some(ThermostatCommand::Off)
    );
}

#[test]
fn rejects_malformed_payloads() {
    assert!(ThermostatCommand::try_from("on").is_err());
    assert!(ThermostatCommand::try_from("").is_err());
    assert!(ThermostatCommand::try_from("TOGGLE").is_err());
    assert!(ThermostatCommand::try_from("ONN").is_err());
    assert!(ThermostatCommand::try_from("OF").is_err());
    assert_eq!(ThermostatCommand::from_payload(b"on"), None);
    assert_eq!(ThermostatCommand::from_payload(b""), None);
    assert_eq!(ThermostatCommand::from_payload(b"TOGGLE"), None);
}

#[test]
fn payload_text_matches_command() {
    assert_eq!(ThermostatCommand::On.payload(), "ON");
    assert_eq!(ThermostatCommand::Off.payload(), "OFF");
}

#[test]
fn status_payload_is_exact_json() {
    assert_eq!(status_payload(ThermostatCommand::On), "{\"state\":\"ON\"}");
    assert_eq!(status_payload(ThermostatCommand::Off), "{\"state\":\"OFF\"}");
}

#[test]
fn translator_passes_acknowledgements_through() {
    assert_eq!(
        process_mqtt_event(MqttNotification::Connected),
        Some(ThermostatEvent::MqttConnected)
    );
    assert_eq!(
        process_mqtt_event(MqttNotification::Subscribed(7)),
        Some(ThermostatEvent::TopicSubscribed(7))
    );
    assert_eq!(
        process_mqtt_event(MqttNotification::Published(9)),
        Some(ThermostatEvent::MessagePublished(9))
    );
    assert_eq!(process_mqtt_event(MqttNotification::Error), None);
    assert_eq!(process_mqtt_event(MqttNotification::Other), None);
}

#[test]
fn translator_parses_complete_messages() {
    assert_eq!(
        process_mqtt_event(MqttNotification::Received {
            data: b"ON".to_vec(),
            complete: true,
        }),
        Some(ThermostatEvent::CommandReceived(ThermostatCommand::On))
    );
    assert_eq!(
        process_mqtt_message(b"OFF", true),
        Some(ThermostatEvent::CommandReceived(ThermostatCommand::Off))
    );
}

#[test]
fn translator_drops_malformed_and_fragmented_messages() {
    assert_eq!(process_mqtt_message(b"on", true), None);
    assert_eq!(process_mqtt_message(b"", true), None);
    assert_eq!(process_mqtt_message(b"TOGGLE", true), None);
    assert_eq!(process_mqtt_message(b"ON", false), None);
    assert_eq!(
        process_mqtt_event(MqttNotification::Received {
            data: b"OFF".to_vec(),
            complete: false,
        }),
        None
    );
}
