use thermostat::json::configuration_payload;
use thermostat::json::state_message_payload;
use thermostat::thermostat::Device;
use thermostat::thermostat::ThermostatConfiguration;
use thermostat::thermostat::ThermostatState;
use thermostat::thermostat::ThermostatStateMsg;
use thermostat::Config;

fn sample_configuration() -> ThermostatConfiguration {
    ThermostatConfiguration {
        payload_off: String::from("OFF"),
        payload_on: String::from("ON"),
        value_template: String::from("{{ value_json.state }}"),
        command_topic: String::from("custom_devices/heater/set"),
        state_topic: String::from("custom_devices/heater"),
        name: String::from("abc123_switch"),
        unique_id: String::from("abc123"),
        device: Device {
            identifiers: vec![String::from("custom_device_abc123")],
            name: String::from("abc123"),
            sw_version: String::from("1.0"),
            model: String::from("Thermostat"),
            manufacturer: String::from("Tropicao"),
        },
    }
}

#[test]
fn configuration_payload_is_exact_json() {
    let expected = "{\"payload_off\":\"OFF\",\"payload_on\":\"ON\",\"value_template\":\"{{ value_json.state }}\",\"command_topic\":\"custom_devices/heater/set\",\"state_topic\":\"custom_devices/heater\",\"name\":\"abc123_switch\",\"unique_id\":\"abc123\",\"device\":{\"identifiers\":[\"custom_device_abc123\"],\"name\":\"abc123\",\"sw_version\":\"1.0\",\"model\":\"Thermostat\",\"manufacturer\":\"Tropicao\"}}";
    assert_eq!(configuration_payload(&sample_configuration()), expected);
}

#[test]
fn new_state_derives_topics_and_configuration() {
    let state = ThermostatState::new(&Config {
        wifi_ssid: String::from("ssid"),
        wifi_psk: String::from("psk"),
        uuid: String::from("abc123"),
        mqtt_host: String::from("127.0.0.1"),
    });
    assert_eq!(state.command_topic, "custom_devices/heater/set");
    assert_eq!(state.state_topic, "custom_devices/heater");
    assert_eq!(
        state.config_topic,
        "homeassistant/switch/abc123/switch/config"
    );
    let expected = configuration_payload(&sample_configuration());
    assert_eq!(configuration_payload(&state.configuration), expected);
}

#[test]
fn configuration_round_trips_through_a_json_parser() {
    let configuration = sample_configuration();
    let text = configuration_payload(&configuration);
    let value: serde_json::Value = serde_json::from_str(&text).expect("valid JSON");
    assert_eq!(value["payload_off"].as_str(), Some("OFF"));
    assert_eq!(value["payload_on"].as_str(), Some("ON"));
    assert_eq!(
        value["value_template"].as_str(),
        Some("{{ value_json.state }}")
    );
    assert_eq!(
        value["command_topic"].as_str(),
        Some("custom_devices/heater/set")
    );
    assert_eq!(value["state_topic"].as_str(), Some("custom_devices/heater"));
    assert_eq!(value["name"].as_str(), Some("abc123_switch"));
    assert_eq!(value["unique_id"].as_str(), Some("abc123"));
    let device = &value["device"];
    assert_eq!(
        device["identifiers"][0].as_str(),
        Some("custom_device_abc123")
    );
    assert_eq!(device["identifiers"].as_array().map(|a| a.len()), Some(1));
    assert_eq!(device["name"].as_str(), Some("abc123"));
    assert_eq!(device["sw_version"].as_str(), Some("1.0"));
    assert_eq!(device["model"].as_str(), Some("Thermostat"));
    assert_eq!(device["manufacturer"].as_str(), Some("Tropicao"));
}

#[test]
fn escaping_round_trips_through_a_json_parser() {
    let mut configuration = sample_configuration();
    configuration.name = String::from("a \"quoted\" name");
    configuration.device.manufacturer = String::from("back\\slash \\\" mix");
    configuration.device.identifiers = vec![
        String::from("plain"),
        String::from("with \"quotes\""),
        String::from("with \\ backslash"),
    ];
    let text = configuration_payload(&configuration);
    let value: serde_json::Value = serde_json::from_str(&text).expect("valid JSON");
    assert_eq!(value["name"].as_str(), Some("a \"quoted\" name"));
    let device = &value["device"];
    assert_eq!(device["manufacturer"].as_str(), Some("back\\slash \\\" mix"));
    assert_eq!(device["identifiers"][0].as_str(), Some("plain"));
    assert_eq!(device["identifiers"][1].as_str(), Some("with \"quotes\""));
    assert_eq!(device["identifiers"][2].as_str(), Some("with \\ backslash"));
}

#[test]
fn empty_identifier_list_encodes_as_empty_array() {
    let mut configuration = sample_configuration();
    configuration.device.identifiers = Vec::new();
    let text = configuration_payload(&configuration);
    let value: serde_json::Value = serde_json::from_str(&text).expect("valid JSON");
    assert_eq!(
        value["device"]["identifiers"].as_array().map(|a| a.len()),
        Some(0)
    );
}

#[test]
fn state_message_encodes_its_field() {
    let msg = ThermostatStateMsg {
        state: String::from("ON"),
    };
    assert_eq!(state_message_payload(&msg), "{\"state\":\"ON\"}");
}
