use thermostat::thermostat::process_thermostat_event;
use thermostat::thermostat::record_request_outcome;
use thermostat::thermostat::Phase;
use thermostat::thermostat::StepActions;
use thermostat::thermostat::ThermostatCommand;
use thermostat::thermostat::ThermostatEvent;
use thermostat::thermostat::ThermostatState;
use thermostat::thermostat::TransportRequest;
use thermostat::Config;

fn test_config() -> Config {
    Config {
        wifi_ssid: String::from("ssid"),
        wifi_psk: String::from("psk"),
        uuid: String::from("abc123"),
        mqtt_host: String::from("127.0.0.1"),
    }
}

/// Feeds the machine one event and simulates a transport whose subscribe
/// calls return 1, 2, ... and whose publish calls return 3, 4, ... as the
/// startup scenario fixes them; records every actuator drive.
fn deliver(
    state: &mut ThermostatState,
    event: ThermostatEvent,
    next_sub_id: &mut u32,
    next_pub_id: &mut u32,
    drives: &mut Vec<ThermostatCommand>,
) {
    let actions = process_thermostat_event(state, event);
    if let Some(cmd) = actions.drive {
        drives.push(cmd);
    }
    if let Some(request) = actions.request {
        let id = match request {
            TransportRequest::SubscribeCommandTopic | TransportRequest::SubscribeStateTopic => {
                let id = *next_sub_id;
                *next_sub_id += 1;
                id
            }
            TransportRequest::PublishDiscovery | TransportRequest::PublishStatus(_) => {
                let id = *next_pub_id;
                *next_pub_id += 1;
                id
            }
        };
        record_request_outcome(state, request, Some(id));
    }
}

#[test]
fn startup_protocol_reaches_operating() {
    let mut state = ThermostatState::new(&test_config());
    let mut next_sub_id: u32 = 1;
    let mut next_pub_id: u32 = 3;
    let mut drives: Vec<ThermostatCommand> = Vec::new();

    assert_eq!(state.phase, Phase::Disconnected);
    let events = vec![
        ThermostatEvent::MqttConnected,
        ThermostatEvent::TopicSubscribed(1),
        ThermostatEvent::TopicSubscribed(2),
        ThermostatEvent::MessagePublished(3),
    ];
    for event in events {
        deliver(
            &mut state,
            event,
            &mut next_sub_id,
            &mut next_pub_id,
            &mut drives,
        );
    }
    assert_eq!(state.phase, Phase::Operating);
    assert_eq!(state.command_topic_sub_id, None);
    assert_eq!(state.state_topic_sub_id, None);
    assert_eq!(state.pub_id, None);
    // Exactly one subscribe per topic and one discovery publish happened.
    assert_eq!(next_sub_id, 3);
    assert_eq!(next_pub_id, 4);
    assert!(drives.is_empty());
}

#[test]
fn startup_then_command_scenario() {
    // Events [Connected, SubAcked(1), SubAcked(2), PubAcked(3),
    // CommandReceived(On)] with subscribe ids 1 then 2 and publish ids 3
    // then 4: one drive to energized, pending publish 4, phase Operating.
    let mut state = ThermostatState::new(&test_config());
    let mut next_sub_id: u32 = 1;
    let mut next_pub_id: u32 = 3;
    let mut drives: Vec<ThermostatCommand> = Vec::new();

    let events = vec![
        ThermostatEvent::MqttConnected,
        ThermostatEvent::TopicSubscribed(1),
        ThermostatEvent::TopicSubscribed(2),
        ThermostatEvent::MessagePublished(3),
        ThermostatEvent::CommandReceived(ThermostatCommand::On),
    ];
    for event in events {
        deliver(
            &mut state,
            event,
            &mut next_sub_id,
            &mut next_pub_id,
            &mut drives,
        );
    }
    assert_eq!(drives, vec![ThermostatCommand::On]);
    assert_eq!(state.pub_id, Some(4));
    assert_eq!(state.phase, Phase::Operating);
}

#[test]
fn repeated_command_supersedes_pending_publish() {
    // CommandReceived(Off) twice before any publish ack: two publishes,
    // only the second id stays tracked, the superseded ack is ignored,
    // and the actuator ends de-energized.
    let mut state = ThermostatState::new(&test_config());
    let mut next_sub_id: u32 = 1;
    let mut next_pub_id: u32 = 10;
    let mut drives: Vec<ThermostatCommand> = Vec::new();

    deliver(
        &mut state,
        ThermostatEvent::CommandReceived(ThermostatCommand::Off),
        &mut next_sub_id,
        &mut next_pub_id,
        &mut drives,
    );
    deliver(
        &mut state,
        ThermostatEvent::CommandReceived(ThermostatCommand::Off),
        &mut next_sub_id,
        &mut next_pub_id,
        &mut drives,
    );
    assert_eq!(drives, vec![ThermostatCommand::Off, ThermostatCommand::Off]);
    assert_eq!(next_pub_id, 12, "two publishes were issued");
    assert_eq!(state.pub_id, Some(11), "only the second id stays tracked");

    // The ack for the superseded first publish is ignored.
    let stale = process_thermostat_event(&mut state, ThermostatEvent::MessagePublished(10));
    assert_eq!(
        stale,
        StepActions {
            drive: None,
            request: None,
        }
    );
    assert_eq!(state.pub_id, Some(11));

    // The ack for the second publish clears the slot.
    process_thermostat_event(&mut state, ThermostatEvent::MessagePublished(11));
    assert_eq!(state.pub_id, None);
}

#[test]
fn stale_acknowledgements_change_nothing() {
    let mut state = ThermostatState::new(&test_config());
    let mut next_sub_id: u32 = 1;
    let mut next_pub_id: u32 = 3;
    let mut drives: Vec<ThermostatCommand> = Vec::new();

    deliver(
        &mut state,
        ThermostatEvent::MqttConnected,
        &mut next_sub_id,
        &mut next_pub_id,
        &mut drives,
    );
    assert_eq!(state.phase, Phase::SubscribingCommand);
    assert_eq!(state.command_topic_sub_id, Some(1));

    // A subscription ack with a foreign id advances nothing.
    let actions = process_thermostat_event(&mut state, ThermostatEvent::TopicSubscribed(42));
    assert_eq!(
        actions,
        StepActions {
            drive: None,
            request: None,
        }
    );
    assert_eq!(state.phase, Phase::SubscribingCommand);
    assert_eq!(state.command_topic_sub_id, Some(1));

    // A publish ack while nothing is pending advances nothing.
    let actions = process_thermostat_event(&mut state, ThermostatEvent::MessagePublished(1));
    assert_eq!(
        actions,
        StepActions {
            drive: None,
            request: None,
        }
    );
    assert_eq!(state.phase, Phase::SubscribingCommand);

    // A second connected notification while already connecting is ignored.
    let actions = process_thermostat_event(&mut state, ThermostatEvent::MqttConnected);
    assert_eq!(
        actions,
        StepActions {
            drive: None,
            request: None,
        }
    );
    assert_eq!(state.phase, Phase::SubscribingCommand);
}

#[test]
fn refused_request_stalls_the_phase() {
    // The transport refuses the subscribe: no pending id is recorded and
    // the handshake never advances past the same phase.
    let mut state = ThermostatState::new(&test_config());
    let actions = process_thermostat_event(&mut state, ThermostatEvent::MqttConnected);
    assert_eq!(
        actions.request,
        Some(TransportRequest::SubscribeCommandTopic)
    );
    record_request_outcome(&mut state, TransportRequest::SubscribeCommandTopic, None);
    assert_eq!(state.command_topic_sub_id, None);
    assert_eq!(state.phase, Phase::SubscribingCommand);

    let actions = process_thermostat_event(&mut state, ThermostatEvent::TopicSubscribed(1));
    assert_eq!(
        actions,
        StepActions {
            drive: None,
            request: None,
        }
    );
    assert_eq!(state.phase, Phase::SubscribingCommand);
}
