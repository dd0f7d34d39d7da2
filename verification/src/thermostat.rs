//! The protocol state machine of the controller.
//!
//! The machine consumes one domain event at a time and decides which
//! transport request and which actuator drive, if any, follow from it. It
//! performs no I/O itself: the caller executes the returned request and
//! hands the resulting correlation identifier back through
//! [`record_request_outcome`]. The whole transition relation is written
//! down once, as the spec function [`spec_step`], and the executable
//! handler is proved to implement it exactly.
use vstd::prelude::*;
use vstd::string::StringSliceAdditionalSpecFns;

verus! {

/// A command parsed from the two-valued wire payload (`"ON"` / `"OFF"`).
#[derive(Clone, Copy, Debug, PartialEq, Eq, Structural)]
pub enum ThermostatCommand {
    On,
    Off,
}

impl ThermostatCommand {
    /// The textual payload that announces this command on the wire.
    pub open spec fn spec_payload(self) -> Seq<char> {
        match self {
            ThermostatCommand::On => "ON"@,
            ThermostatCommand::Off => "OFF"@,
        }
    }

    /// The command a well-formed payload denotes: exactly the UTF-8 bytes
    /// of `"ON"` (79, 78) and `"OFF"` (79, 70, 70) are recognized,
    /// anything else is not.
    pub open spec fn spec_from_payload(data: Seq<u8>) -> Option<ThermostatCommand> {
        if data == seq![79u8, 78u8] {
            Some(ThermostatCommand::On)
        } else if data == seq![79u8, 70u8, 70u8] {
            Some(ThermostatCommand::Off)
        } else {
            None
        }
    }

    /// The payload text of this command, `"ON"` or `"OFF"`.
    pub fn payload(&self) -> (r: &'static str)
        ensures
            r@ == self.spec_payload(),
    {
        match self {
            ThermostatCommand::On => "ON",
            ThermostatCommand::Off => "OFF",
        }
    }

    /// Parses a raw payload; returns `None` on anything but `"ON"`/`"OFF"`.
    pub fn from_payload(data: &[u8]) -> (r: Option<ThermostatCommand>)
        ensures
            r == Self::spec_from_payload(data@),
    {
        if data.len() == 2 && data[0] == 79u8 && data[1] == 78u8 {
            proof {
                assert(data@ =~= seq![79u8, 78u8]);
            }
            Some(ThermostatCommand::On)
        } else if data.len() == 3 && data[0] == 79u8 && data[1] == 70u8 && data[2] == 70u8 {
            proof {
                assert(data@ =~= seq![79u8, 70u8, 70u8]);
            }
            Some(ThermostatCommand::Off)
        } else {
            proof {
                if data@ == seq![79u8, 78u8] {
                    assert(data@.len() == 2 && data@[0] == 79u8 && data@[1] == 78u8);
                }
                if data@ == seq![79u8, 70u8, 70u8] {
                    assert(data@.len() == 3 && data@[0] == 79u8 && data@[1] == 70u8 && data@[2]
                        == 70u8);
                }
            }
            None
        }
    }

    /// Parses a textual payload, as the wire contract states it; the error
    /// case carries a fixed diagnostic message.
    pub fn try_from(value: &str) -> (r: Result<ThermostatCommand, &'static str>)
        ensures
            r matches Ok(c) ==> Self::spec_from_payload(value.spec_bytes()) == Some(c),
            r is Err <==> Self::spec_from_payload(value.spec_bytes()) is None,
    {
        match Self::from_payload(value.as_bytes()) {
            Some(c) => Ok(c),
            None => Err("Unrecognized thermostat command"),
        }
    }
}

/// A domain event, produced by the event translator and consumed here.
#[derive(Clone, Copy, Debug, PartialEq, Eq, Structural)]
pub enum ThermostatEvent {
    MqttConnected,
    TopicSubscribed(u32),
    CommandReceived(ThermostatCommand),
    MessagePublished(u32),
}

/// The protocol phase: connect, subscribe to the command topic, subscribe
/// to the state topic, publish the discovery configuration, then operate.
#[derive(Clone, Copy, Debug, PartialEq, Eq, Structural)]
pub enum Phase {
    Disconnected,
    SubscribingCommand,
    SubscribingState,
    PublishingDiscovery,
    Operating,
}

/// A transport request the machine asks its caller to perform.
#[derive(Clone, Copy, Debug, PartialEq, Eq, Structural)]
pub enum TransportRequest {
    SubscribeCommandTopic,
    SubscribeStateTopic,
    PublishDiscovery,
    PublishStatus(ThermostatCommand),
}

/// The side effects one step asks for: at most one actuator drive and at
/// most one transport request.
#[derive(Clone, Copy, Debug, PartialEq, Eq)]
pub struct StepActions {
    pub drive: Option<ThermostatCommand>,
    pub request: Option<TransportRequest>,
}

/// The descriptor of the physical device inside the discovery record.
pub struct Device {
    pub identifiers: Vec<String>,
    pub name: String,
    pub sw_version: String,
    pub model: String,
    pub manufacturer: String,
}

/// The fields of a [`Device`], as mathematical values.
#[verifier::ext_equal]
pub struct DeviceFields {
    pub identifiers: Seq<Seq<char>>,
    pub name: Seq<char>,
    pub sw_version: Seq<char>,
    pub model: Seq<char>,
    pub manufacturer: Seq<char>,
}

impl View for Device {
    type V = DeviceFields;

    open spec fn view(&self) -> DeviceFields {
        DeviceFields {
            identifiers: self.identifiers.deep_view(),
            name: self.name@,
            sw_version: self.sw_version@,
            model: self.model@,
            manufacturer: self.manufacturer@,
        }
    }
}

/// The discovery-configuration record, published once so that the hub can
/// auto-discover the device and its control surface.
pub struct ThermostatConfiguration {
    pub payload_off: String,
    pub payload_on: String,
    pub value_template: String,
    pub command_topic: String,
    pub state_topic: String,
    pub name: String,
    pub unique_id: String,
    pub device: Device,
}

/// The fields of a [`ThermostatConfiguration`], as mathematical values.
#[verifier::ext_equal]
pub struct ConfigurationFields {
    pub payload_off: Seq<char>,
    pub payload_on: Seq<char>,
    pub value_template: Seq<char>,
    pub command_topic: Seq<char>,
    pub state_topic: Seq<char>,
    pub name: Seq<char>,
    pub unique_id: Seq<char>,
    pub device: DeviceFields,
}

impl View for ThermostatConfiguration {
    type V = ConfigurationFields;

    open spec fn view(&self) -> ConfigurationFields {
        ConfigurationFields {
            payload_off: self.payload_off@,
            payload_on: self.payload_on@,
            value_template: self.value_template@,
            command_topic: self.command_topic@,
            state_topic: self.state_topic@,
            name: self.name@,
            unique_id: self.unique_id@,
            device: self.device@,
        }
    }
}

/// The status record published on the state topic after every command.
pub struct ThermostatStateMsg {
    pub state: String,
}

/// The status record that reflects a command: its one field holds the
/// command's payload text.
pub fn status_message(cmd: ThermostatCommand) -> (msg: ThermostatStateMsg)
    ensures
        msg.state@ == cmd.spec_payload(),
{
    ThermostatStateMsg { state: String::from_str(cmd.payload()) }
}

/// The state machine's record: the phase, one pending correlation
/// identifier per request category, and the immutable per-instance
/// identifiers.
pub struct ThermostatState {
    pub phase: Phase,
    pub command_topic: String,
    pub state_topic: String,
    pub config_topic: String,
    pub configuration: ThermostatConfiguration,
    pub state_topic_sub_id: Option<u32>,
    pub command_topic_sub_id: Option<u32>,
    pub pub_id: Option<u32>,
}

/// The discovery configuration a device with this identifier announces:
/// fixed payloads, template and topics, and identity fields derived from
/// the identifier.
pub open spec fn spec_initial_configuration(uuid: Seq<char>) -> ConfigurationFields {
    ConfigurationFields {
        payload_off: "OFF"@,
        payload_on: "ON"@,
        value_template: "{{ value_json.state }}"@,
        command_topic: "custom_devices/heater/set"@,
        state_topic: "custom_devices/heater"@,
        name: uuid + "_switch"@,
        unique_id: uuid,
        device: DeviceFields {
            identifiers: seq!["custom_device_"@ + uuid],
            name: uuid,
            sw_version: "1.0"@,
            model: "Thermostat"@,
            manufacturer: "Tropicao"@,
        },
    }
}

impl ThermostatState {
    /// A freshly started machine: disconnected, nothing pending, topics
    /// and discovery configuration derived from the configured device
    /// identifier.
    pub fn new(config: &crate::Config) -> (r: ThermostatState)
        ensures
            r.phase is Disconnected,
            r.command_topic_sub_id is None,
            r.state_topic_sub_id is None,
            r.pub_id is None,
            r.command_topic@ == "custom_devices/heater/set"@,
            r.state_topic@ == "custom_devices/heater"@,
            r.config_topic@ == "homeassistant/switch/"@ + config.uuid@ + "/switch/config"@,
            r.configuration@ == spec_initial_configuration(config.uuid@),
    {
        let mut config_topic = String::from_str("homeassistant/switch/");
        config_topic.append(config.uuid.as_str());
        config_topic.append("/switch/config");

        let mut name = config.uuid.clone();
        name.append("_switch");

        let mut identifier = String::from_str("custom_device_");
        identifier.append(config.uuid.as_str());
        let mut identifiers: Vec<String> = Vec::new();
        identifiers.push(identifier);

        let r = ThermostatState {
            phase: Phase::Disconnected,
            command_topic: String::from_str("custom_devices/heater/set"),
            state_topic: String::from_str("custom_devices/heater"),
            config_topic,
            configuration: ThermostatConfiguration {
                payload_off: String::from_str("OFF"),
                payload_on: String::from_str("ON"),
                value_template: String::from_str("{{ value_json.state }}"),
                command_topic: String::from_str("custom_devices/heater/set"),
                state_topic: String::from_str("custom_devices/heater"),
                name,
                unique_id: config.uuid.clone(),
                device: Device {
                    identifiers,
                    name: config.uuid.clone(),
                    sw_version: String::from_str("1.0"),
                    model: String::from_str("Thermostat"),
                    manufacturer: String::from_str("Tropicao"),
                },
            },
            state_topic_sub_id: None,
            command_topic_sub_id: None,
            pub_id: None,
        };
        proof {
            assert(r.configuration.device@.identifiers =~~= seq!["custom_device_"@ + config.uuid@]);
            assert(r.configuration@ =~~= spec_initial_configuration(config.uuid@));
        }
        r
    }
}

/// The transition relation, one event per step.
///
/// - `MqttConnected` while disconnected asks for the command-topic
///   subscription; in any other phase the event is ignored.
/// - A subscription acknowledgement advances the handshake only when its
///   identifier matches the pending one of the current phase.
/// - A publish acknowledgement matching the pending publish clears it, and
///   completes the handshake when the discovery publish was the one
///   pending; a non-matching (stale or foreign) acknowledgement is ignored.
/// - A received command, in any phase, asks for one actuator drive and one
///   status publish reflecting the command.
pub open spec fn spec_step(pre: ThermostatState, event: ThermostatEvent) -> (ThermostatState, StepActions) {
    match event {
        ThermostatEvent::MqttConnected => {
            if pre.phase is Disconnected {
                (
                    ThermostatState { phase: Phase::SubscribingCommand, ..pre },
                    StepActions { drive: None, request: Some(TransportRequest::SubscribeCommandTopic) },
                )
            } else {
                (pre, StepActions { drive: None, request: None })
            }
        },
        ThermostatEvent::TopicSubscribed(id) => {
            if pre.phase is SubscribingCommand && pre.command_topic_sub_id == Some(id) {
                (
                    ThermostatState {
                        phase: Phase::SubscribingState,
                        command_topic_sub_id: None,
                        ..pre
                    },
                    StepActions { drive: None, request: Some(TransportRequest::SubscribeStateTopic) },
                )
            } else if pre.phase is SubscribingState && pre.state_topic_sub_id == Some(id) {
                (
                    ThermostatState {
                        phase: Phase::PublishingDiscovery,
                        state_topic_sub_id: None,
                        ..pre
                    },
                    StepActions { drive: None, request: Some(TransportRequest::PublishDiscovery) },
                )
            } else {
                (pre, StepActions { drive: None, request: None })
            }
        },
        ThermostatEvent::MessagePublished(id) => {
            if pre.pub_id == Some(id) {
                (
                    ThermostatState {
                        phase: if pre.phase is PublishingDiscovery {
                            Phase::Operating
                        } else {
                            pre.phase
                        },
                        pub_id: None,
                        ..pre
                    },
                    StepActions { drive: None, request: None },
                )
            } else {
                (pre, StepActions { drive: None, request: None })
            }
        },
        ThermostatEvent::CommandReceived(cmd) => {
            (
                pre,
                StepActions {
                    drive: Some(cmd),
                    request: Some(TransportRequest::PublishStatus(cmd)),
                },
            )
        },
    }
}

/// How a request's outcome is recorded: the identifier (or `None`, when
/// the transport refused the request) lands in the slot of the request's
/// category, overwriting whatever the slot held.
pub open spec fn spec_record(pre: ThermostatState, request: TransportRequest, outcome: Option<u32>) -> ThermostatState {
    match request {
        TransportRequest::SubscribeCommandTopic => ThermostatState {
            command_topic_sub_id: outcome,
            ..pre
        },
        TransportRequest::SubscribeStateTopic => ThermostatState {
            state_topic_sub_id: outcome,
            ..pre
        },
        TransportRequest::PublishDiscovery => ThermostatState { pub_id: outcome, ..pre },
        TransportRequest::PublishStatus(_) => ThermostatState { pub_id: outcome, ..pre },
    }
}

/// Consumes one domain event: mutates the record and returns the side
/// effects to perform, exactly as [`spec_step`] states.
pub fn process_thermostat_event(state: &mut ThermostatState, event: ThermostatEvent) -> (actions: StepActions)
    ensures
        (*final(state), actions) == spec_step(*old(state), event),
{
    match event {
        ThermostatEvent::MqttConnected => {
            if state.phase == Phase::Disconnected {
                state.phase = Phase::SubscribingCommand;
                StepActions { drive: None, request: Some(TransportRequest::SubscribeCommandTopic) }
            } else {
                StepActions { drive: None, request: None }
            }
        },
        ThermostatEvent::TopicSubscribed(id) => {
            let command_match = match state.command_topic_sub_id {
                Some(pending) => pending == id,
                None => false,
            };
            let state_match = match state.state_topic_sub_id {
                Some(pending) => pending == id,
                None => false,
            };
            if state.phase == Phase::SubscribingCommand && command_match {
                state.phase = Phase::SubscribingState;
                state.command_topic_sub_id = None;
                StepActions { drive: None, request: Some(TransportRequest::SubscribeStateTopic) }
            } else if state.phase == Phase::SubscribingState && state_match {
                state.phase = Phase::PublishingDiscovery;
                state.state_topic_sub_id = None;
                StepActions { drive: None, request: Some(TransportRequest::PublishDiscovery) }
            } else {
                StepActions { drive: None, request: None }
            }
        },
        ThermostatEvent::MessagePublished(id) => {
            let publish_match = match state.pub_id {
                Some(pending) => pending == id,
                None => false,
            };
            if publish_match {
                if state.phase == Phase::PublishingDiscovery {
                    state.phase = Phase::Operating;
                }
                state.pub_id = None;
            }
            StepActions { drive: None, request: None }
        },
        ThermostatEvent::CommandReceived(cmd) => {
            StepActions {
                drive: Some(cmd),
                request: Some(TransportRequest::PublishStatus(cmd)),
            }
        },
    }
}

/// Records the outcome of a transport request the last step asked for,
/// exactly as [`spec_record`] states.
pub fn record_request_outcome(state: &mut ThermostatState, request: TransportRequest, outcome: Option<u32>)
    ensures
        *final(state) == spec_record(*old(state), request, outcome),
{
    match request {
        TransportRequest::SubscribeCommandTopic => {
            state.command_topic_sub_id = outcome;
        },
        TransportRequest::SubscribeStateTopic => {
            state.state_topic_sub_id = outcome;
        },
        TransportRequest::PublishDiscovery => {
            state.pub_id = outcome;
        },
        TransportRequest::PublishStatus(_) => {
            state.pub_id = outcome;
        },
    }
}

/// Law: from any disconnected record, the acknowledgements delivered in
/// protocol order — connected, then the command-subscription ack, then the
/// state-subscription ack, then the publish ack, each carrying the
/// identifier its request returned — take the machine to `Operating` with
/// nothing left pending, and the machine issues exactly one subscription
/// per topic and exactly one discovery publish, in that order, and drives
/// the actuator not at all.
pub proof fn lemma_startup_protocol(
    s0: ThermostatState,
    sub_cmd_id: u32,
    sub_state_id: u32,
    publish_id: u32,
)
    requires
        s0.phase is Disconnected,
    ensures
        ({
            let (s1, a1) = spec_step(s0, ThermostatEvent::MqttConnected);
            let s1r = spec_record(s1, TransportRequest::SubscribeCommandTopic, Some(sub_cmd_id));
            let (s2, a2) = spec_step(s1r, ThermostatEvent::TopicSubscribed(sub_cmd_id));
            let s2r = spec_record(s2, TransportRequest::SubscribeStateTopic, Some(sub_state_id));
            let (s3, a3) = spec_step(s2r, ThermostatEvent::TopicSubscribed(sub_state_id));
            let s3r = spec_record(s3, TransportRequest::PublishDiscovery, Some(publish_id));
            let (s4, a4) = spec_step(s3r, ThermostatEvent::MessagePublished(publish_id));
            &&& a1 == StepActions {
                drive: None,
                request: Some(TransportRequest::SubscribeCommandTopic),
            }
            &&& a2 == StepActions {
                drive: None,
                request: Some(TransportRequest::SubscribeStateTopic),
            }
            &&& a3 == StepActions { drive: None, request: Some(TransportRequest::PublishDiscovery) }
            &&& a4 == StepActions { drive: None, request: None }
            &&& s4.phase is Operating
            &&& s4.command_topic_sub_id is None
            &&& s4.state_topic_sub_id is None
            &&& s4.pub_id is None
            &&& s4.command_topic == s0.command_topic
            &&& s4.state_topic == s0.state_topic
            &&& s4.config_topic == s0.config_topic
            &&& s4.configuration == s0.configuration
        }),
{
}

/// Law: a subscription acknowledgement whose identifier does not match
/// the pending identifier of the current phase changes nothing — not the
/// phase, not any pending slot — and asks for no side effect.
pub proof fn lemma_stale_subscription_ack_ignored(s: ThermostatState, id: u32)
    requires
        !(s.phase is SubscribingCommand && s.command_topic_sub_id == Some(id)),
        !(s.phase is SubscribingState && s.state_topic_sub_id == Some(id)),
    ensures
        spec_step(s, ThermostatEvent::TopicSubscribed(id)) == (
            s,
            StepActions { drive: None, request: None },
        ),
{
}

/// Law: a publish acknowledgement whose identifier does not match the
/// pending publish — stale, foreign, or superseded by a later publish —
/// changes nothing and asks for no side effect.
pub proof fn lemma_stale_publish_ack_ignored(s: ThermostatState, id: u32)
    requires
        s.pub_id != Some(id),
    ensures
        spec_step(s, ThermostatEvent::MessagePublished(id)) == (
            s,
            StepActions { drive: None, request: None },
        ),
{
}

/// Law: a received command, in every phase, asks for exactly one actuator
/// drive and exactly one status publish, both carrying the commanded
/// value, and leaves the record itself unchanged; the published status
/// text carries the command's payload verbatim.
pub proof fn lemma_command_handled(s: ThermostatState, cmd: ThermostatCommand)
    ensures
        spec_step(s, ThermostatEvent::CommandReceived(cmd)) == (
            s,
            StepActions { drive: Some(cmd), request: Some(TransportRequest::PublishStatus(cmd)) },
        ),
        crate::json::spec_status_json(cmd) == "{\"state\":"@ + crate::json::quoted(
            cmd.spec_payload(),
        ) + "}"@,
{
}

} // verus!
