//! Translation of raw transport notifications into domain events.
//!
//! The transport delivers notifications on its callback path; this module
//! turns each one into at most one domain event for the state machine.
//! The caller converts the transport's own notification type into
//! [`MqttNotification`], hands it in, and pushes the returned event, if
//! any, onto the event channel.
use vstd::prelude::*;

use crate::thermostat::ThermostatCommand;
use crate::thermostat::ThermostatEvent;

verus! {

/// A raw transport notification, reduced to plain values: connection
/// established, subscription acknowledged, publish acknowledged, an
/// inbound message (with its payload and whether the payload arrived in
/// one piece), a transport-level error, or any other notification kind.
pub enum MqttNotification {
    Connected,
    Subscribed(u32),
    Published(u32),
    Received { data: Vec<u8>, complete: bool },
    Error,
    Other,
}

/// The event an inbound message produces: a complete, well-formed payload
/// becomes a command event; a fragmented or unrecognized payload becomes
/// nothing.
pub open spec fn spec_translate_received(data: Seq<u8>, complete: bool) -> Option<
    ThermostatEvent,
> {
    if complete {
        match ThermostatCommand::spec_from_payload(data) {
            Some(c) => Some(ThermostatEvent::CommandReceived(c)),
            None => None,
        }
    } else {
        None
    }
}

/// The domain event a notification produces: zero or one per
/// notification. Acknowledgements pass their identifier through; errors
/// and unknown notification kinds produce nothing, deliberately.
pub open spec fn spec_translate(n: MqttNotification) -> Option<ThermostatEvent> {
    match n {
        MqttNotification::Connected => Some(ThermostatEvent::MqttConnected),
        MqttNotification::Subscribed(id) => Some(ThermostatEvent::TopicSubscribed(id)),
        MqttNotification::Published(id) => Some(ThermostatEvent::MessagePublished(id)),
        MqttNotification::Received { data, complete } => spec_translate_received(
            data@,
            complete,
        ),
        MqttNotification::Error => None,
        MqttNotification::Other => None,
    }
}

/// Handles one inbound message, exactly as [`spec_translate_received`]
/// states.
pub fn process_mqtt_message(data: &[u8], complete: bool) -> (r: Option<ThermostatEvent>)
    ensures
        r == spec_translate_received(data@, complete),
{
    if complete {
        match ThermostatCommand::from_payload(data) {
            Some(c) => Some(ThermostatEvent::CommandReceived(c)),
            None => None,
        }
    } else {
        None
    }
}

/// Translates one notification, exactly as [`spec_translate`] states.
pub fn process_mqtt_event(n: MqttNotification) -> (r: Option<ThermostatEvent>)
    ensures
        r == spec_translate(n),
{
    match n {
        MqttNotification::Connected => Some(ThermostatEvent::MqttConnected),
        MqttNotification::Subscribed(id) => Some(ThermostatEvent::TopicSubscribed(id)),
        MqttNotification::Published(id) => Some(ThermostatEvent::MessagePublished(id)),
        MqttNotification::Received { data, complete } => process_mqtt_message(
            data.as_slice(),
            complete,
        ),
        MqttNotification::Error => None,
        MqttNotification::Other => None,
    }
}

/// Law: an inbound message leads to a command event exactly when its
/// payload arrived in one piece and reads `"ON"` or `"OFF"`; a
/// fragmented or malformed payload leads to no event at all, so no
/// actuator drive and no publish can follow from it.
pub proof fn lemma_payload_filtering(data: Seq<u8>, complete: bool)
    ensures
        forall|c: ThermostatCommand|
            ThermostatCommand::spec_from_payload(data) == Some(c) && complete
                ==> spec_translate_received(data, complete) == Some(
                ThermostatEvent::CommandReceived(c),
            ),
        ThermostatCommand::spec_from_payload(data) is None ==> spec_translate_received(
            data,
            complete,
        ) is None,
        !complete ==> spec_translate_received(data, complete) is None,
{
}

} // verus!
