//! Topics and payloads of what the bridge publishes to MQTT.

use vstd::prelude::*;

pub mod hass;
pub mod modbus_to_mqtt;

verus! {

/// The topic of a message that is published below the base topic of the
/// client: the base topic, a slash, and the topic.
pub fn topic_below_base(base_topic: &str, topic: &str) -> (full: String)
    ensures
        full@ == base_topic@ + "/"@ + topic@,
{
    crate::text::concat3(base_topic, "/", topic)
}

} // verus!
