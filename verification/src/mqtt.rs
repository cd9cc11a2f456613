//! The MQTT topics the firmware's main loop talks on.
use vstd::prelude::*;

verus! {

/// MQTT topic for publishing temperature readings.
pub const MQTT_TOPIC: &'static str = "test/temp/F";

/// MQTT topic to subscribe to for the DLR dynamic line rating (amps).
pub const RATING_TOPIC: &'static str = "test/line_rating/A";

/// MQTT topic for publishing the tap-position decision.
pub const TAP_POSITION_TOPIC: &'static str = "test/tap_position";

} // verus!
