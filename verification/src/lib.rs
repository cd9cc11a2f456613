//! Line-rating driven transformer tap control for the dlr-pst-sim firmware.
//!
//! `tap_control` maps a live dynamic line rating (amps) to a transformer tap
//! position and steps toward it one position at a time. `runner` holds the
//! decisions of the firmware's main loop (connect, subscribe, publish the
//! temperature, react to ratings, reconnect) as a state machine whose outside
//! work is done by the caller. `mqtt` names the topics the loop talks on.

pub mod mqtt;
pub mod runner;
pub mod tap_control;
