# dlr_pst_sim

Firmware logic that turns a live dynamic line rating (amps, received over
MQTT) into a transformer tap position, verified with Verus.

- `src/tap_control.rs`: tap positions, the rating bands, and the tap
  controller that steps one position per rating toward the band's tap.
  Ratings are passed as the bit pattern of an IEEE-754 binary64 value
  (`f64::to_bits`), whose order on non-negative, non-NaN values is the
  numeric order; NaN and negative ratings fall to the most conservative tap.
- `src/runner.rs`: the decisions of the main loop (connect, subscribe,
  publish temperature, answer ratings, back off and reconnect, development
  vs. beta mode) as a state machine from state and event to next state and
  action.
- `src/mqtt.rs`: topic names.
- `app/`: the MQTT client (rust-mqtt over embassy-net), float formatting and
  parsing, timers, and the async loop that performs the runner's actions.
