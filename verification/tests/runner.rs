use dlr_pst_sim::mqtt::{MQTT_TOPIC, RATING_TOPIC, TAP_POSITION_TOPIC};
use dlr_pst_sim::runner::{Action, Event, Mode, RatingPoll, Runner, SYSTEM_RATE};
use dlr_pst_sim::tap_control::TapPosition;

/// Drives a fresh runner through connect and subscribe up to the rating poll
/// of its first iteration.
fn runner_at_first_poll(mode: Mode) -> Runner {
    let mut runner = Runner::new(mode);
    assert_eq!(runner.pending(), Action::ConnectMqtt);
    assert_eq!(runner.on_event(Event::Connected(true)), Action::SubscribeRatings);
    assert_eq!(runner.on_event(Event::Subscribed(true)), Action::ReadTemperature);
    assert_eq!(runner.on_event(Event::TemperatureRead), Action::PublishTemperature);
    assert_eq!(runner.on_event(Event::TemperaturePublished(true)), Action::PollRating);
    runner
}

#[test]
fn test_hil_tap_position_reacts_to_rating() {
    // A fresh device (Tap4) fed a rating of 2500 A publishes one step toward Tap1.
    let mut runner = runner_at_first_poll(Mode::Beta);
    let action = runner.on_event(Event::RatingPolled(RatingPoll::Received(2500.0f64.to_bits())));
    assert_eq!(action, Action::PublishTap(TapPosition::Tap3));
    match action {
        Action::PublishTap(tap) => assert_eq!(tap.as_str(), "TAP_3"),
        _ => unreachable!(),
    }
}

#[test]
fn topics_are_the_documented_ones() {
    assert_eq!(MQTT_TOPIC, "test/temp/F");
    assert_eq!(RATING_TOPIC, "test/line_rating/A");
    assert_eq!(TAP_POSITION_TOPIC, "test/tap_position");
    assert_eq!(SYSTEM_RATE, 2);
}

#[test]
fn development_mode_finishes_after_one_iteration_without_rating() {
    let mut runner = runner_at_first_poll(Mode::Development);
    assert_eq!(runner.on_event(Event::RatingPolled(RatingPoll::Nothing)), Action::Finish);
    assert_eq!(runner.on_event(Event::Slept), Action::Finish);
    assert_eq!(runner.on_event(Event::Connected(true)), Action::Finish);
}

#[test]
fn development_mode_finishes_after_publishing_the_tap() {
    let mut runner = runner_at_first_poll(Mode::Development);
    let action = runner.on_event(Event::RatingPolled(RatingPoll::Received(2500.0f64.to_bits())));
    assert_eq!(action, Action::PublishTap(TapPosition::Tap3));
    assert_eq!(runner.on_event(Event::TapPublished(true)), Action::Finish);
}

#[test]
fn beta_mode_paces_iterations_on_the_same_connection() {
    let mut runner = runner_at_first_poll(Mode::Beta);
    assert_eq!(runner.on_event(Event::RatingPolled(RatingPoll::Nothing)), Action::Sleep(SYSTEM_RATE));
    assert_eq!(runner.on_event(Event::Slept), Action::ReadTemperature);
}

#[test]
fn failed_connect_backs_off_and_retries() {
    let mut runner = Runner::new(Mode::Beta);
    assert_eq!(runner.on_event(Event::Connected(false)), Action::Sleep(SYSTEM_RATE));
    assert_eq!(runner.on_event(Event::Slept), Action::ConnectMqtt);
}

#[test]
fn failed_subscribe_backs_off_and_reconnects() {
    let mut runner = Runner::new(Mode::Beta);
    runner.on_event(Event::Connected(true));
    assert_eq!(runner.on_event(Event::Subscribed(false)), Action::Sleep(SYSTEM_RATE));
    assert_eq!(runner.on_event(Event::Slept), Action::ConnectMqtt);
}

#[test]
fn failed_temperature_publish_reconnects() {
    let mut runner = Runner::new(Mode::Development);
    runner.on_event(Event::Connected(true));
    runner.on_event(Event::Subscribed(true));
    runner.on_event(Event::TemperatureRead);
    assert_eq!(runner.on_event(Event::TemperaturePublished(false)), Action::Sleep(SYSTEM_RATE));
    assert_eq!(runner.on_event(Event::Slept), Action::ConnectMqtt);
    assert_eq!(runner.pending(), Action::ConnectMqtt);
}

#[test]
fn lost_connection_while_polling_reconnects() {
    let mut runner = runner_at_first_poll(Mode::Development);
    assert_eq!(runner.on_event(Event::RatingPolled(RatingPoll::ConnectionLost)), Action::Sleep(SYSTEM_RATE));
    assert_eq!(runner.on_event(Event::Slept), Action::ConnectMqtt);
}

#[test]
fn tap_survives_a_reconnect() {
    let mut runner = runner_at_first_poll(Mode::Beta);
    runner.on_event(Event::RatingPolled(RatingPoll::Received(2500.0f64.to_bits())));
    // Publishing the tap fails: the connection is dropped and set up again.
    assert_eq!(runner.on_event(Event::TapPublished(false)), Action::Sleep(SYSTEM_RATE));
    assert_eq!(runner.on_event(Event::Slept), Action::ConnectMqtt);
    assert_eq!(runner.on_event(Event::Connected(true)), Action::SubscribeRatings);
    runner.on_event(Event::Subscribed(true));
    runner.on_event(Event::TemperatureRead);
    runner.on_event(Event::TemperaturePublished(true));
    // The next rating continues from Tap3, not from a reset controller.
    let action = runner.on_event(Event::RatingPolled(RatingPoll::Received(2500.0f64.to_bits())));
    assert_eq!(action, Action::PublishTap(TapPosition::Tap2));
}

#[test]
fn unexpected_event_repeats_the_pending_action() {
    let mut runner = Runner::new(Mode::Beta);
    assert_eq!(runner.on_event(Event::TemperatureRead), Action::ConnectMqtt);
    assert_eq!(runner.on_event(Event::RatingPolled(RatingPoll::Received(2500.0f64.to_bits()))), Action::ConnectMqtt);
    assert_eq!(runner.on_event(Event::Connected(true)), Action::SubscribeRatings);
    runner.on_event(Event::Subscribed(true));
    runner.on_event(Event::TemperatureRead);
    runner.on_event(Event::TemperaturePublished(true));
    // The stray rating above did not move the tap: the first real one steps from Tap4.
    let action = runner.on_event(Event::RatingPolled(RatingPoll::Received(2500.0f64.to_bits())));
    assert_eq!(action, Action::PublishTap(TapPosition::Tap3));
}

#[test]
fn published_taps_never_jump_across_reconnects() {
    let mut runner = runner_at_first_poll(Mode::Beta);
    let ratings = [2500.0f64, 2500.0, 100.0, 2500.0, 100.0, 100.0, 100.0, 1500.0];
    let mut published: Vec<u8> = Vec::new();
    for (i, rating) in ratings.iter().enumerate() {
        let action = runner.on_event(Event::RatingPolled(RatingPoll::Received(rating.to_bits())));
        match action {
            Action::PublishTap(tap) => published.push(tap.step()),
            _ => unreachable!(),
        }
        // Every other publication fails and forces a reconnect.
        let ok = i % 2 == 0;
        runner.on_event(Event::TapPublished(ok));
        if !ok {
            assert_eq!(runner.on_event(Event::Slept), Action::ConnectMqtt);
            runner.on_event(Event::Connected(true));
            runner.on_event(Event::Subscribed(true));
        } else {
            runner.on_event(Event::Slept);
        }
        runner.on_event(Event::TemperatureRead);
        assert_eq!(runner.on_event(Event::TemperaturePublished(true)), Action::PollRating);
    }
    assert_eq!(published, vec![3, 2, 3, 2, 3, 4, 4, 3]);
    assert!(published[0] == 3 || published[0] == 4);
    for pair in published.windows(2) {
        assert!(pair[0].abs_diff(pair[1]) <= 1);
    }
}
