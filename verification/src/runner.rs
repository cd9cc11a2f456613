//! Decisions of the firmware's main loop.
//!
//! The loop connects to the MQTT broker, subscribes to the line-rating topic,
//! then repeatedly reads the temperature, publishes it, polls for a rating and,
//! when one arrived, steps the tap controller and publishes the new tap. Any
//! failure drops the connection: the loop waits `SYSTEM_RATE` seconds and
//! connects again. The tap controller lives outside the reconnect cycle, so a
//! network blip never moves the tap. In development mode the loop ends after
//! one complete iteration; otherwise it waits `SYSTEM_RATE` seconds between
//! iterations and never ends.
//!
//! `Runner` is that loop as a state machine: the caller performs the pending
//! `Action` (network, sensor and timer work) and hands back what came of it as
//! an `Event`.
use vstd::prelude::*;
use crate::tap_control::{
    after_ratings, distance, lemma_one_step_toward_target, step_toward, target_tap, TapController,
    TapPosition,
};

verus! {

/// System loop rate in seconds.
pub const SYSTEM_RATE: u64 = 2;

/// Application mode: development runs one iteration, beta loops forever.
#[derive(Debug, Clone, Copy, PartialEq, Eq, Structural)]
pub enum Mode {
    /// Stop after the first complete iteration.
    Development,
    /// Loop forever.
    Beta,
}

/// Where the loop stands: what it waits to hear about.
#[derive(Debug, Clone, Copy, PartialEq, Eq, Structural)]
pub enum Phase {
    /// Waiting for the broker connection to be set up.
    Connecting,
    /// Waiting for the subscription to the rating topic.
    Subscribing,
    /// Waiting for a temperature reading.
    ReadingTemperature,
    /// Waiting for the temperature to be published.
    PublishingTemperature,
    /// Waiting for the poll of the rating topic.
    PollingRating,
    /// Waiting for the tap position to be published.
    PublishingTap,
    /// Waiting out the pause before connecting again.
    Reconnecting,
    /// Waiting out the pause between two iterations.
    Pacing,
    /// The loop has ended.
    Finished,
}

/// Outcome of polling the rating topic without blocking.
#[derive(Debug, Clone, Copy, PartialEq, Eq, Structural)]
pub enum RatingPoll {
    /// A rating arrived (amps, as the bit pattern of a binary64 value).
    Received(u64),
    /// Nothing pending, or a payload that is not a number.
    Nothing,
    /// The connection to the broker is gone.
    ConnectionLost,
}

/// What came of the last action.
#[derive(Debug, Clone, Copy, PartialEq, Eq, Structural)]
pub enum Event {
    /// The broker connection was (or was not) set up.
    Connected(bool),
    /// The subscription to the rating topic succeeded (or failed).
    Subscribed(bool),
    /// A temperature reading was taken; the caller holds its value.
    TemperatureRead,
    /// The temperature was (or was not) published.
    TemperaturePublished(bool),
    /// The rating topic was polled.
    RatingPolled(RatingPoll),
    /// The tap position was (or was not) published.
    TapPublished(bool),
    /// The requested pause is over.
    Slept,
}

/// Outside work the loop asks for next.
#[derive(Debug, Clone, Copy, PartialEq, Eq, Structural)]
pub enum Action {
    /// Connect to the MQTT broker.
    ConnectMqtt,
    /// Subscribe to the rating topic.
    SubscribeRatings,
    /// Read the temperature sensor.
    ReadTemperature,
    /// Publish the last temperature reading on the temperature topic.
    PublishTemperature,
    /// Poll the rating topic without blocking.
    PollRating,
    /// Publish this tap position's wire value on the tap-position topic.
    PublishTap(TapPosition),
    /// Pause for this many seconds.
    Sleep(u64),
    /// End the loop successfully.
    Finish,
}

/// Abstract state of the loop.
pub struct RunnerView {
    pub mode: Mode,
    pub phase: Phase,
    pub tap: TapPosition,
}

/// The action that a loop in state `v` waits on.
pub open spec fn pending_action(v: RunnerView) -> Action {
    match v.phase {
        Phase::Connecting => Action::ConnectMqtt,
        Phase::Subscribing => Action::SubscribeRatings,
        Phase::ReadingTemperature => Action::ReadTemperature,
        Phase::PublishingTemperature => Action::PublishTemperature,
        Phase::PollingRating => Action::PollRating,
        Phase::PublishingTap => Action::PublishTap(v.tap),
        Phase::Reconnecting => Action::Sleep(SYSTEM_RATE),
        Phase::Pacing => Action::Sleep(SYSTEM_RATE),
        Phase::Finished => Action::Finish,
    }
}

/// Where a loop goes once an iteration is complete.
pub open spec fn after_iteration(mode: Mode) -> Phase {
    match mode {
        Mode::Development => Phase::Finished,
        Mode::Beta => Phase::Pacing,
    }
}

/// The phase that follows `phase` on `event`; an event the phase does not
/// wait for leaves it where it is.
pub open spec fn next_phase(mode: Mode, phase: Phase, event: Event) -> Phase {
    match (phase, event) {
        (Phase::Connecting, Event::Connected(ok)) => if ok {
            Phase::Subscribing
        } else {
            Phase::Reconnecting
        },
        (Phase::Subscribing, Event::Subscribed(ok)) => if ok {
            Phase::ReadingTemperature
        } else {
            Phase::Reconnecting
        },
        (Phase::ReadingTemperature, Event::TemperatureRead) => Phase::PublishingTemperature,
        (Phase::PublishingTemperature, Event::TemperaturePublished(ok)) => if ok {
            Phase::PollingRating
        } else {
            Phase::Reconnecting
        },
        (Phase::PollingRating, Event::RatingPolled(poll)) => match poll {
            RatingPoll::Received(_) => Phase::PublishingTap,
            RatingPoll::Nothing => after_iteration(mode),
            RatingPoll::ConnectionLost => Phase::Reconnecting,
        },
        (Phase::PublishingTap, Event::TapPublished(ok)) => if ok {
            after_iteration(mode)
        } else {
            Phase::Reconnecting
        },
        (Phase::Reconnecting, Event::Slept) => Phase::Connecting,
        (Phase::Pacing, Event::Slept) => Phase::ReadingTemperature,
        _ => phase,
    }
}

/// The tap position after `event`: only a rating received while polling
/// moves it, one step toward the tap that rating implies.
pub open spec fn next_tap(phase: Phase, tap: TapPosition, event: Event) -> TapPosition {
    match (phase, event) {
        (Phase::PollingRating, Event::RatingPolled(RatingPoll::Received(bits))) => step_toward(
            tap,
            target_tap(bits),
        ),
        _ => tap,
    }
}

/// The state that follows `v` on `event`.
pub open spec fn next_state(v: RunnerView, event: Event) -> RunnerView {
    RunnerView {
        mode: v.mode,
        phase: next_phase(v.mode, v.phase, event),
        tap: next_tap(v.phase, v.tap, event),
    }
}

/// The firmware's main loop as a state machine.
pub struct Runner {
    mode: Mode,
    phase: Phase,
    controller: TapController,
}

impl View for Runner {
    type V = RunnerView;

    closed spec fn view(&self) -> RunnerView {
        RunnerView { mode: self.mode, phase: self.phase, tap: self.controller@ }
    }
}

impl Runner {
    /// A loop about to connect, with a fresh tap controller at the most
    /// conservative tap.
    pub fn new(mode: Mode) -> (runner: Runner)
        ensures
            runner@ == (RunnerView { mode, phase: Phase::Connecting, tap: TapPosition::Tap4 }),
    {
        Runner { mode, phase: Phase::Connecting, controller: TapController::new() }
    }

    /// The action the loop waits on.
    pub fn pending(&self) -> (action: Action)
        ensures
            action == pending_action(self@),
    {
        match self.phase {
            Phase::Connecting => Action::ConnectMqtt,
            Phase::Subscribing => Action::SubscribeRatings,
            Phase::ReadingTemperature => Action::ReadTemperature,
            Phase::PublishingTemperature => Action::PublishTemperature,
            Phase::PollingRating => Action::PollRating,
            Phase::PublishingTap => Action::PublishTap(self.controller.current()),
            Phase::Reconnecting => Action::Sleep(SYSTEM_RATE),
            Phase::Pacing => Action::Sleep(SYSTEM_RATE),
            Phase::Finished => Action::Finish,
        }
    }

    /// Where a complete iteration leads in this loop's mode.
    fn iteration_done(&self) -> (phase: Phase)
        ensures
            phase == after_iteration(self.mode),
    {
        match self.mode {
            Mode::Development => Phase::Finished,
            Mode::Beta => Phase::Pacing,
        }
    }

    /// Take in what came of the pending action and return the next one.
    pub fn on_event(&mut self, event: Event) -> (action: Action)
        ensures
            final(self)@ == next_state(old(self)@, event),
            action == pending_action(final(self)@),
    {
        let next = match (self.phase, event) {
            (Phase::Connecting, Event::Connected(ok)) => if ok {
                Phase::Subscribing
            } else {
                Phase::Reconnecting
            },
            (Phase::Subscribing, Event::Subscribed(ok)) => if ok {
                Phase::ReadingTemperature
            } else {
                Phase::Reconnecting
            },
            (Phase::ReadingTemperature, Event::TemperatureRead) => Phase::PublishingTemperature,
            (Phase::PublishingTemperature, Event::TemperaturePublished(ok)) => if ok {
                Phase::PollingRating
            } else {
                Phase::Reconnecting
            },
            (Phase::PollingRating, Event::RatingPolled(poll)) => match poll {
                RatingPoll::Received(bits) => {
                    self.controller.on_rating(bits);
                    Phase::PublishingTap
                },
                RatingPoll::Nothing => self.iteration_done(),
                RatingPoll::ConnectionLost => Phase::Reconnecting,
            },
            (Phase::PublishingTap, Event::TapPublished(ok)) => if ok {
                self.iteration_done()
            } else {
                Phase::Reconnecting
            },
            (Phase::Reconnecting, Event::Slept) => Phase::Connecting,
            (Phase::Pacing, Event::Slept) => Phase::ReadingTemperature,
            _ => self.phase,
        };
        self.phase = next;
        self.pending()
    }
}

/// Whether `event` reports a failure of the outside work that `phase` waits
/// on (a failed connect, subscribe or publish, or a lost connection).
pub open spec fn is_failure(phase: Phase, event: Event) -> bool {
    match (phase, event) {
        (Phase::Connecting, Event::Connected(ok)) => !ok,
        (Phase::Subscribing, Event::Subscribed(ok)) => !ok,
        (Phase::PublishingTemperature, Event::TemperaturePublished(ok)) => !ok,
        (Phase::PollingRating, Event::RatingPolled(RatingPoll::ConnectionLost)) => true,
        (Phase::PublishingTap, Event::TapPublished(ok)) => !ok,
        _ => false,
    }
}

/// Whether `event` is what `phase` waits to hear about.
pub open spec fn is_expected(phase: Phase, event: Event) -> bool {
    match (phase, event) {
        (Phase::Connecting, Event::Connected(_)) => true,
        (Phase::Subscribing, Event::Subscribed(_)) => true,
        (Phase::ReadingTemperature, Event::TemperatureRead) => true,
        (Phase::PublishingTemperature, Event::TemperaturePublished(_)) => true,
        (Phase::PollingRating, Event::RatingPolled(_)) => true,
        (Phase::PublishingTap, Event::TapPublished(_)) => true,
        (Phase::Reconnecting, Event::Slept) => true,
        (Phase::Pacing, Event::Slept) => true,
        _ => false,
    }
}

/// Whether `event` completes an iteration of the loop from `phase`: nothing
/// was pending on the rating topic, or the new tap was published.
pub open spec fn completes_iteration(phase: Phase, event: Event) -> bool {
    match (phase, event) {
        (Phase::PollingRating, Event::RatingPolled(RatingPoll::Nothing)) => true,
        (Phase::PublishingTap, Event::TapPublished(ok)) => ok,
        _ => false,
    }
}

/// The tap survives reconnects: no event but a rating received while polling
/// moves the tap, so failures, reconnects and pauses leave it where it was.
pub proof fn lemma_tap_survives_reconnects(v: RunnerView, event: Event)
    requires
        !(v.phase == Phase::PollingRating && event matches Event::RatingPolled(
            RatingPoll::Received(_),
        )),
    ensures
        next_state(v, event).tap == v.tap,
        next_state(v, event).mode == v.mode,
{
}

/// A received rating is answered by publishing the tap one step closer to
/// the tap it implies.
pub proof fn lemma_rating_is_answered_with_next_tap(v: RunnerView, rating_bits: u64)
    requires
        v.phase == Phase::PollingRating,
    ensures
        pending_action(next_state(v, Event::RatingPolled(RatingPoll::Received(rating_bits))))
            == Action::PublishTap(step_toward(v.tap, target_tap(rating_bits))),
{
}

/// Every failure is followed by a pause of `SYSTEM_RATE` seconds, after which
/// the loop connects again.
pub proof fn lemma_failure_backs_off_then_reconnects(v: RunnerView, event: Event)
    requires
        is_failure(v.phase, event),
    ensures
        next_state(v, event).phase == Phase::Reconnecting,
        pending_action(next_state(v, event)) == Action::Sleep(SYSTEM_RATE),
        next_state(next_state(v, event), Event::Slept).phase == Phase::Connecting,
        pending_action(next_state(next_state(v, event), Event::Slept)) == Action::ConnectMqtt,
{
}

/// An event the loop does not wait for changes nothing.
pub proof fn lemma_unexpected_event_changes_nothing(v: RunnerView, event: Event)
    requires
        !is_expected(v.phase, event),
    ensures
        next_state(v, event) == v,
{
}

/// In beta mode the loop never ends.
pub proof fn lemma_beta_never_finishes(v: RunnerView, event: Event)
    requires
        v.mode == Mode::Beta,
        v.phase != Phase::Finished,
    ensures
        next_state(v, event).phase != Phase::Finished,
{
}

/// In development mode the loop ends exactly when an iteration completes,
/// and an ended loop stays ended, asking for nothing but `Finish`.
pub proof fn lemma_development_finishes_after_one_iteration(v: RunnerView, event: Event)
    requires
        v.mode == Mode::Development,
    ensures
        v.phase != Phase::Finished ==> (next_state(v, event).phase == Phase::Finished
            <==> completes_iteration(v.phase, event)),
        v.phase == Phase::Finished ==> next_state(v, event) == v,
        v.phase == Phase::Finished ==> pending_action(v) == Action::Finish,
{
}

/// In beta mode a completed iteration is followed by a pause of
/// `SYSTEM_RATE` seconds and the next temperature reading, on the same
/// connection.
pub proof fn lemma_beta_paces_iterations(v: RunnerView, event: Event)
    requires
        v.mode == Mode::Beta,
        completes_iteration(v.phase, event),
    ensures
        pending_action(next_state(v, event)) == Action::Sleep(SYSTEM_RATE),
        next_state(next_state(v, event), Event::Slept).phase == Phase::ReadingTemperature,
{
}

/// The state of a fresh loop in `mode`.
pub open spec fn fresh(mode: Mode) -> RunnerView {
    RunnerView { mode, phase: Phase::Connecting, tap: TapPosition::Tap4 }
}

/// The state a loop in state `v` reaches after `events`, first to last.
pub open spec fn after_events(v: RunnerView, events: Seq<Event>) -> RunnerView
    decreases events.len(),
{
    if events.len() == 0 {
        v
    } else {
        after_events(next_state(v, events[0]), events.drop_first())
    }
}

/// The actions a loop in state `v` returns, one per event, as it takes in
/// `events`.
pub open spec fn run_actions(v: RunnerView, events: Seq<Event>) -> Seq<Action>
    decreases events.len(),
{
    if events.len() == 0 {
        Seq::empty()
    } else {
        let w = next_state(v, events[0]);
        seq![pending_action(w)] + run_actions(w, events.drop_first())
    }
}

/// The ratings a loop in state `v` receives while polling, in order, as it
/// takes in `events`.
pub open spec fn received_ratings(v: RunnerView, events: Seq<Event>) -> Seq<u64>
    decreases events.len(),
{
    if events.len() == 0 {
        Seq::empty()
    } else {
        let rest = received_ratings(next_state(v, events[0]), events.drop_first());
        match (v.phase, events[0]) {
            (Phase::PollingRating, Event::RatingPolled(RatingPoll::Received(bits))) => seq![bits]
                + rest,
            _ => rest,
        }
    }
}

/// The tap positions a loop in state `v` asks to publish, in order, as it
/// takes in `events`.
pub open spec fn published_taps(v: RunnerView, events: Seq<Event>) -> Seq<TapPosition>
    decreases events.len(),
{
    if events.len() == 0 {
        Seq::empty()
    } else {
        let w = next_state(v, events[0]);
        let rest = published_taps(w, events.drop_first());
        match pending_action(w) {
            Action::PublishTap(tap) => seq![tap] + rest,
            _ => rest,
        }
    }
}

/// Over a whole run, the loop's tap is where one controller starting at the
/// loop's tap stands after the ratings received so far.
proof fn lemma_tap_follows_received_ratings(v: RunnerView, events: Seq<Event>)
    ensures
        after_events(v, events).tap == after_ratings(v.tap, received_ratings(v, events)),
    decreases events.len(),
{
    if events.len() > 0 {
        let w = next_state(v, events[0]);
        let rest = events.drop_first();
        lemma_tap_follows_received_ratings(w, rest);
        let later = received_ratings(w, rest);
        match (v.phase, events[0]) {
            (Phase::PollingRating, Event::RatingPolled(RatingPoll::Received(bits))) => {
                assert((seq![bits] + later).drop_first() =~= later);
                assert((seq![bits] + later)[0] == bits);
            },
            _ => {},
        }
    }
}

/// The action returned for the `k`-th event is the one the state after the
/// first `k + 1` events waits on.
proof fn lemma_run_action_is_pending(v: RunnerView, events: Seq<Event>, k: int)
    requires
        0 <= k < events.len(),
    ensures
        run_actions(v, events).len() == events.len(),
        run_actions(v, events)[k] == pending_action(after_events(v, events.take(k + 1))),
    decreases events.len(),
{
    let w = next_state(v, events[0]);
    let rest = events.drop_first();
    let prefix = events.take(k + 1);
    let tail = run_actions(w, rest);
    assert(prefix.len() > 0 && prefix[0] == events[0]);
    assert(after_events(v, prefix) == after_events(w, prefix.drop_first()));
    assert(run_actions(v, events) == seq![pending_action(w)] + tail);
    if rest.len() > 0 {
        lemma_run_action_is_pending(w, rest, 0);
    }
    if k == 0 {
        assert(prefix.drop_first() =~= Seq::<Event>::empty());
        assert(after_events(w, Seq::<Event>::empty()) == w);
    } else {
        lemma_run_action_is_pending(w, rest, k - 1);
        assert(prefix.drop_first() =~= rest.take(k));
        assert(run_actions(v, events)[k] == tail[k - 1]);
    }
}

/// One never-reset controller answers every rating: across any run of a
/// fresh loop, reconnects included, each `PublishTap` the loop asks for
/// carries the tap that a fresh controller reaches after being fed the ratings
/// received so far, in order.
pub proof fn lemma_published_tap_follows_all_ratings(mode: Mode, events: Seq<Event>, k: int)
    requires
        0 <= k < events.len(),
        run_actions(fresh(mode), events)[k] is PublishTap,
    ensures
        run_actions(fresh(mode), events)[k] == Action::PublishTap(
            after_ratings(TapPosition::Tap4, received_ratings(fresh(mode), events.take(k + 1))),
        ),
{
    lemma_run_action_is_pending(fresh(mode), events, k);
    lemma_tap_follows_received_ratings(fresh(mode), events.take(k + 1));
}

/// The first tap a loop in state `v` publishes is within one step of its
/// current tap, and each published tap is within one step of the one before.
proof fn lemma_published_taps_step_gradually(v: RunnerView, events: Seq<Event>)
    ensures
        published_taps(v, events).len() > 0 ==> distance(v.tap, published_taps(v, events)[0]) <= 1,
        forall|i: int|
            0 <= i < published_taps(v, events).len() - 1 ==> distance(
                #[trigger] published_taps(v, events)[i],
                published_taps(v, events)[i + 1],
            ) <= 1,
    decreases events.len(),
{
    if events.len() > 0 {
        let w = next_state(v, events[0]);
        let rest = events.drop_first();
        let later = published_taps(w, rest);
        let all = published_taps(v, events);
        lemma_published_taps_step_gradually(w, rest);
        lemma_one_step_toward_target(v.tap, w.tap);
        match (v.phase, events[0]) {
            (Phase::PollingRating, Event::RatingPolled(RatingPoll::Received(bits))) => {
                lemma_one_step_toward_target(v.tap, target_tap(bits));
            },
            _ => {},
        }
        match pending_action(w) {
            Action::PublishTap(tap) => {
                assert(tap == w.tap);
                assert(all =~= seq![tap] + later);
                assert forall|i: int| 0 <= i < all.len() - 1 implies distance(
                    #[trigger] all[i],
                    all[i + 1],
                ) <= 1 by {
                    if i > 0 {
                        assert(all[i] == later[i - 1]);
                        assert(all[i + 1] == later[i]);
                    } else {
                        assert(all[1] == later[0]);
                    }
                }
            },
            _ => {
                assert(all == later);
                assert(w.tap == v.tap);
            },
        }
    }
}

/// Gradual stepping over whole runs: across any run of a fresh loop,
/// reconnects included, consecutive taps the loop asks to publish differ by at
/// most one step, and the first is Tap3 or Tap4.
pub proof fn lemma_published_taps_never_jump(mode: Mode, events: Seq<Event>)
    ensures
        published_taps(fresh(mode), events).len() > 0 ==> (published_taps(fresh(mode), events)[0]
            == TapPosition::Tap3 || published_taps(fresh(mode), events)[0] == TapPosition::Tap4),
        forall|i: int|
            0 <= i < published_taps(fresh(mode), events).len() - 1 ==> distance(
                #[trigger] published_taps(fresh(mode), events)[i],
                published_taps(fresh(mode), events)[i + 1],
            ) <= 1,
{
    lemma_published_taps_step_gradually(fresh(mode), events);
}

/// The loop's course never depends on the tap, and depends on the mode only
/// where an iteration completes: two loops in the same phase go to the same
/// phase on the same event, whatever their taps, and whatever their modes
/// unless the event completes an iteration.
pub proof fn lemma_course_ignores_tap(v1: RunnerView, v2: RunnerView, event: Event)
    requires
        v1.phase == v2.phase,
        v1.mode == v2.mode || !completes_iteration(v1.phase, event),
    ensures
        next_state(v1, event).phase == next_state(v2, event).phase,
{
}

/// What the loop asks for depends on its phase alone, save the tap that a
/// `PublishTap` carries, which is the loop's own tap.
pub proof fn lemma_pending_action_ignores_tap(v1: RunnerView, v2: RunnerView)
    requires
        v1.phase == v2.phase,
    ensures
        v1.phase != Phase::PublishingTap ==> pending_action(v1) == pending_action(v2),
        v1.phase == Phase::PublishingTap ==> pending_action(v1) == Action::PublishTap(v1.tap),
{
}

/// Each phase asks for the outside work it waits on: a connect, the
/// subscription, a reading, its publication, a poll of the rating topic, a
/// pause of `SYSTEM_RATE` seconds, or the end.
pub proof fn lemma_each_phase_asks_for_its_work(v: RunnerView)
    ensures
        v.phase == Phase::Connecting ==> pending_action(v) == Action::ConnectMqtt,
        v.phase == Phase::Subscribing ==> pending_action(v) == Action::SubscribeRatings,
        v.phase == Phase::ReadingTemperature ==> pending_action(v) == Action::ReadTemperature,
        v.phase == Phase::PublishingTemperature ==> pending_action(v)
            == Action::PublishTemperature,
        v.phase == Phase::PollingRating ==> pending_action(v) == Action::PollRating,
        v.phase == Phase::Reconnecting ==> pending_action(v) == Action::Sleep(SYSTEM_RATE),
        v.phase == Phase::Pacing ==> pending_action(v) == Action::Sleep(SYSTEM_RATE),
        v.phase == Phase::Finished ==> pending_action(v) == Action::Finish,
{
}

/// The order of work on a live connection, whatever the mode and tap: every
/// successful connect is followed by the subscription to the rating topic,
/// every successful subscription by a temperature reading, every reading by
/// its publication, and every successful publication by a poll of the rating
/// topic; none of these steps moves the tap.
pub proof fn lemma_successful_steps_follow_in_order(v: RunnerView)
    ensures
        v.phase == Phase::Connecting ==> next_state(v, Event::Connected(true)).phase
            == Phase::Subscribing && pending_action(next_state(v, Event::Connected(true)))
            == Action::SubscribeRatings,
        v.phase == Phase::Subscribing ==> next_state(v, Event::Subscribed(true)).phase
            == Phase::ReadingTemperature && pending_action(next_state(v, Event::Subscribed(true)))
            == Action::ReadTemperature,
        v.phase == Phase::ReadingTemperature ==> next_state(v, Event::TemperatureRead).phase
            == Phase::PublishingTemperature && pending_action(
            next_state(v, Event::TemperatureRead),
        ) == Action::PublishTemperature,
        v.phase == Phase::PublishingTemperature ==> next_state(
            v,
            Event::TemperaturePublished(true),
        ).phase == Phase::PollingRating && pending_action(
            next_state(v, Event::TemperaturePublished(true)),
        ) == Action::PollRating,
        v.phase == Phase::Connecting ==> next_state(v, Event::Connected(true)).tap == v.tap,
        v.phase == Phase::Subscribing ==> next_state(v, Event::Subscribed(true)).tap == v.tap,
        v.phase == Phase::ReadingTemperature ==> next_state(v, Event::TemperatureRead).tap
            == v.tap,
        v.phase == Phase::PublishingTemperature ==> next_state(
            v,
            Event::TemperaturePublished(true),
        ).tap == v.tap,
{
}

} // verus!
