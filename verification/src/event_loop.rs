//! The event loop as a machine: the program performs what the machine asks
//! for and reports what happened, with a reading of the clock; the machine
//! decides what comes next.

use vstd::prelude::*;
use crate::app::{App, AppView, TURN_PER_NANO, capped, elapsed, fetched, rotation_limit, updated};
use crate::location::{LocationResponse, get_location, located};
use crate::ui::status_text;

verus! {

/// The time between two periodic updates, in nanoseconds: a quarter of a
/// second.
pub const TICK_RATE: u64 = 250_000_000;

/// A key as far as the dashboard tells keys apart.
#[derive(Debug, Clone, Copy, PartialEq, Eq, Structural)]
pub enum Key {
    /// A key that types the character.
    Char(char),
    /// The escape key.
    Esc,
    /// Any other key.
    Other,
}

/// What a key asks of the dashboard.
#[derive(Debug, Clone, Copy, PartialEq, Eq, Structural)]
pub enum Command {
    /// Leave the loop.
    Quit,
    /// Look the location up again.
    Refresh,
    /// Nothing.
    Nothing,
}

/// Where the loop stands. Every phase but `Exited` is part of the running
/// loop and names what the machine is waiting for.
#[derive(Debug, Clone, Copy, PartialEq, Eq, Structural)]
pub enum Phase {
    /// Waiting for the lookup made before the first frame.
    Starting,
    /// Waiting for the frame to be drawn.
    Drawing,
    /// Waiting for a key, or for the time allowed for one to run out.
    Polling,
    /// Waiting for a lookup that a key asked for.
    Refreshing,
    /// The loop has ended.
    Exited,
}

/// What the program reports to the machine.
#[derive(Debug, PartialEq, Eq)]
pub enum Event {
    /// A lookup has ended: with the reply, or with `None` where the request
    /// or the decoding of its answer failed.
    Fetched(Option<LocationResponse>),
    /// The frame has been drawn.
    Drawn,
    /// The wait for input has ended: with the key that was pressed, or with
    /// `None` where the time ran out or something other than a key arrived.
    Polled(Option<Key>),
}

/// What the machine asks the program to do next.
#[derive(Debug, Clone, Copy, PartialEq, Eq, Structural)]
pub enum Action {
    /// Look the location up and report `Fetched`.
    Fetch,
    /// Draw the frame of the current state and report `Drawn`.
    Draw,
    /// Wait for input for at most so many nanoseconds and report `Polled`.
    Poll(u64),
    /// Leave the loop.
    Exit,
}

/// The loop's whole state: the dashboard, the clock reading of the last
/// tick, and the phase.
#[derive(Debug, PartialEq, Eq)]
pub struct EventLoop {
    pub app: App,
    pub last_tick: u64,
    pub phase: Phase,
}

/// An `EventLoop` as mathematical values.
pub struct EventLoopView {
    pub app: AppView,
    pub last_tick: nat,
    pub phase: Phase,
}

impl View for EventLoop {
    type V = EventLoopView;

    open spec fn view(&self) -> EventLoopView {
        EventLoopView {
            app: self.app@,
            last_tick: self.last_tick as nat,
            phase: self.phase,
        }
    }
}

/// What the input asks for: `q` and escape quit, `r` refreshes, and neither
/// another key nor the lack of one asks for anything.
pub open spec fn command_of(input: Option<Key>) -> Command {
    match input {
        Some(Key::Char(c)) => if c == 'q' {
            Command::Quit
        } else if c == 'r' {
            Command::Refresh
        } else {
            Command::Nothing
        },
        Some(Key::Esc) => Command::Quit,
        _ => Command::Nothing,
    }
}

/// Whether a tick is due at clock reading `now`: a full tick interval has
/// passed since the last tick.
pub open spec fn tick_is_due(last_tick: nat, now: nat) -> bool {
    elapsed(last_tick, now) >= TICK_RATE
}

/// The longest that a wait for input may last at clock reading `now`: what
/// is left of the tick interval, nothing once it is over.
pub open spec fn time_to_tick(last_tick: nat, now: nat) -> nat {
    if elapsed(last_tick, now) <= TICK_RATE {
        (TICK_RATE - elapsed(last_tick, now)) as nat
    } else {
        0
    }
}

/// The state after the check for a tick at clock reading `now`: where one is
/// due, the dashboard has had its periodic update and the tick is marked at
/// `now`; where none is due, nothing has changed.
pub open spec fn ticked(state: EventLoopView, now: nat) -> EventLoopView {
    if tick_is_due(state.last_tick, now) {
        EventLoopView { app: updated(state.app, now), last_tick: now, phase: state.phase }
    } else {
        state
    }
}

/// The state after `event` was reported at clock reading `now`.
///
/// The first lookup's end leads to the first frame. A frame drawn leads to a
/// wait for input. The end of that wait leads out of the loop on a quit key
/// and to a lookup on the refresh key; otherwise to the check for a tick and
/// the next frame. The end of a lookup that a key asked for leads to the
/// check for a tick and the next frame. An event that the phase does not
/// wait for changes nothing, and so does any event once the loop has ended.
pub open spec fn stepped(state: EventLoopView, event: Event, now: nat) -> EventLoopView {
    match (state.phase, event) {
        (Phase::Starting, Event::Fetched(reply)) => EventLoopView {
            app: fetched(state.app, located(reply)),
            last_tick: state.last_tick,
            phase: Phase::Drawing,
        },
        (Phase::Drawing, Event::Drawn) => EventLoopView { phase: Phase::Polling, ..state },
        (Phase::Polling, Event::Polled(input)) => match command_of(input) {
            Command::Quit => EventLoopView { phase: Phase::Exited, ..state },
            Command::Refresh => EventLoopView { phase: Phase::Refreshing, ..state },
            Command::Nothing => EventLoopView { phase: Phase::Drawing, ..ticked(state, now) },
        },
        (Phase::Refreshing, Event::Fetched(reply)) => EventLoopView {
            phase: Phase::Drawing,
            ..ticked(EventLoopView { app: fetched(state.app, located(reply)), ..state }, now)
        },
        _ => state,
    }
}

/// What a state waits for at clock reading `now`.
pub open spec fn awaited(state: EventLoopView, now: nat) -> Action {
    match state.phase {
        Phase::Starting => Action::Fetch,
        Phase::Drawing => Action::Draw,
        Phase::Polling => Action::Poll(time_to_tick(state.last_tick, now) as u64),
        Phase::Refreshing => Action::Fetch,
        Phase::Exited => Action::Exit,
    }
}

/// Tells what a key, or the lack of one, asks for.
pub fn key_command(input: Option<Key>) -> (command: Command)
    ensures
        command == command_of(input),
{
    match input {
        Some(Key::Char(c)) => {
            if c == 'q' {
                Command::Quit
            } else if c == 'r' {
                Command::Refresh
            } else {
                Command::Nothing
            }
        },
        Some(Key::Esc) => Command::Quit,
        _ => Command::Nothing,
    }
}

/// The time from `earlier` to `now` on the clock, nothing where the clock
/// reads less than before.
fn since(earlier: u64, now: u64) -> (passed: u64)
    ensures
        passed == elapsed(earlier as nat, now as nat),
{
    if now >= earlier {
        now - earlier
    } else {
        0
    }
}

/// How long a wait for input may last at clock reading `now`.
pub fn poll_timeout(last_tick: u64, now: u64) -> (timeout: u64)
    ensures
        timeout == time_to_tick(last_tick as nat, now as nat),
        timeout <= TICK_RATE,
{
    let passed = since(last_tick, now);
    if passed <= TICK_RATE {
        TICK_RATE - passed
    } else {
        0
    }
}

/// Whether a tick is due at clock reading `now`.
pub fn tick_due(last_tick: u64, now: u64) -> (due: bool)
    ensures
        due == tick_is_due(last_tick as nat, now as nat),
{
    since(last_tick, now) >= TICK_RATE
}

impl EventLoop {
    /// The loop before anything has happened, entered at clock reading
    /// `now`: it waits for the first lookup.
    pub fn new(app: App, now: u64) -> (state: EventLoop)
        ensures
            state@ == (EventLoopView { app: app@, last_tick: now as nat, phase: Phase::Starting }),
            state.app == app,
    {
        EventLoop { app, last_tick: now, phase: Phase::Starting }
    }

    /// Whether the loop has not ended.
    pub fn is_running(&self) -> (running: bool)
        ensures
            running == (self.phase != Phase::Exited),
    {
        match self.phase {
            Phase::Exited => false,
            _ => true,
        }
    }

    /// What the loop waits for at clock reading `now`.
    pub fn pending(&self, now: u64) -> (action: Action)
        ensures
            action == awaited(self@, now as nat),
    {
        match self.phase {
            Phase::Starting => Action::Fetch,
            Phase::Drawing => Action::Draw,
            Phase::Polling => Action::Poll(poll_timeout(self.last_tick, now)),
            Phase::Refreshing => Action::Fetch,
            Phase::Exited => Action::Exit,
        }
    }

    /// The check for a tick at clock reading `now`.
    pub fn tick(&mut self, now: u64)
        ensures
            final(self)@ == ticked(old(self)@, now as nat),
            !tick_is_due(old(self).last_tick as nat, now as nat) ==> *final(self) == *old(self),
            final(self).app.location == old(self).app.location,
            final(self).app.rotation >= old(self).app.rotation,
    {
        if tick_due(self.last_tick, now) {
            self.app.update(now);
            self.last_tick = now;
        }
    }

    /// Takes in `event`, reported at clock reading `now`, and says what to do
    /// next.
    pub fn step(&mut self, event: Event, now: u64) -> (action: Action)
        ensures
            final(self)@ == stepped(old(self)@, event, now as nat),
            action == awaited(final(self)@, now as nat),
            final(self).app.rotation >= old(self).app.rotation,
    {
        match event {
            Event::Fetched(reply) => match self.phase {
                Phase::Starting => {
                    self.app.apply_fetch(get_location(reply));
                    self.phase = Phase::Drawing;
                },
                Phase::Refreshing => {
                    self.app.apply_fetch(get_location(reply));
                    self.tick(now);
                    self.phase = Phase::Drawing;
                },
                _ => {},
            },
            Event::Drawn => match self.phase {
                Phase::Drawing => {
                    self.phase = Phase::Polling;
                },
                _ => {},
            },
            Event::Polled(input) => match self.phase {
                Phase::Polling => match key_command(input) {
                    Command::Quit => {
                        self.phase = Phase::Exited;
                    },
                    Command::Refresh => {
                        self.phase = Phase::Refreshing;
                    },
                    Command::Nothing => {
                        self.tick(now);
                        self.phase = Phase::Drawing;
                    },
                },
                _ => {},
            },
        }
        self.pending(now)
    }
}

/// The state after each of `reports` was taken in, in order. A report is an
/// event with the clock reading at which it was reported.
pub open spec fn ran(state: EventLoopView, reports: Seq<(Event, nat)>) -> EventLoopView
    decreases reports.len(),
{
    if reports.len() == 0 {
        state
    } else {
        stepped(ran(state, reports.drop_last()), reports.last().0, reports.last().1)
    }
}

/// Whether the clock never runs backwards through `reports`, and never reads
/// less than `start`.
pub open spec fn clock_in_order(start: nat, reports: Seq<(Event, nat)>) -> bool {
    &&& forall|i: int| 0 <= i < reports.len() ==> start <= (#[trigger] reports[i]).1
    &&& forall|i: int, j: int|
        0 <= i <= j < reports.len() ==> (#[trigger] reports[i]).1 <= (#[trigger] reports[j]).1
}

/// A quit key ends the loop at the very wait for input in which it arrives,
/// whatever the dashboard holds and whatever the clock reads.
pub proof fn lemma_quit_always_exits(state: EventLoopView, key: Key, now: nat)
    requires
        state.phase == Phase::Polling,
        key == Key::Char('q') || key == Key::Esc,
    ensures
        stepped(state, Event::Polled(Some(key)), now).phase == Phase::Exited,
        awaited(stepped(state, Event::Polled(Some(key)), now), now) == Action::Exit,
        stepped(state, Event::Polled(Some(key)), now).app == state.app,
{
}

/// Only a quit key ends the loop: a running loop that takes in anything
/// else is still running.
pub proof fn lemma_only_quit_exits(state: EventLoopView, event: Event, now: nat)
    requires
        state.phase != Phase::Exited,
        stepped(state, event, now).phase == Phase::Exited,
    ensures
        state.phase == Phase::Polling,
        event matches Event::Polled(Some(key)) && (key == Key::Char('q') || key == Key::Esc),
{
}

/// Once the loop has ended it stays ended: no event changes the state, and
/// the machine keeps asking to leave.
pub proof fn lemma_exit_is_final(state: EventLoopView, event: Event, now: nat)
    requires
        state.phase == Phase::Exited,
    ensures
        stepped(state, event, now) == state,
        awaited(stepped(state, event, now), now) == Action::Exit,
{
}

/// A lookup that fails, for want of a reply or of a coordinate in it, leaves
/// the location exactly as it was, in whatever phase it is reported.
pub proof fn lemma_failed_lookup_keeps_location(
    state: EventLoopView,
    reply: Option<LocationResponse>,
    now: nat,
)
    requires
        reply is None || reply->Some_0.lat is None || reply->Some_0.lon is None,
    ensures
        stepped(state, Event::Fetched(reply), now).app.location == state.app.location,
{
}

/// The location changes only when a lookup that the loop was waiting for
/// ends well. Until then a dashboard without a location stays without one.
pub proof fn lemma_location_changes_only_on_success(state: EventLoopView, event: Event, now: nat)
    requires
        stepped(state, event, now).app.location != state.app.location,
    ensures
        state.phase == Phase::Starting || state.phase == Phase::Refreshing,
        event matches Event::Fetched(reply) && located(reply) is Ok && stepped(
            state,
            event,
            now,
        ).app.location == Some(located(reply)->Ok_0),
{
}

/// Whether every lookup that `reports` tell of ended with `reply`.
pub open spec fn all_lookups_gave(
    reports: Seq<(Event, nat)>,
    reply: Option<LocationResponse>,
) -> bool {
    forall|i: int|
        0 <= i < reports.len() ==> ((#[trigger] reports[i]).0 matches Event::Fetched(given)
            ==> given == reply)
}

/// Refreshing again with the same reply shows the same: once a lookup has
/// ended with `reply`, then through any run of the loop in which every
/// further lookup ends with that same `reply`, however often the refresh key
/// is pressed, the location and the status line stay what they are.
pub proof fn lemma_refresh_is_idempotent(
    before: AppView,
    state: EventLoopView,
    reports: Seq<(Event, nat)>,
    reply: Option<LocationResponse>,
)
    requires
        state.app.location == fetched(before, located(reply)).location,
        all_lookups_gave(reports, reply),
    ensures
        ran(state, reports).app.location == state.app.location,
        status_text(ran(state, reports).app.location) == status_text(state.app.location),
    decreases reports.len(),
{
    if reports.len() > 0 {
        let earlier = reports.drop_last();
        assert forall|i: int| 0 <= i < earlier.len() implies earlier[i] == reports[i] by {}
        lemma_refresh_is_idempotent(before, state, earlier, reply);
    }
}

/// A turn of the loop in which no key asks for anything and no tick is due
/// changes nothing: after the frame and the wait for input the state is what
/// it was before the frame.
pub proof fn lemma_idle_turn_changes_nothing(
    state: EventLoopView,
    input: Option<Key>,
    drawn_at: nat,
    polled_at: nat,
)
    requires
        state.phase == Phase::Drawing,
        command_of(input) == Command::Nothing,
        !tick_is_due(state.last_tick, polled_at),
    ensures
        stepped(stepped(state, Event::Drawn, drawn_at), Event::Polled(input), polled_at) == state,
{
}

/// On a clock that never runs backwards the angle follows the clock: after
/// any run of the loop the angle has grown by ten degrees for each second
/// from the last update before the run to the last update in it, as far as
/// the limit allows. How many turns the loop took in between, with or
/// without a tick, makes no difference.
pub proof fn lemma_rotation_follows_clock(state: EventLoopView, reports: Seq<(Event, nat)>)
    requires
        state.app.rotation <= rotation_limit(),
        clock_in_order(state.app.last_update, reports),
    ensures
        state.app.last_update <= ran(state, reports).app.last_update,
        reports.len() > 0 ==> ran(state, reports).app.last_update <= reports.last().1,
        reports.len() == 0 ==> ran(state, reports).app.last_update == state.app.last_update,
        ran(state, reports).app.rotation == capped(
            state.app.rotation + TURN_PER_NANO as nat * (ran(state, reports).app.last_update
                - state.app.last_update) as nat,
        ),
        state.app.rotation <= ran(state, reports).app.rotation <= rotation_limit(),
    decreases reports.len(),
{
    if reports.len() > 0 {
        let earlier = reports.drop_last();
        assert(clock_in_order(state.app.last_update, earlier));
        lemma_rotation_follows_clock(state, earlier);
        if earlier.len() > 0 {
            assert(earlier.last() == reports[reports.len() - 2]);
        }
    }
}

} // verus!
