//! The dashboard's state: the place last looked up, and a turning angle that
//! grows with the time that passes.

use vstd::prelude::*;
use crate::location::{FetchError, Location, LocationView, known, outcome_view};

verus! {

/// How far the angle turns in one nanosecond, in billionths of a degree:
/// ten degrees a second.
pub const TURN_PER_NANO: u128 = 10;

/// The state of the dashboard. `last_update` is a reading of the monotonic
/// clock in nanoseconds; `rotation` is in billionths of a degree.
#[derive(Debug, PartialEq, Eq)]
pub struct App {
    pub location: Option<Location>,
    pub last_update: u64,
    pub rotation: u128,
}

/// What an `App` holds, as mathematical values.
pub struct AppView {
    pub location: Option<LocationView>,
    pub last_update: nat,
    pub rotation: nat,
}

impl View for App {
    type V = AppView;

    open spec fn view(&self) -> AppView {
        AppView {
            location: known(self.location),
            last_update: self.last_update as nat,
            rotation: self.rotation as nat,
        }
    }
}

/// The time from `earlier` to `later`, nothing where `later` is not later.
pub open spec fn elapsed(earlier: nat, later: nat) -> nat {
    if later >= earlier {
        (later - earlier) as nat
    } else {
        0
    }
}

/// The largest angle that the state can hold; the angle stops growing there.
pub open spec fn rotation_limit() -> nat {
    u128::MAX as nat
}

/// The smaller of an angle and the limit.
pub open spec fn capped(angle: nat) -> nat {
    if angle <= rotation_limit() {
        angle
    } else {
        rotation_limit()
    }
}

/// The state after a periodic update at clock reading `now`: the angle has
/// turned by ten degrees for each second since the last update, and the last
/// update is `now`.
pub open spec fn updated(app: AppView, now: nat) -> AppView {
    AppView {
        location: app.location,
        last_update: now,
        rotation: capped(app.rotation + TURN_PER_NANO as nat * elapsed(app.last_update, now)),
    }
}

/// The state after a lookup that ended in `outcome`: a location takes the
/// place of the old one, a failure leaves everything as it was.
pub open spec fn fetched(app: AppView, outcome: Result<LocationView, FetchError>) -> AppView {
    match outcome {
        Ok(location) => AppView { location: Some(location), ..app },
        Err(_) => app,
    }
}

/// The state after one periodic update at each of `readings`, in order.
pub open spec fn updated_through(app: AppView, readings: Seq<nat>) -> AppView
    decreases readings.len(),
{
    if readings.len() == 0 {
        app
    } else {
        updated(updated_through(app, readings.drop_last()), readings.last())
    }
}

/// The sum of the times that pass between consecutive updates, the first of
/// them counted from `start`.
pub open spec fn elapsed_sum(start: nat, readings: Seq<nat>) -> nat
    decreases readings.len(),
{
    if readings.len() == 0 {
        0
    } else if readings.len() == 1 {
        elapsed(start, readings[0])
    } else {
        elapsed_sum(start, readings.drop_last()) + elapsed(
            readings[readings.len() - 2],
            readings.last(),
        )
    }
}

/// Whether no reading is earlier than the one before it, nor than `start`.
pub open spec fn in_order(start: nat, readings: Seq<nat>) -> bool {
    &&& forall|i: int| 0 <= i < readings.len() ==> start <= #[trigger] readings[i]
    &&& forall|i: int, j: int| 0 <= i <= j < readings.len() ==> readings[i] <= readings[j]
}

impl App {
    /// A state with no location yet and the angle at zero, made at clock
    /// reading `now`.
    pub fn new(now: u64) -> (app: App)
        ensures
            app@ == (AppView { location: None, last_update: now as nat, rotation: 0 }),
    {
        App { location: None, last_update: now, rotation: 0 }
    }

    /// The periodic update at clock reading `now`: turns the angle by ten
    /// degrees for each second since the last update and notes `now` as the
    /// last update. The location stays, and the angle never turns back.
    pub fn update(&mut self, now: u64)
        ensures
            final(self)@ == updated(old(self)@, now as nat),
            final(self).location == old(self).location,
            final(self).rotation >= old(self).rotation,
    {
        let passed: u64 = if now >= self.last_update {
            now - self.last_update
        } else {
            0
        };
        let turn: u128 = TURN_PER_NANO * (passed as u128);
        self.rotation = self.rotation.saturating_add(turn);
        self.last_update = now;
    }

    /// Takes in the end of one lookup: a location replaces the one held, a
    /// failure changes nothing at all.
    pub fn apply_fetch(&mut self, outcome: Result<Location, FetchError>)
        ensures
            final(self)@ == fetched(old(self)@, outcome_view(outcome)),
            outcome is Err ==> *final(self) == *old(self),
            final(self).last_update == old(self).last_update,
            final(self).rotation == old(self).rotation,
    {
        if let Ok(location) = outcome {
            self.location = Some(location);
        }
    }
}

/// The angle never turns back, and an update leaves the location alone.
pub proof fn lemma_update_is_monotonic(app: AppView, now: nat)
    requires
        app.rotation <= rotation_limit(),
    ensures
        updated(app, now).rotation >= app.rotation,
        updated(app, now).rotation <= rotation_limit(),
        updated(app, now).location == app.location,
{
}

/// After any run of updates the angle has grown by ten degrees for each
/// second of the times between them, added up, as far as the limit allows;
/// the last update is the last reading.
pub proof fn lemma_rotation_is_sum(app: AppView, readings: Seq<nat>)
    requires
        app.rotation <= rotation_limit(),
    ensures
        updated_through(app, readings).rotation == capped(
            app.rotation + TURN_PER_NANO as nat * elapsed_sum(app.last_update, readings),
        ),
        updated_through(app, readings).location == app.location,
        readings.len() > 0 ==> updated_through(app, readings).last_update == readings.last(),
        readings.len() == 0 ==> updated_through(app, readings).last_update == app.last_update,
    decreases readings.len(),
{
    if readings.len() == 0 {
    } else if readings.len() == 1 {
        assert(updated_through(app, readings.drop_last()) == app);
    } else {
        let earlier = readings.drop_last();
        lemma_rotation_is_sum(app, earlier);
        assert(earlier.last() == readings[readings.len() - 2]);
    }
}

/// On a clock that never runs backwards the times between updates add up to
/// the time from the first state's last update to the last reading, however
/// many updates there were in between.
pub proof fn lemma_elapsed_sum_telescopes(start: nat, readings: Seq<nat>)
    requires
        in_order(start, readings),
        readings.len() > 0,
    ensures
        elapsed_sum(start, readings) == readings.last() - start,
    decreases readings.len(),
{
    if readings.len() > 1 {
        let earlier = readings.drop_last();
        assert(in_order(start, earlier));
        lemma_elapsed_sum_telescopes(start, earlier);
        assert(earlier.last() == readings[readings.len() - 2]);
    }
}

} // verus!
