//! The reset decision: thresholds, the engine's memory and `evaluate`.

use vstd::prelude::*;

use crate::snapshot::TimingSnapshot;
use crate::world::WorldIdentity;

verus! {

/// Nominal length of a thunder cycle: ten minutes of play, at 1200 ticks each.
pub const THUNDER_CYCLE_TICKS: u64 = 12000;

/// Nominal length of a rain cycle: three minutes of play.
pub const RAIN_CYCLE_TICKS: u64 = 3600;

/// Why a set of thresholds was turned down.
#[derive(Clone, Copy, Debug, PartialEq, Eq, Structural)]
pub enum ConfigError {
    /// The lower bound on a cycle's start lies above the upper bound.
    InvertedBounds,
}

/// What a [`ThresholdConfig`] holds, as plain numbers.
pub struct Thresholds {
    pub min_start_tick: u64,
    pub max_start_tick: u64,
    pub min_cycle_duration_ticks: u64,
}

/// The limits a world's weather timers are held against.
///
/// `min_start_tick` and `max_start_tick` bound each cycle's start, both ends
/// included, and the lower bound never lies above the upper one.
#[derive(Clone, Copy, Debug)]
pub struct ThresholdConfig {
    min_start_tick: u64,
    max_start_tick: u64,
    min_cycle_duration_ticks: u64,
}

impl View for ThresholdConfig {
    type V = Thresholds;

    closed spec fn view(&self) -> Thresholds {
        Thresholds {
            min_start_tick: self.min_start_tick,
            max_start_tick: self.max_start_tick,
            min_cycle_duration_ticks: self.min_cycle_duration_ticks,
        }
    }
}

impl ThresholdConfig {
    #[verifier::type_invariant]
    spec fn bounds_in_order(self) -> bool {
        self.min_start_tick <= self.max_start_tick
    }

    /// Accepts the three limits exactly when the start bounds are in order.
    pub fn new(min_start_tick: u64, max_start_tick: u64, min_cycle_duration_ticks: u64) -> (made:
        Result<ThresholdConfig, ConfigError>)
        ensures
            match made {
                Ok(config) => min_start_tick <= max_start_tick && config@ == (Thresholds {
                    min_start_tick,
                    max_start_tick,
                    min_cycle_duration_ticks,
                }),
                Err(error) => min_start_tick > max_start_tick && error == ConfigError::InvertedBounds,
            },
    {
        if min_start_tick > max_start_tick {
            Err(ConfigError::InvertedBounds)
        } else {
            Ok(ThresholdConfig { min_start_tick, max_start_tick, min_cycle_duration_ticks })
        }
    }

    pub fn min_start_tick(&self) -> (tick: u64)
        ensures
            tick == self@.min_start_tick,
            tick <= self@.max_start_tick,
    {
        proof {
            use_type_invariant(self);
        }
        self.min_start_tick
    }

    pub fn max_start_tick(&self) -> (tick: u64)
        ensures
            tick == self@.max_start_tick,
            self@.min_start_tick <= tick,
    {
        proof {
            use_type_invariant(self);
        }
        self.max_start_tick
    }

    pub fn min_cycle_duration_ticks(&self) -> (ticks: u64)
        ensures
            ticks == self@.min_cycle_duration_ticks,
    {
        self.min_cycle_duration_ticks
    }
}

/// A cycle starts before the earliest or after the latest tick allowed.
pub open spec fn out_of_bounds(snapshot: TimingSnapshot, limits: Thresholds) -> bool {
    ||| snapshot.thunder_start_tick > limits.max_start_tick
    ||| snapshot.rain_start_tick > limits.max_start_tick
    ||| snapshot.thunder_start_tick < limits.min_start_tick
    ||| snapshot.rain_start_tick < limits.min_start_tick
}

/// Thunder starts after rain, and later than a thunder cycle shortened by the
/// wanted minimum allows. The difference on the right may be negative: it is
/// taken over the integers.
pub open spec fn thunder_overshoot(snapshot: TimingSnapshot, limits: Thresholds) -> bool {
    &&& snapshot.thunder_start_tick > snapshot.rain_start_tick
    &&& snapshot.thunder_start_tick - snapshot.rain_start_tick > THUNDER_CYCLE_TICKS
        - limits.min_cycle_duration_ticks
}

/// Rain starts after thunder, and later than a rain cycle shortened by the
/// wanted minimum allows.
pub open spec fn rain_overshoot(snapshot: TimingSnapshot, limits: Thresholds) -> bool {
    &&& snapshot.rain_start_tick > snapshot.thunder_start_tick
    &&& snapshot.rain_start_tick - snapshot.thunder_start_tick > RAIN_CYCLE_TICKS
        - limits.min_cycle_duration_ticks
}

/// The three reasons for a reset, each found on its own.
#[derive(Clone, Copy, Debug, PartialEq, Eq, Structural)]
pub struct Triggers {
    pub out_of_bounds: bool,
    pub thunder_overshoot: bool,
    pub rain_overshoot: bool,
}

impl Triggers {
    pub open spec fn any(self) -> bool {
        self.out_of_bounds || self.thunder_overshoot || self.rain_overshoot
    }

    /// At least one reason holds.
    pub fn fired(&self) -> (yes: bool)
        ensures
            yes == self.any(),
    {
        self.out_of_bounds || self.thunder_overshoot || self.rain_overshoot
    }
}

pub open spec fn triggers_of(snapshot: TimingSnapshot, limits: Thresholds) -> Triggers {
    Triggers {
        out_of_bounds: out_of_bounds(snapshot, limits),
        thunder_overshoot: thunder_overshoot(snapshot, limits),
        rain_overshoot: rain_overshoot(snapshot, limits),
    }
}

/// `later - earlier > cycle - minimum` over the integers, for `later > earlier`.
fn overshoots(later: u64, earlier: u64, cycle: u64, minimum: u64) -> (yes: bool)
    requires
        later > earlier,
    ensures
        yes == (later - earlier > cycle - minimum),
{
    minimum > cycle || later - earlier > cycle - minimum
}

/// Holds a snapshot against the limits and reports every reason for a reset.
pub fn triggers(snapshot: &TimingSnapshot, config: &ThresholdConfig) -> (found: Triggers)
    ensures
        found == triggers_of(*snapshot, config@),
{
    let rain = snapshot.rain_start_tick;
    let thunder = snapshot.thunder_start_tick;
    let out_of_bounds = thunder > config.max_start_tick || rain > config.max_start_tick || thunder
        < config.min_start_tick || rain < config.min_start_tick;
    let thunder_overshoot = thunder > rain && overshoots(
        thunder,
        rain,
        THUNDER_CYCLE_TICKS,
        config.min_cycle_duration_ticks,
    );
    let rain_overshoot = rain > thunder && overshoots(
        rain,
        thunder,
        RAIN_CYCLE_TICKS,
        config.min_cycle_duration_ticks,
    );
    Triggers { out_of_bounds, thunder_overshoot, rain_overshoot }
}

/// The outcome of one evaluation. However many reasons hold, a world is reset
/// at most once.
#[derive(Clone, Copy, Debug, PartialEq, Eq, Structural)]
pub enum Decision {
    NoAction,
    Reset,
}

/// How the armed flag moved when a key was seen.
#[derive(Clone, Copy, Debug, PartialEq, Eq, Structural)]
pub enum ArmChange {
    Armed,
    Disarmed,
    Unchanged,
}

/// What an [`EngineState`] holds: the world judged last, if any, and whether
/// resets are switched on.
pub struct EngineView {
    pub last_processed_world: Option<Seq<char>>,
    pub armed: bool,
}

/// The engine's memory across evaluations.
#[derive(Clone, Debug)]
pub struct EngineState {
    last_processed_world: Option<WorldIdentity>,
    armed: bool,
}

impl View for EngineState {
    type V = EngineView;

    closed spec fn view(&self) -> EngineView {
        EngineView {
            last_processed_world: match self.last_processed_world {
                Some(world) => Some(world@),
                None => None,
            },
            armed: self.armed,
        }
    }
}

impl EngineState {
    /// No world judged yet, resets switched off.
    pub fn new() -> (state: EngineState)
        ensures
            state@ == (EngineView { last_processed_world: None, armed: false }),
    {
        EngineState { last_processed_world: None, armed: false }
    }

    pub fn is_armed(&self) -> (armed: bool)
        ensures
            armed == self@.armed,
    {
        self.armed
    }

    pub fn set_armed(&mut self, armed: bool)
        ensures
            final(self)@ == (EngineView { armed, ..old(self)@ }),
    {
        self.armed = armed;
    }

    pub fn last_processed_world(&self) -> (last: Option<&WorldIdentity>)
        ensures
            match last {
                Some(world) => self@.last_processed_world == Some(world@),
                None => self@.last_processed_world is None,
            },
    {
        self.last_processed_world.as_ref()
    }

    /// The world named was the last one judged.
    pub fn has_processed(&self, identity: &WorldIdentity) -> (yes: bool)
        ensures
            yes == (self@.last_processed_world == Some(identity@)),
    {
        match &self.last_processed_world {
            Some(world) => world.same_world(identity),
            None => false,
        }
    }

    /// Takes note of a key seen anywhere on the machine: the hotkey switches
    /// resets on, any other key switches them off.
    pub fn observe_key(&mut self, key: char, hotkey: char) -> (change: ArmChange)
        ensures
            final(self)@ == (EngineView { armed: key == hotkey, ..old(self)@ }),
            change == if old(self)@.armed == (key == hotkey) {
                ArmChange::Unchanged
            } else if key == hotkey {
                ArmChange::Armed
            } else {
                ArmChange::Disarmed
            },
    {
        let armed = key == hotkey;
        let change = if self.armed == armed {
            ArmChange::Unchanged
        } else if armed {
            ArmChange::Armed
        } else {
            ArmChange::Disarmed
        };
        self.armed = armed;
        change
    }
}

/// The snapshot is held against the limits: resets are switched on, both
/// timers are set, and the world is not the one judged last.
pub open spec fn judges(snapshot: TimingSnapshot, identity: Seq<char>, state: EngineView) -> bool {
    &&& state.armed
    &&& snapshot.initialized()
    &&& state.last_processed_world != Some(identity)
}

pub open spec fn decision_of(
    snapshot: TimingSnapshot,
    identity: Seq<char>,
    limits: Thresholds,
    state: EngineView,
) -> Decision {
    if judges(snapshot, identity, state) && triggers_of(snapshot, limits).any() {
        Decision::Reset
    } else {
        Decision::NoAction
    }
}

/// A world that was judged is remembered, whatever the verdict; otherwise
/// nothing changes.
pub open spec fn state_after(snapshot: TimingSnapshot, identity: Seq<char>, state: EngineView)
    -> EngineView {
    if judges(snapshot, identity, state) {
        EngineView { last_processed_world: Some(identity), ..state }
    } else {
        state
    }
}

/// Decides whether the world `identity`, whose save gave `snapshot`, is reset.
///
/// Nothing happens while resets are switched off, while either timer is still
/// unset, or when the world is the one judged last. Any other world is held
/// against the limits once and then remembered.
pub fn evaluate(
    snapshot: &TimingSnapshot,
    identity: &WorldIdentity,
    config: &ThresholdConfig,
    state: &mut EngineState,
) -> (decision: Decision)
    ensures
        decision == decision_of(*snapshot, identity@, config@, old(state)@),
        final(state)@ == state_after(*snapshot, identity@, old(state)@),
        final(state)@.armed == old(state)@.armed,
        snapshot.rain_start_tick == 0 || snapshot.thunder_start_tick == 0 ==> decision
            == Decision::NoAction && final(state)@ == old(state)@,
        old(state)@.last_processed_world == Some(identity@) ==> decision == Decision::NoAction
            && final(state)@ == old(state)@,
        decision == Decision::Reset ==> final(state)@.last_processed_world == Some(identity@),
{
    if !state.armed {
        return Decision::NoAction;
    }
    if !snapshot.is_initialized() {
        return Decision::NoAction;
    }
    if state.has_processed(identity) {
        return Decision::NoAction;
    }
    let found = triggers(snapshot, config);
    state.last_processed_world = Some(identity.duplicate());
    if found.fired() {
        Decision::Reset
    } else {
        Decision::NoAction
    }
}

/// The two overshoots never hold together: each needs its own timer to be the
/// later one.
pub proof fn overshoots_exclude_each_other(snapshot: TimingSnapshot, limits: Thresholds)
    ensures
        !(thunder_overshoot(snapshot, limits) && rain_overshoot(snapshot, limits)),
{
}

/// Within the start window, with no minimum asked for, two timers that are
/// less than a rain cycle apart never call for a reset.
pub proof fn close_timers_in_window_pass(snapshot: TimingSnapshot, limits: Thresholds)
    requires
        !out_of_bounds(snapshot, limits),
        limits.min_cycle_duration_ticks == 0,
        snapshot.rain_start_tick - snapshot.thunder_start_tick <= RAIN_CYCLE_TICKS,
        snapshot.thunder_start_tick - snapshot.rain_start_tick <= THUNDER_CYCLE_TICKS,
    ensures
        !triggers_of(snapshot, limits).any(),
{
}

/// A world whose save shows an unset timer is neither reset nor remembered.
pub proof fn unset_timer_changes_nothing(
    snapshot: TimingSnapshot,
    identity: Seq<char>,
    limits: Thresholds,
    state: EngineView,
)
    requires
        snapshot.rain_start_tick == 0 || snapshot.thunder_start_tick == 0,
    ensures
        decision_of(snapshot, identity, limits, state) == Decision::NoAction,
        state_after(snapshot, identity, state) == state,
{
}

/// Evaluating the world judged last changes nothing, whatever its timers say.
pub proof fn processed_world_changes_nothing(
    snapshot: TimingSnapshot,
    identity: Seq<char>,
    limits: Thresholds,
    state: EngineView,
)
    requires
        state.last_processed_world == Some(identity),
    ensures
        decision_of(snapshot, identity, limits, state) == Decision::NoAction,
        state_after(snapshot, identity, state) == state,
{
}

/// Once a world has been judged, evaluating it again, with any snapshot and
/// any limits, gives no action and leaves the state as the first evaluation
/// left it: a world is reset at most once.
pub proof fn judged_world_is_settled(
    first: TimingSnapshot,
    again: TimingSnapshot,
    identity: Seq<char>,
    limits: Thresholds,
    state: EngineView,
)
    requires
        judges(first, identity, state),
    ensures
        decision_of(again, identity, limits, state_after(first, identity, state))
            == Decision::NoAction,
        state_after(again, identity, state_after(first, identity, state)) == state_after(
            first,
            identity,
            state,
        ),
{
}

/// An evaluation never moves the armed flag.
pub proof fn evaluation_keeps_armed(snapshot: TimingSnapshot, identity: Seq<char>, state: EngineView)
    ensures
        state_after(snapshot, identity, state).armed == state.armed,
{
}

} // verus!
