use thunder_reset::engine::{
    evaluate, triggers, ArmChange, ConfigError, Decision, EngineState, ThresholdConfig, Triggers,
};
use thunder_reset::snapshot::TimingSnapshot;
use thunder_reset::world::WorldIdentity;

fn limits(min: u64, max: u64, duration: u64) -> ThresholdConfig {
    ThresholdConfig::new(min, max, duration).unwrap()
}

fn armed() -> EngineState {
    let mut state = EngineState::new();
    state.set_armed(true);
    state
}

fn last(state: &EngineState) -> Option<String> {
    state.last_processed_world().map(|world| world.as_str().to_string())
}

#[test]
fn engine_starts_disarmed_and_blank() {
    let state = EngineState::new();
    assert!(!state.is_armed());
    assert!(state.last_processed_world().is_none());
}

#[test]
fn thresholds_keep_their_values() {
    let config = limits(100, 12000, 7);
    assert_eq!(config.min_start_tick(), 100);
    assert_eq!(config.max_start_tick(), 12000);
    assert_eq!(config.min_cycle_duration_ticks(), 7);
    assert!(ThresholdConfig::new(5, 5, 0).is_ok());
}

#[test]
fn thresholds_with_inverted_bounds_are_refused() {
    assert_eq!(ThresholdConfig::new(12001, 12000, 0).err(), Some(ConfigError::InvertedBounds));
    assert_eq!(ThresholdConfig::new(u64::MAX, 0, 0).err(), Some(ConfigError::InvertedBounds));
}

#[test]
fn rain_below_minimum_resets_new_world() {
    let config = limits(100, 12000, 0);
    let mut state = armed();
    let world = WorldIdentity::from_path("saves/one");
    let decision = evaluate(&TimingSnapshot::new(50, 200), &world, &config, &mut state);
    assert_eq!(decision, Decision::Reset);
    assert_eq!(last(&state), Some("saves/one".to_string()));
}

#[test]
fn equal_timers_within_bounds_give_no_action() {
    let config = limits(100, 12000, 0);
    let mut state = armed();
    let world = WorldIdentity::from_path("saves/one");
    let decision = evaluate(&TimingSnapshot::new(5000, 5000), &world, &config, &mut state);
    assert_eq!(decision, Decision::NoAction);
    // Judged all the same: the world is remembered.
    assert_eq!(last(&state), Some("saves/one".to_string()));
    let other = WorldIdentity::from_path("saves/two");
    assert_eq!(
        evaluate(&TimingSnapshot::new(200, 200), &other, &config, &mut state),
        Decision::NoAction
    );
}

#[test]
fn thunder_overshoot_resets() {
    // 12500 - 1000 = 11500 > 12000 - 1000 = 11000. The start window is wide
    // enough that only the overshoot can be the reason.
    let config = limits(100, 20000, 1000);
    let mut state = armed();
    let world = WorldIdentity::from_path("w");
    let snapshot = TimingSnapshot::new(1000, 12500);
    assert_eq!(
        triggers(&snapshot, &config),
        Triggers { out_of_bounds: false, thunder_overshoot: true, rain_overshoot: false }
    );
    assert_eq!(evaluate(&snapshot, &world, &config, &mut state), Decision::Reset);
}

#[test]
fn thunder_overshoot_resets_with_window_of_twelve_thousand() {
    let config = limits(100, 12000, 1000);
    let mut state = armed();
    let world = WorldIdentity::from_path("w");
    assert_eq!(
        evaluate(&TimingSnapshot::new(1000, 12500), &world, &config, &mut state),
        Decision::Reset
    );
}

#[test]
fn overshoot_limits_are_strict() {
    let config = limits(0, u64::MAX, 1000);
    // thunder after rain: exactly 11000 apart passes, 11001 does not.
    assert!(!triggers(&TimingSnapshot::new(1000, 12000), &config).fired());
    assert!(triggers(&TimingSnapshot::new(1000, 12001), &config).thunder_overshoot);
    // rain after thunder: the rain cycle is 3600 ticks, so 2600 is the limit.
    assert!(!triggers(&TimingSnapshot::new(3600, 1000), &config).fired());
    let found = triggers(&TimingSnapshot::new(3601, 1000), &config);
    assert_eq!(
        found,
        Triggers { out_of_bounds: false, thunder_overshoot: false, rain_overshoot: true }
    );
}

#[test]
fn minimum_longer_than_the_cycle_makes_any_gap_an_overshoot() {
    // 3600 - 5000 is below zero, so every gap of rain after thunder exceeds it.
    let config = limits(0, u64::MAX, 5000);
    assert!(triggers(&TimingSnapshot::new(11, 10), &config).rain_overshoot);
    // 12000 - 5000 = 7000 still bounds thunder after rain.
    assert!(!triggers(&TimingSnapshot::new(10, 7010), &config).fired());
    assert!(triggers(&TimingSnapshot::new(10, 7011), &config).thunder_overshoot);
    let huge = limits(0, u64::MAX, u64::MAX);
    assert!(triggers(&TimingSnapshot::new(1, 2), &huge).thunder_overshoot);
    assert!(!triggers(&TimingSnapshot::new(2, 2), &huge).fired());
}

#[test]
fn out_of_bounds_is_found_on_each_side() {
    let config = limits(100, 12000, 0);
    assert!(triggers(&TimingSnapshot::new(99, 100), &config).out_of_bounds);
    assert!(triggers(&TimingSnapshot::new(100, 99), &config).out_of_bounds);
    assert!(triggers(&TimingSnapshot::new(12001, 12000), &config).out_of_bounds);
    assert!(triggers(&TimingSnapshot::new(12000, 12001), &config).out_of_bounds);
    assert!(!triggers(&TimingSnapshot::new(100, 12000), &config).out_of_bounds);
    assert!(!triggers(&TimingSnapshot::new(12000, 12000), &config).fired());
}

#[test]
fn several_reasons_give_one_reset() {
    let config = limits(100, 12000, 0);
    let snapshot = TimingSnapshot::new(50, 20000);
    let found = triggers(&snapshot, &config);
    assert!(found.out_of_bounds && found.thunder_overshoot && !found.rain_overshoot);
    let mut state = armed();
    let world = WorldIdentity::from_path("w");
    assert_eq!(evaluate(&snapshot, &world, &config, &mut state), Decision::Reset);
}

#[test]
fn unset_timer_gives_no_action_and_keeps_state() {
    let config = limits(100, 12000, 0);
    let world = WorldIdentity::from_path("new");
    for snapshot in [
        TimingSnapshot::new(0, 50),
        TimingSnapshot::new(50, 0),
        TimingSnapshot::new(0, 0),
        TimingSnapshot::new(0, u64::MAX),
    ] {
        let mut state = armed();
        assert_eq!(evaluate(&snapshot, &world, &config, &mut state), Decision::NoAction);
        assert_eq!(last(&state), None);
        assert!(state.is_armed());

        // With an earlier world on record, that record stays.
        let earlier = WorldIdentity::from_path("old");
        evaluate(&TimingSnapshot::new(500, 500), &earlier, &config, &mut state);
        assert_eq!(evaluate(&snapshot, &world, &config, &mut state), Decision::NoAction);
        assert_eq!(last(&state), Some("old".to_string()));
    }
}

#[test]
fn processed_world_is_not_judged_again() {
    let config = limits(100, 12000, 0);
    let mut state = armed();
    let world = WorldIdentity::from_path("saves/one");
    assert_eq!(
        evaluate(&TimingSnapshot::new(50, 200), &world, &config, &mut state),
        Decision::Reset
    );
    // The same world again, with timers that would call for a reset.
    for snapshot in [
        TimingSnapshot::new(50, 200),
        TimingSnapshot::new(1, 99999),
        TimingSnapshot::new(5000, 5000),
        TimingSnapshot::new(0, 0),
    ] {
        let same = WorldIdentity::new("saves/one".to_string());
        assert_eq!(evaluate(&snapshot, &same, &config, &mut state), Decision::NoAction);
        assert_eq!(last(&state), Some("saves/one".to_string()));
        assert!(state.is_armed());
    }
    // Another world is judged.
    let other = WorldIdentity::from_path("saves/two");
    assert_eq!(
        evaluate(&TimingSnapshot::new(50, 200), &other, &config, &mut state),
        Decision::Reset
    );
    assert_eq!(last(&state), Some("saves/two".to_string()));
    // And then the first one counts as new again.
    assert_eq!(
        evaluate(&TimingSnapshot::new(50, 200), &world, &config, &mut state),
        Decision::Reset
    );
}

#[test]
fn disarmed_engine_does_nothing() {
    let config = limits(100, 12000, 0);
    let mut state = EngineState::new();
    let world = WorldIdentity::from_path("w");
    assert_eq!(
        evaluate(&TimingSnapshot::new(50, 200), &world, &config, &mut state),
        Decision::NoAction
    );
    assert_eq!(last(&state), None);
    assert!(!state.is_armed());
    assert!(!state.has_processed(&world));
}

#[test]
fn hotkey_arms_and_any_other_key_disarms() {
    let mut state = EngineState::new();
    assert_eq!(state.observe_key('x', 'r'), ArmChange::Unchanged);
    assert!(!state.is_armed());
    assert_eq!(state.observe_key('r', 'r'), ArmChange::Armed);
    assert!(state.is_armed());
    assert_eq!(state.observe_key('r', 'r'), ArmChange::Unchanged);
    assert!(state.is_armed());
    assert_eq!(state.observe_key('R', 'r'), ArmChange::Disarmed);
    assert!(!state.is_armed());
}

#[test]
fn keys_do_not_touch_the_processed_world() {
    let config = limits(100, 12000, 0);
    let mut state = armed();
    let world = WorldIdentity::from_path("w");
    evaluate(&TimingSnapshot::new(500, 500), &world, &config, &mut state);
    state.observe_key('a', 'r');
    state.observe_key('r', 'r');
    assert!(state.has_processed(&world));
    state.set_armed(false);
    assert!(state.has_processed(&world));
}

#[test]
fn world_identity_compares_by_path() {
    let a = WorldIdentity::from_path("saves/World 1");
    let b = WorldIdentity::new(String::from("saves/World 1"));
    let c = WorldIdentity::from_path("saves/World 2");
    assert!(a.same_world(&b));
    assert!(!a.same_world(&c));
    assert_eq!(a, b);
    assert_ne!(a, c);
    assert_eq!(a.duplicate(), a);
    assert_eq!(c.as_str(), "saves/World 2");
}

#[test]
fn snapshot_is_initialized_only_with_both_timers() {
    assert!(TimingSnapshot::new(1, 1).is_initialized());
    assert!(!TimingSnapshot::new(0, 1).is_initialized());
    assert!(!TimingSnapshot::new(1, 0).is_initialized());
    let snapshot = TimingSnapshot::new(3, 4);
    assert_eq!(snapshot.rain_start_tick, 3);
    assert_eq!(snapshot.thunder_start_tick, 4);
}
