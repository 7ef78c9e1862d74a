//! The watch loop's decisions, one step at a time.
//!
//! The caller waits for the watched folder to change, lists it, reads a
//! save and presses the reset key. After each of these it hands what it saw
//! to [`step`], which says what to do next.

use vstd::prelude::*;

use crate::engine::{
    decision_of, evaluate, judges, state_after, triggers_of, Decision, EngineState, EngineView,
    ThresholdConfig, Thresholds,
};
use crate::gzip::gunzip;
use crate::save::{decode_save, decoded, decompress_save};
use crate::snapshot::TimingSnapshot;
use crate::world::{select_active_world, selection_of, DirectoryListing, SelectionError, WorldIdentity};

verus! {

/// What the caller saw.
#[derive(Clone, Debug)]
pub enum WatchEvent {
    /// Something changed in the watched folder.
    DirectoryChanged,
    /// The watched folder was listed.
    Listed(DirectoryListing),
    /// The save of `world` was read: its contents as they lie on disk, or
    /// `None` where the file is missing or could not be read.
    SaveRead { world: WorldIdentity, contents: Option<Vec<u8>> },
}

/// Why nothing is done until the folder changes again.
#[derive(Clone, Copy, Debug, PartialEq, Eq, Structural)]
pub enum WaitReason {
    /// Resets are switched off.
    Disarmed,
    /// No world could be selected.
    NoWorld(SelectionError),
    /// The save is missing, unreadable or not a sound gzip stream.
    SaveUnavailable,
    /// The save does not decode.
    SaveMalformed,
    /// The world has not set both weather cycles up yet.
    TimersUnset,
    /// The world is the one judged last.
    AlreadyJudged,
    /// The world was judged and stays.
    WithinLimits,
}

/// What the caller does next.
#[derive(Clone, Debug)]
pub enum WatchAction {
    /// Wait for the next change of the folder.
    Wait(WaitReason),
    /// List the watched folder and hand in the listing.
    ListWorlds,
    /// Read the save of this world and hand in its contents.
    ReadSave(WorldIdentity),
    /// Press and release the reset key, then wait for the next change.
    PressResetKey,
}

/// A [`WatchAction`], with the world named by its path.
pub enum ActionView {
    Wait(WaitReason),
    ListWorlds,
    ReadSave(Seq<char>),
    PressResetKey,
}

impl View for WatchAction {
    type V = ActionView;

    open spec fn view(&self) -> ActionView {
        match self {
            WatchAction::Wait(reason) => ActionView::Wait(*reason),
            WatchAction::ListWorlds => ActionView::ListWorlds,
            WatchAction::ReadSave(world) => ActionView::ReadSave(world@),
            WatchAction::PressResetKey => ActionView::PressResetKey,
        }
    }
}

/// The answer to one event.
#[derive(Clone, Debug)]
pub struct WatchStep {
    pub action: WatchAction,
    /// The timers of the world, where this step judged one.
    pub judged: Option<TimingSnapshot>,
}

/// What the contents of a save file give: they inflate, and what comes out
/// decodes.
pub open spec fn loaded(contents: Option<Vec<u8>>) -> Result<TimingSnapshot, WaitReason> {
    match contents {
        None => Err(WaitReason::SaveUnavailable),
        Some(compressed) => match gunzip(compressed@) {
            None => Err(WaitReason::SaveUnavailable),
            Some(bytes) => match decoded(bytes) {
                Ok(snapshot) => Ok(snapshot),
                Err(_) => Err(WaitReason::SaveMalformed),
            },
        },
    }
}

/// Why an evaluation that gave no reset did so.
pub open spec fn reason_to_wait(snapshot: TimingSnapshot, identity: Seq<char>, state: EngineView)
    -> WaitReason {
    if !state.armed {
        WaitReason::Disarmed
    } else if !snapshot.initialized() {
        WaitReason::TimersUnset
    } else if state.last_processed_world == Some(identity) {
        WaitReason::AlreadyJudged
    } else {
        WaitReason::WithinLimits
    }
}

/// The action that answers `event` in `state`.
pub open spec fn action_for(state: EngineView, limits: Thresholds, event: WatchEvent)
    -> ActionView {
    match event {
        WatchEvent::DirectoryChanged => if state.armed {
            ActionView::ListWorlds
        } else {
            ActionView::Wait(WaitReason::Disarmed)
        },
        WatchEvent::Listed(listing) => match selection_of(listing) {
            Ok(world) => ActionView::ReadSave(world),
            Err(error) => ActionView::Wait(WaitReason::NoWorld(error)),
        },
        WatchEvent::SaveRead { world, contents } => match loaded(contents) {
            Err(reason) => ActionView::Wait(reason),
            Ok(snapshot) => match decision_of(snapshot, world@, limits, state) {
                Decision::Reset => ActionView::PressResetKey,
                Decision::NoAction => ActionView::Wait(reason_to_wait(snapshot, world@, state)),
            },
        },
    }
}

/// The snapshot that `event` puts before the limits, if it does.
pub open spec fn judged_by(state: EngineView, event: WatchEvent) -> Option<TimingSnapshot> {
    match event {
        WatchEvent::SaveRead { world, contents } => match loaded(contents) {
            Ok(snapshot) => if judges(snapshot, world@, state) {
                Some(snapshot)
            } else {
                None
            },
            Err(_) => None,
        },
        _ => None,
    }
}

/// The state after `event`: only a save that loads can move it.
pub open spec fn state_following(state: EngineView, event: WatchEvent) -> EngineView {
    match event {
        WatchEvent::SaveRead { world, contents } => match loaded(contents) {
            Ok(snapshot) => state_after(snapshot, world@, state),
            Err(_) => state,
        },
        _ => state,
    }
}

fn wait(reason: WaitReason) -> (taken: WatchStep)
    ensures
        taken.action@ == ActionView::Wait(reason),
        taken.judged is None,
{
    WatchStep { action: WatchAction::Wait(reason), judged: None }
}

/// Answers one event of the watch loop.
///
/// A change of the folder asks for a listing while resets are switched on.
/// A listing asks for the save of the active world. A save that was read is
/// inflated, decoded and evaluated. Whatever fails on the way ends the round
/// and leaves the state as it was.
pub fn step(state: &mut EngineState, config: &ThresholdConfig, event: WatchEvent) -> (taken:
    WatchStep)
    ensures
        taken.action@ == action_for(old(state)@, config@, event),
        taken.judged == judged_by(old(state)@, event),
        final(state)@ == state_following(old(state)@, event),
{
    match event {
        WatchEvent::DirectoryChanged => {
            if state.is_armed() {
                WatchStep { action: WatchAction::ListWorlds, judged: None }
            } else {
                wait(WaitReason::Disarmed)
            }
        },
        WatchEvent::Listed(listing) => {
            match select_active_world(&listing) {
                Ok(world) => WatchStep { action: WatchAction::ReadSave(world), judged: None },
                Err(error) => wait(WaitReason::NoWorld(error)),
            }
        },
        WatchEvent::SaveRead { world, contents } => {
            let compressed = match contents {
                Some(compressed) => compressed,
                None => {
                    return wait(WaitReason::SaveUnavailable);
                },
            };
            let bytes = match decompress_save(compressed.as_slice()) {
                Some(bytes) => bytes,
                None => {
                    return wait(WaitReason::SaveUnavailable);
                },
            };
            let snapshot = match decode_save(bytes.as_slice()) {
                Ok(snapshot) => snapshot,
                Err(_) => {
                    return wait(WaitReason::SaveMalformed);
                },
            };
            let reason = if !state.is_armed() {
                WaitReason::Disarmed
            } else if !snapshot.is_initialized() {
                WaitReason::TimersUnset
            } else if state.has_processed(&world) {
                WaitReason::AlreadyJudged
            } else {
                WaitReason::WithinLimits
            };
            let judged = match reason {
                WaitReason::WithinLimits => Some(snapshot),
                _ => None,
            };
            match evaluate(&snapshot, &world, config, state) {
                Decision::Reset => WatchStep { action: WatchAction::PressResetKey, judged },
                Decision::NoAction => WatchStep { action: WatchAction::Wait(reason), judged },
            }
        },
    }
}

/// A step that judges no world leaves the state as it was. So does every
/// step that fails: a folder that cannot be listed, a save that is missing,
/// does not inflate or does not decode.
pub proof fn step_without_verdict_keeps_state(state: EngineView, event: WatchEvent)
    requires
        judged_by(state, event) is None,
    ensures
        state_following(state, event) == state,
{
}

/// A save that fails to load ends the round with a wait and changes nothing.
pub proof fn failed_load_changes_nothing(
    state: EngineView,
    limits: Thresholds,
    world: WorldIdentity,
    contents: Option<Vec<u8>>,
)
    requires
        loaded(contents) is Err,
    ensures
        action_for(state, limits, WatchEvent::SaveRead { world, contents }) is Wait,
        judged_by(state, WatchEvent::SaveRead { world, contents }) is None,
        state_following(state, WatchEvent::SaveRead { world, contents }) == state,
{
}

/// Once a step has judged a world, a save of that world that is handed in
/// again, as happens when one change is reported twice, is answered with a
/// wait and changes nothing, whatever the save holds by then.
pub proof fn repeated_notification_is_harmless(
    state: EngineView,
    limits: Thresholds,
    world: WorldIdentity,
    contents: Option<Vec<u8>>,
    again: Option<Vec<u8>>,
)
    requires
        judged_by(state, WatchEvent::SaveRead { world, contents }) is Some,
    ensures
        ({
            let settled = state_following(state, WatchEvent::SaveRead { world, contents });
            let repeated = WatchEvent::SaveRead { world, contents: again };
            &&& settled.last_processed_world == Some(world@)
            &&& action_for(settled, limits, repeated) is Wait
            &&& judged_by(settled, repeated) is None
            &&& state_following(settled, repeated) == settled
        }),
{
}

/// No step moves the armed flag.
pub proof fn step_keeps_armed(state: EngineView, event: WatchEvent)
    ensures
        state_following(state, event).armed == state.armed,
{
}

/// The reset key is pressed only for a save that loads, while resets are
/// switched on, for a world that was not the one judged last, whose timers
/// are both set and break a limit; and that world is then remembered.
pub proof fn reset_only_for_a_new_world(state: EngineView, limits: Thresholds, event: WatchEvent)
    requires
        action_for(state, limits, event) is PressResetKey,
    ensures
        event is SaveRead,
        state.armed,
        loaded(event->contents) matches Ok(snapshot) && snapshot.initialized() && triggers_of(
            snapshot,
            limits,
        ).any() && judged_by(state, event) == Some(snapshot),
        state.last_processed_world != Some(event->world@),
        state_following(state, event).last_processed_world == Some(event->world@),
{
}

} // verus!
