//! The threshold trigger state machine and the shared control state it
//! reads and updates once per captured audio block.

use vstd::prelude::*;

verus! {

/// Trigger mode. `Momentary` emits one discrete click per qualifying block;
/// `Sustained` presses on the rising edge across the threshold and releases
/// on the falling edge, latched between blocks.
#[derive(Clone, Copy, PartialEq, Eq, Structural, Debug)]
pub enum Mode {
    Momentary,
    Sustained,
}

/// Pointer action decided for one audio block.
#[derive(Clone, Copy, PartialEq, Eq, Structural, Debug)]
pub enum Action {
    NoAction,
    Click,
    Press,
    Release,
}

/// Per-block telemetry: the estimated volume and whether it reached the
/// configured threshold. Copied by value to the relay; never retained.
#[derive(Clone, Copy, PartialEq, Eq, Structural, Debug)]
pub struct Payload {
    pub volume: i32,
    pub met: bool,
}

/// Shared control state: the live configuration written by the control
/// surface, and the latch owned by the per-block trigger decision.
///
/// `held` records that a sustained press is latched; it is meaningful only
/// in `Sustained` mode and is cleared whenever the mode leaves `Sustained`
/// or a trigger decision runs while disabled.
#[derive(Clone, Copy, PartialEq, Eq, Structural, Debug)]
pub struct State {
    pub enabled: bool,
    pub threshold: i32,
    pub mode: Mode,
    pub held: bool,
}

/// Well-formed control state: the threshold is never negative, and a latched
/// press can only exist in `Sustained` mode.
pub open spec fn state_wf(s: State) -> bool {
    &&& s.threshold >= 0
    &&& s.held ==> s.mode == Mode::Sustained
}

/// A volume at or above the configured threshold counts as met; the boundary
/// is inclusive.
pub open spec fn spec_threshold_met(volume: int, threshold: int) -> bool {
    volume >= threshold
}

/// Whether a block's volume reaches the threshold.
pub fn threshold_met(volume: i32, threshold: i32) -> (met: bool)
    ensures
        met == spec_threshold_met(volume as int, threshold as int),
{
    volume >= threshold
}

/// The action one trigger decision emits, given the control state and
/// whether the block met the threshold. Precedence: while disabled every
/// block decides no action; sustained mode is edge-triggered through the latch;
/// momentary mode clicks on every qualifying block.
pub open spec fn spec_decide(s: State, met: bool) -> Action {
    if !s.enabled {
        Action::NoAction
    } else if s.mode == Mode::Sustained {
        if met && !s.held {
            Action::Press
        } else if !met && s.held {
            Action::Release
        } else {
            Action::NoAction
        }
    } else {
        if met {
            Action::Click
        } else {
            Action::NoAction
        }
    }
}

/// The control state after one trigger decision. Only the latch moves: a
/// decision made while disabled forces it off, and in sustained mode it
/// follows the press and release edges. Configuration fields never change.
pub open spec fn spec_next(s: State, met: bool) -> State {
    if !s.enabled {
        State { held: false, ..s }
    } else if s.mode == Mode::Sustained {
        State { held: met, ..s }
    } else {
        s
    }
}

/// Model of the control surface command that flips the master switch.
pub open spec fn spec_set_enabled(s: State, enable: bool) -> State {
    State { enabled: enable, ..s }
}

/// Model of the control surface command that sets the trigger level.
pub open spec fn spec_set_threshold(s: State, threshold: i32) -> State {
    State { threshold: threshold, ..s }
}

/// Model of the control surface command that picks the mode: sustained
/// ("one click") when the flag is set, momentary otherwise. Leaving
/// `Sustained` drops any latched press.
pub open spec fn spec_set_one_click(s: State, one_click: bool) -> State {
    if one_click {
        State { mode: Mode::Sustained, ..s }
    } else {
        State { mode: Mode::Momentary, held: false, ..s }
    }
}

impl State {
    /// Startup defaults: disabled, threshold 30, momentary mode, no latch.
    pub fn new() -> (s: State)
        ensures
            s == (State { enabled: false, threshold: 30, mode: Mode::Momentary, held: false }),
            state_wf(s),
    {
        State { enabled: false, threshold: 30, mode: Mode::Momentary, held: false }
    }

    /// Flip the master switch. A pending latch is left for the next
    /// trigger decision to clear, which emits no release.
    pub fn set_enabled(&mut self, enable: bool)
        ensures
            *final(self) == spec_set_enabled(*old(self), enable),
            state_wf(*old(self)) ==> state_wf(*final(self)),
    {
        self.enabled = enable;
    }

    /// Set the trigger level. The threshold is never negative.
    pub fn set_threshold(&mut self, threshold: i32)
        requires
            threshold >= 0,
        ensures
            *final(self) == spec_set_threshold(*old(self), threshold),
            state_wf(*old(self)) ==> state_wf(*final(self)),
    {
        self.threshold = threshold;
    }

    /// Choose sustained ("one click") or momentary mode. Leaving `Sustained`
    /// drops any latched press, so no stale latch survives a mode change.
    pub fn set_one_click(&mut self, one_click: bool)
        ensures
            *final(self) == spec_set_one_click(*old(self), one_click),
            state_wf(*old(self)) ==> state_wf(*final(self)),
    {
        if one_click {
            self.mode = Mode::Sustained;
        } else {
            self.mode = Mode::Momentary;
            self.held = false;
        }
    }
}

/// One trigger decision: emit the action for this block and move the latch.
/// The configuration fields of the state are untouched.
pub fn decide(state: &mut State, met: bool) -> (action: Action)
    ensures
        action == spec_decide(*old(state), met),
        *final(state) == spec_next(*old(state), met),
        state_wf(*old(state)) ==> state_wf(*final(state)),
{
    if !state.enabled {
        state.held = false;
        Action::NoAction
    } else if state.mode == Mode::Sustained {
        if met && !state.held {
            state.held = true;
            Action::Press
        } else if !met && state.held {
            state.held = false;
            Action::Release
        } else {
            Action::NoAction
        }
    } else {
        if met {
            Action::Click
        } else {
            Action::NoAction
        }
    }
}

/// One block through the core pipeline: compare the block's volume against
/// the current threshold, decide the pointer action, move the latch, and
/// build the telemetry payload. The payload reports the threshold comparison
/// whether or not the trigger is enabled: telemetry is independent of
/// the master switch.
pub fn process_block(state: &mut State, volume: i32) -> (r: (Action, Payload))
    ensures
        r.1 == (Payload {
            volume,
            met: spec_threshold_met(volume as int, old(state).threshold as int),
        }),
        r.0 == spec_decide(
            *old(state),
            spec_threshold_met(volume as int, old(state).threshold as int),
        ),
        *final(state) == spec_next(
            *old(state),
            spec_threshold_met(volume as int, old(state).threshold as int),
        ),
        state_wf(*old(state)) ==> state_wf(*final(state)),
{
    let met = threshold_met(volume, state.threshold);
    let action = decide(state, met);
    (action, Payload { volume, met })
}

/// A trigger decision preserves well-formedness of the control state: the
/// latch only ever stays latched in sustained mode.
pub proof fn lemma_next_preserves_wf(s: State, met: bool)
    requires
        state_wf(s),
    ensures
        state_wf(spec_next(s, met)),
{
}

/// Enabled, in sustained mode, with no pending latch, the block
/// sequence met, met, quiet, met decides press, nothing, release, press:
/// the latch makes sustained mode edge-triggered.
pub proof fn lemma_sustained_edge_sequence(s0: State)
    requires
        s0.enabled,
        s0.mode == Mode::Sustained,
        !s0.held,
    ensures
        ({
            let s1 = spec_next(s0, true);
            let s2 = spec_next(s1, true);
            let s3 = spec_next(s2, false);
            &&& spec_decide(s0, true) == Action::Press
            &&& spec_decide(s1, true) == Action::NoAction
            &&& spec_decide(s2, false) == Action::Release
            &&& spec_decide(s3, true) == Action::Press
        }),
{
}

/// Enabled, in momentary mode, every block that meets the
/// threshold decides a click, and the latch stays off.
pub proof fn lemma_momentary_clicks(s: State, met: bool)
    requires
        s.enabled,
        s.mode == Mode::Momentary,
        state_wf(s),
    ensures
        met ==> spec_decide(s, met) == Action::Click,
        !met ==> spec_decide(s, met) == Action::NoAction,
        !spec_next(s, met).held,
{
}

/// Disabling is a hard reset: while disabled, the next decision clears
/// any pending latch and decides no action at all — in particular it never
/// emits a release, whatever the block's volume did.
pub proof fn lemma_disabled_resets_latch(s: State, met: bool)
    requires
        !s.enabled,
    ensures
        spec_decide(s, met) == Action::NoAction,
        !spec_next(s, met).held,
{
}

/// Round trip through the control surface: after setting the threshold to
/// `v`, a block whose volume is exactly `v` meets the threshold — the
/// boundary is inclusive.
pub proof fn lemma_threshold_round_trip(s: State, v: i32)
    ensures
        spec_threshold_met(v as int, spec_set_threshold(s, v).threshold as int),
{
}

} // verus!
