//! The attach/detach state machine driven by the background watcher loop.
//!
//! The watcher cycles Searching → Attached → Searching for the lifetime of
//! the owning scanner.  The loop itself (process enumeration, sleeping out
//! the poll interval, the blocking wait on process exit) lives outside the
//! library; the decisions live here, in [`watcher_step`]: a pure function
//! from the current shared state and an observed input to the next state,
//! the lifecycle event to emit, and what the loop should do next.  The
//! watcher is the sole writer of the shared state; the published state
//! already has `attached == false` in the very step that reports an exit,
//! so a reader never observes a disconnect event before the flag drops.

use vstd::prelude::*;

use crate::game_scanner::EventCode;
use crate::game_scanner::ScanEvent;

verus! {

/// The shared scan state: written only by the watcher, read by every
/// foreground query.  When `attached` is false the address fields are
/// stale leftovers of the previous cycle and mean nothing.
#[derive(Clone, Copy, Debug, PartialEq, Eq, Structural)]
pub struct ScanState {
    pub attached: bool,
    pub process_id: u32,
    pub base_address: u64,
    pub wallet_address: u64,
}

impl ScanState {
    /// The initial state: detached, nothing resolved yet.
    pub fn new() -> (s: ScanState)
        ensures
            !s.attached,
            s.process_id == 0,
            s.base_address == 0,
            s.wallet_address == 0,
    {
        ScanState { attached: false, process_id: 0, base_address: 0, wallet_address: 0 }
    }
}

/// What one turn of the watcher loop observed.
#[derive(Clone, Copy, Debug, PartialEq, Eq, Structural)]
pub enum WatcherInput {
    /// The locator matched the target process and the wallet chain
    /// resolved: its id, its base module address, and the resolved wallet
    /// base address.
    Found { process_id: u32, base_address: u64, wallet_address: u64 },
    /// No matching process is running.
    NotFound,
    /// The blocking wait observed the attached process exit.
    Exited,
}

/// What the watcher loop should do after a step.
#[derive(Clone, Copy, Debug, PartialEq, Eq, Structural)]
pub enum WatcherDirective {
    /// Sleep out the rest of the poll interval, then enumerate processes
    /// again.
    Poll,
    /// Block on the OS wait-for-exit primitive, with no timeout, until the
    /// attached process terminates.
    AwaitExit,
}

/// The outcome of one watcher step.
pub struct WatcherStep {
    pub state: ScanState,
    pub event: Option<ScanEvent>,
    pub directive: WatcherDirective,
}

/// The state after one step: an input only acts on the phase it belongs
/// to — a find attaches only while detached, an exit detaches only while
/// attached, everything else leaves the state alone.
pub open spec fn spec_next_state(state: ScanState, input: WatcherInput) -> ScanState {
    match input {
        WatcherInput::Found { process_id, base_address, wallet_address } => if !state.attached {
            ScanState { attached: true, process_id, base_address, wallet_address }
        } else {
            state
        },
        WatcherInput::NotFound => state,
        WatcherInput::Exited => if state.attached {
            ScanState {
                attached: false,
                process_id: state.process_id,
                base_address: state.base_address,
                wallet_address: state.wallet_address,
            }
        } else {
            state
        },
    }
}

/// Whether a step emits `GameConnected`: a find while detached.
pub open spec fn spec_emits_connected(state: ScanState, input: WatcherInput) -> bool {
    !state.attached && input is Found
}

/// Whether a step emits `GameDisconnected`: an exit while attached.
pub open spec fn spec_emits_disconnected(state: ScanState, input: WatcherInput) -> bool {
    state.attached && input is Exited
}

/// One step of the watcher state machine.
pub fn watcher_step(state: &ScanState, input: &WatcherInput) -> (step: WatcherStep)
    ensures
        step.state == spec_next_state(*state, *input),
        spec_emits_connected(*state, *input) ==> (step.event matches Some(e)
            && e.code == EventCode::GameConnected
            && e.description@ == "Game client found."@),
        spec_emits_disconnected(*state, *input) ==> (step.event matches Some(e)
            && e.code == EventCode::GameDisconnected
            && e.description@ == "Game client lost."@),
        !spec_emits_connected(*state, *input) && !spec_emits_disconnected(*state, *input)
            ==> step.event is None,
        (step.directive is AwaitExit) <==> spec_next_state(*state, *input).attached,
{
    match input {
        WatcherInput::Found { process_id, base_address, wallet_address } => {
            if !state.attached {
                WatcherStep {
                    state: ScanState {
                        attached: true,
                        process_id: *process_id,
                        base_address: *base_address,
                        wallet_address: *wallet_address,
                    },
                    event: Some(ScanEvent::game_connected()),
                    directive: WatcherDirective::AwaitExit,
                }
            } else {
                WatcherStep { state: *state, event: None, directive: WatcherDirective::AwaitExit }
            }
        },
        WatcherInput::NotFound => {
            WatcherStep {
                state: *state,
                event: None,
                directive: if state.attached {
                    WatcherDirective::AwaitExit
                } else {
                    WatcherDirective::Poll
                },
            }
        },
        WatcherInput::Exited => {
            if state.attached {
                WatcherStep {
                    state: ScanState {
                        attached: false,
                        process_id: state.process_id,
                        base_address: state.base_address,
                        wallet_address: state.wallet_address,
                    },
                    event: Some(ScanEvent::game_disconnected()),
                    directive: WatcherDirective::Poll,
                }
            } else {
                WatcherStep { state: *state, event: None, directive: WatcherDirective::Poll }
            }
        },
    }
}

/// The step that observes a process exit publishes a detached state in
/// that same step: any query that reads the published state afterwards is
/// already detached, and by the scanner's contract must fail with
/// `NotAttached` before any read is attempted.
pub proof fn lemma_detached_before_next_query(state: ScanState)
    requires
        state.attached,
    ensures
        !spec_next_state(state, WatcherInput::Exited).attached,
        spec_emits_disconnected(state, WatcherInput::Exited),
{
}

/// How many `GameDisconnected` events a run emits.
pub open spec fn count_disconnect_events(state: ScanState, inputs: Seq<WatcherInput>) -> nat
    decreases inputs.len(),
{
    if inputs.len() == 0 {
        0
    } else {
        (if spec_emits_disconnected(state, inputs[0]) {
            1nat
        } else {
            0nat
        }) + count_disconnect_events(spec_next_state(state, inputs[0]), inputs.drop_first())
    }
}

/// How many times a run drops `attached` from true to false.
pub open spec fn count_detach_transitions(state: ScanState, inputs: Seq<WatcherInput>) -> nat
    decreases inputs.len(),
{
    if inputs.len() == 0 {
        0
    } else {
        (if state.attached && !spec_next_state(state, inputs[0]).attached {
            1nat
        } else {
            0nat
        }) + count_detach_transitions(spec_next_state(state, inputs[0]), inputs.drop_first())
    }
}

/// How many `GameConnected` events a run emits.
pub open spec fn count_connect_events(state: ScanState, inputs: Seq<WatcherInput>) -> nat
    decreases inputs.len(),
{
    if inputs.len() == 0 {
        0
    } else {
        (if spec_emits_connected(state, inputs[0]) {
            1nat
        } else {
            0nat
        }) + count_connect_events(spec_next_state(state, inputs[0]), inputs.drop_first())
    }
}

/// How many times a run raises `attached` from false to true.
pub open spec fn count_attach_transitions(state: ScanState, inputs: Seq<WatcherInput>) -> nat
    decreases inputs.len(),
{
    if inputs.len() == 0 {
        0
    } else {
        (if !state.attached && spec_next_state(state, inputs[0]).attached {
            1nat
        } else {
            0nat
        }) + count_attach_transitions(spec_next_state(state, inputs[0]), inputs.drop_first())
    }
}

/// Across any run of the machine, exactly one `GameDisconnected` event
/// fires per true-to-false transition of `attached`, and exactly one
/// `GameConnected` event per false-to-true transition: no duplicates and
/// no missed transitions, however many attach/detach cycles the run holds.
pub proof fn lemma_one_event_per_transition(state: ScanState, inputs: Seq<WatcherInput>)
    ensures
        count_disconnect_events(state, inputs) == count_detach_transitions(state, inputs),
        count_connect_events(state, inputs) == count_attach_transitions(state, inputs),
    decreases inputs.len(),
{
    if inputs.len() > 0 {
        lemma_one_event_per_transition(spec_next_state(state, inputs[0]), inputs.drop_first());
    }
}

} // verus!
