use vstd::prelude::*;
use crate::cycle::CycleOutcome;
use crate::error::UpdateError;

verus! {

/// Which of the two on-disk executables the running process is.
#[derive(Clone, Copy, Debug, PartialEq, Eq, Structural)]
pub enum ExecutableIdentity {
    /// The long-lived, user-facing executable.
    Primary,
    /// The disposable clone that overwrites the primary.
    Temp,
}

/// How long a cleanup run waits before it deletes the temp executable, so
/// that the process that ran from it can leave. A heuristic, no guarantee.
pub const GRACE_SECONDS: u64 = 1;

/// The identity that a binary's file name stands for, if any.
pub open spec fn identity_of(file_name: Seq<char>) -> Option<ExecutableIdentity> {
    if file_name == "updater.exe"@ {
        Some(ExecutableIdentity::Primary)
    } else if file_name == "updater-temp.exe"@ {
        Some(ExecutableIdentity::Temp)
    } else {
        None
    }
}

/// Whether two texts are the same.
pub fn same_text(a: &str, b: &str) -> (r: bool)
    ensures
        r == (a@ == b@),
{
    let left = a.to_owned();
    let right = b.to_owned();
    left == right
}

impl ExecutableIdentity {
    /// The file name of the executable with this identity. The two names
    /// differ, so each gives its identity back.
    pub fn file_name(&self) -> (r: &'static str)
        ensures
            r@ == match *self {
                ExecutableIdentity::Primary => "updater.exe"@,
                ExecutableIdentity::Temp => "updater-temp.exe"@,
            },
            identity_of(r@) == Some(*self),
    {
        proof {
            reveal_strlit("updater.exe");
            reveal_strlit("updater-temp.exe");
            assert("updater.exe"@.len() != "updater-temp.exe"@.len());
        }
        match self {
            ExecutableIdentity::Primary => "updater.exe",
            ExecutableIdentity::Temp => "updater-temp.exe",
        }
    }

    /// Derives the identity from the running binary's file name.
    pub fn from_file_name(file_name: &str) -> (r: Option<ExecutableIdentity>)
        ensures
            r == identity_of(file_name@),
    {
        if same_text(file_name, "updater.exe") {
            Some(ExecutableIdentity::Primary)
        } else if same_text(file_name, "updater-temp.exe") {
            Some(ExecutableIdentity::Temp)
        } else {
            None
        }
    }
}

/// Where a process stands in the hand-off between the two identities.
#[derive(Clone, Copy, Debug, PartialEq, Eq, Structural)]
pub enum SwapState {
    /// Nothing is known yet.
    Start,
    /// Primary: asked which of the two executables exist.
    Probing,
    /// Primary, cleanup run: sitting out the grace period.
    Waiting,
    /// Primary, cleanup run: deleting the temp executable.
    Removing,
    /// Primary, hand-off: copying itself to the temp executable.
    Copying,
    /// Primary, hand-off: launching the temp executable.
    SpawningTemp,
    /// Temp: running the update cycle.
    Updating,
    /// Temp: launching the primary executable again.
    SpawningPrimary,
    /// The process is to end with this exit code.
    Exited(i32),
}

/// What happened outside since the last action.
#[derive(Clone, Copy, Debug, PartialEq, Eq, Structural)]
pub enum SwapEvent {
    /// The process started, with the identity that its file name gave.
    Launched(Option<ExecutableIdentity>),
    /// Which of the two executables exist on disk.
    Files { primary_exists: bool, temp_exists: bool },
    /// The last action was carried out.
    Done,
    /// The last action failed.
    Failed,
}

/// What the process is to do next.
#[derive(Clone, Copy, Debug, PartialEq, Eq, Structural)]
pub enum SwapAction {
    /// Look which of the two executables exist.
    ProbeFiles,
    /// Wait for so many seconds.
    Sleep { seconds: u64 },
    /// Delete the temp executable.
    RemoveTemp,
    /// Copy the running executable to the temp executable's path.
    CopySelfToTemp,
    /// Launch the temp executable as a detached process.
    SpawnTemp,
    /// Run one update cycle.
    RunUpdateCycle,
    /// Launch the primary executable as a detached process.
    SpawnPrimary,
    /// End the process with `code`, reporting `error` if there is one.
    Exit { code: i32, error: Option<UpdateError> },
    /// The event answered nothing that was asked: go on waiting.
    Nothing,
}

/// Whether a run as primary is a cleanup run: both executables are there,
/// so the temp one is left over from a finished update.
pub open spec fn cleanup_due(primary_exists: bool, temp_exists: bool) -> bool {
    primary_exists && temp_exists
}

/// Ending the process: status 0, with the error to report if the last
/// action failed.
pub open spec fn leave(failed: bool) -> (SwapState, SwapAction) {
    (
        SwapState::Exited(0),
        SwapAction::Exit { code: 0, error: if failed { Some(UpdateError::Io) } else { None } },
    )
}

/// The hand-off protocol: the next state and action for each state and
/// event. An event that does not answer the state's action changes nothing.
pub open spec fn swap_transition(state: SwapState, event: SwapEvent) -> (SwapState, SwapAction) {
    match (state, event) {
        (SwapState::Start, SwapEvent::Launched(Some(ExecutableIdentity::Primary))) => (
            SwapState::Probing,
            SwapAction::ProbeFiles,
        ),
        (SwapState::Start, SwapEvent::Launched(Some(ExecutableIdentity::Temp))) => (
            SwapState::Updating,
            SwapAction::RunUpdateCycle,
        ),
        (SwapState::Start, SwapEvent::Launched(None)) => (
            SwapState::Exited(1),
            SwapAction::Exit { code: 1, error: Some(UpdateError::UnrecognizedIdentity) },
        ),
        (SwapState::Probing, SwapEvent::Files { primary_exists, temp_exists }) => {
            if cleanup_due(primary_exists, temp_exists) {
                (SwapState::Waiting, SwapAction::Sleep { seconds: GRACE_SECONDS })
            } else {
                (SwapState::Copying, SwapAction::CopySelfToTemp)
            }
        },
        (SwapState::Waiting, SwapEvent::Done) => (SwapState::Removing, SwapAction::RemoveTemp),
        (SwapState::Removing, SwapEvent::Done) => leave(false),
        (SwapState::Removing, SwapEvent::Failed) => leave(true),
        (SwapState::Copying, SwapEvent::Done) => (SwapState::SpawningTemp, SwapAction::SpawnTemp),
        (SwapState::Copying, SwapEvent::Failed) => leave(true),
        (SwapState::SpawningTemp, SwapEvent::Done) => leave(false),
        (SwapState::SpawningTemp, SwapEvent::Failed) => leave(true),
        (SwapState::Updating, SwapEvent::Done) => (
            SwapState::SpawningPrimary,
            SwapAction::SpawnPrimary,
        ),
        (SwapState::Updating, SwapEvent::Failed) => (
            SwapState::SpawningPrimary,
            SwapAction::SpawnPrimary,
        ),
        (SwapState::SpawningPrimary, SwapEvent::Done) => leave(false),
        (SwapState::SpawningPrimary, SwapEvent::Failed) => leave(true),
        _ => (state, SwapAction::Nothing),
    }
}

/// Ends the process with status 0.
fn leave_now(failed: bool) -> (r: (SwapState, SwapAction))
    ensures
        r == leave(failed),
{
    let error = if failed { Some(UpdateError::Io) } else { None };
    (SwapState::Exited(0), SwapAction::Exit { code: 0, error })
}

/// One step of the hand-off: takes the state and what happened, gives the
/// next state and what to do.
pub fn swap_step(state: SwapState, event: SwapEvent) -> (r: (SwapState, SwapAction))
    ensures
        r == swap_transition(state, event),
{
    match state {
        SwapState::Start => match event {
            SwapEvent::Launched(Some(ExecutableIdentity::Primary)) => (
                SwapState::Probing,
                SwapAction::ProbeFiles,
            ),
            SwapEvent::Launched(Some(ExecutableIdentity::Temp)) => (
                SwapState::Updating,
                SwapAction::RunUpdateCycle,
            ),
            SwapEvent::Launched(None) => (
                SwapState::Exited(1),
                SwapAction::Exit { code: 1, error: Some(UpdateError::UnrecognizedIdentity) },
            ),
            _ => (state, SwapAction::Nothing),
        },
        SwapState::Probing => match event {
            SwapEvent::Files { primary_exists, temp_exists } => {
                if primary_exists && temp_exists {
                    (SwapState::Waiting, SwapAction::Sleep { seconds: GRACE_SECONDS })
                } else {
                    (SwapState::Copying, SwapAction::CopySelfToTemp)
                }
            },
            _ => (state, SwapAction::Nothing),
        },
        SwapState::Waiting => match event {
            SwapEvent::Done => (SwapState::Removing, SwapAction::RemoveTemp),
            _ => (state, SwapAction::Nothing),
        },
        SwapState::Copying => match event {
            SwapEvent::Done => (SwapState::SpawningTemp, SwapAction::SpawnTemp),
            SwapEvent::Failed => leave_now(true),
            _ => (state, SwapAction::Nothing),
        },
        SwapState::Updating => match event {
            SwapEvent::Done => (SwapState::SpawningPrimary, SwapAction::SpawnPrimary),
            SwapEvent::Failed => (SwapState::SpawningPrimary, SwapAction::SpawnPrimary),
            _ => (state, SwapAction::Nothing),
        },
        SwapState::Removing | SwapState::SpawningTemp | SwapState::SpawningPrimary => match event {
            SwapEvent::Done => leave_now(false),
            SwapEvent::Failed => leave_now(true),
            _ => (state, SwapAction::Nothing),
        },
        SwapState::Exited(_) => (state, SwapAction::Nothing),
    }
}

/// The event that the end of an update cycle makes for the hand-off.
pub open spec fn event_of_outcome(outcome: CycleOutcome) -> SwapEvent {
    if outcome is Failed {
        SwapEvent::Failed
    } else {
        SwapEvent::Done
    }
}

/// Tells the hand-off how the update cycle ended. Whatever the outcome,
/// the hand-off's answer to it is to launch the primary executable.
pub fn cycle_ended(outcome: CycleOutcome) -> (r: SwapEvent)
    ensures
        r == event_of_outcome(outcome),
        swap_transition(SwapState::Updating, r) == (SwapState::SpawningPrimary, SwapAction::SpawnPrimary),
{
    match outcome {
        CycleOutcome::Failed(_) => SwapEvent::Failed,
        _ => SwapEvent::Done,
    }
}

/// The actions that a run issues: those of `swap_transition`, from `state`
/// on, for the events in their order.
pub open spec fn swap_actions(state: SwapState, events: Seq<SwapEvent>) -> Seq<SwapAction>
    decreases events.len(),
{
    if events.len() == 0 {
        Seq::empty()
    } else {
        let (next, action) = swap_transition(state, events[0]);
        seq![action] + swap_actions(next, events.skip(1))
    }
}

/// The state that a run ends in.
pub open spec fn swap_end(state: SwapState, events: Seq<SwapEvent>) -> SwapState
    decreases events.len(),
{
    if events.len() == 0 {
        state
    } else {
        swap_end(swap_transition(state, events[0]).0, events.skip(1))
    }
}

/// Whether a state belongs to a run as primary in which no cleanup is due.
pub open spec fn past_cleanup(state: SwapState) -> bool {
    state is Copying || state is SpawningTemp || state is Exited
}

/// From a state past the cleanup decision nothing is ever deleted and
/// nothing waited for, whatever happens.
pub proof fn lemma_nothing_deleted_past_cleanup(state: SwapState, events: Seq<SwapEvent>)
    requires
        past_cleanup(state),
    ensures
        forall|i: int| 0 <= i < swap_actions(state, events).len() ==> {
            let action = #[trigger] swap_actions(state, events)[i];
            !(action is RemoveTemp) && !(action is Sleep) && !(action is RunUpdateCycle)
        },
        swap_actions(state, events).len() == events.len(),
    decreases events.len(),
{
    if events.len() > 0 {
        lemma_nothing_deleted_past_cleanup(swap_transition(state, events[0]).0, events.skip(1));
    }
}

/// A run as primary that finds no temp executable deletes no file and waits
/// for nothing: the cleanup is skipped, and the run goes on to the hand-off.
/// If it ends, it ends with status 0.
pub proof fn lemma_cleanup_without_temp_is_skipped(primary_exists: bool, events: Seq<SwapEvent>)
    ensures
        swap_transition(
            SwapState::Probing,
            SwapEvent::Files { primary_exists, temp_exists: false },
        ) == (SwapState::Copying, SwapAction::CopySelfToTemp),
        forall|i: int| 0 <= i < swap_actions(SwapState::Copying, events).len() ==> {
            let action = #[trigger] swap_actions(SwapState::Copying, events)[i];
            !(action is RemoveTemp) && !(action is Sleep)
        },
        swap_end(SwapState::Copying, events) matches SwapState::Exited(code) ==> code == 0,
{
    lemma_nothing_deleted_past_cleanup(SwapState::Copying, events);
    lemma_recognised_run_ends_with_zero(SwapState::Copying, events);
}

/// Whether a state can only end with status 0.
pub open spec fn ends_with_zero(state: SwapState) -> bool {
    match state {
        SwapState::Start => false,
        SwapState::Exited(code) => code == 0,
        _ => true,
    }
}

/// Once the identity is recognised, a run that ends does so with status 0.
pub proof fn lemma_recognised_run_ends_with_zero(state: SwapState, events: Seq<SwapEvent>)
    requires
        ends_with_zero(state),
    ensures
        ends_with_zero(swap_end(state, events)),
    decreases events.len(),
{
    if events.len() > 0 {
        lemma_recognised_run_ends_with_zero(swap_transition(state, events[0]).0, events.skip(1));
    }
}

/// The process ends with a status other than 0 only where its name is
/// neither identity's.
pub proof fn lemma_exit_codes(state: SwapState, event: SwapEvent)
    requires
        !(state is Exited),
    ensures
        swap_transition(state, event).1 matches SwapAction::Exit { code, error } ==> {
            &&& swap_transition(state, event).0 == SwapState::Exited(code)
            &&& (code == 0 || code == 1)
            &&& code == 1 <==> (state is Start && event == SwapEvent::Launched(None))
            &&& code == 1 <==> error == Some(UpdateError::UnrecognizedIdentity)
        },
{
}

/// A run as temp starts exactly one update cycle, launches the primary
/// executable whether the cycle succeeded or failed, and then ends with
/// status 0 whether the launch succeeded or failed.
pub proof fn lemma_temp_always_relaunches_primary(cycle: SwapEvent, launch: SwapEvent)
    requires
        cycle is Done || cycle is Failed,
        launch is Done || launch is Failed,
    ensures
        swap_actions(
            SwapState::Start,
            seq![SwapEvent::Launched(Some(ExecutableIdentity::Temp)), cycle, launch],
        ) == seq![
            SwapAction::RunUpdateCycle,
            SwapAction::SpawnPrimary,
            SwapAction::Exit { code: 0, error: if launch is Failed { Some(UpdateError::Io) } else { None } },
        ],
{
    let events = seq![SwapEvent::Launched(Some(ExecutableIdentity::Temp)), cycle, launch];
    let second = events.skip(1);
    let third = second.skip(1);
    let rest = third.skip(1);
    assert(rest.len() == 0);
    assert(swap_actions(SwapState::Exited(0), rest) =~= Seq::<SwapAction>::empty());
    assert(third[0] == launch);
    assert(second[0] == cycle);
    let last = swap_transition(SwapState::SpawningPrimary, launch).1;
    assert(swap_actions(SwapState::SpawningPrimary, third) =~= seq![last]);
    assert(swap_actions(SwapState::Updating, second) =~= seq![SwapAction::SpawnPrimary, last]);
    assert(swap_actions(SwapState::Start, events) =~= seq![
        SwapAction::RunUpdateCycle,
        SwapAction::SpawnPrimary,
        last,
    ]);
}

/// Whether a state belongs to a cleanup run.
pub open spec fn in_cleanup(state: SwapState) -> bool {
    state is Waiting || state is Removing || state == SwapState::Exited(0)
}

/// A cleanup run copies nothing, launches no process and starts no update
/// cycle, and it ends with status 0: also where the temp executable is gone
/// by the time it is to be deleted, so that the deletion fails.
pub proof fn lemma_cleanup_spawns_nothing(state: SwapState, events: Seq<SwapEvent>)
    requires
        in_cleanup(state),
    ensures
        forall|i: int| 0 <= i < swap_actions(state, events).len() ==> {
            let action = #[trigger] swap_actions(state, events)[i];
            !(action is SpawnTemp) && !(action is SpawnPrimary) && !(action is CopySelfToTemp)
                && !(action is RunUpdateCycle)
        },
        in_cleanup(swap_end(state, events)),
    decreases events.len(),
{
    if events.len() > 0 {
        lemma_cleanup_spawns_nothing(swap_transition(state, events[0]).0, events.skip(1));
    }
}

/// Past its start no process starts an update cycle, whatever happens.
pub proof fn lemma_no_cycle_past_start(state: SwapState, events: Seq<SwapEvent>)
    requires
        !(state is Start),
    ensures
        forall|i: int| 0 <= i < swap_actions(state, events).len() ==> !(
            #[trigger] swap_actions(state, events)[i] is RunUpdateCycle),
        !(swap_end(state, events) is Start),
    decreases events.len(),
{
    if events.len() > 0 {
        lemma_no_cycle_past_start(swap_transition(state, events[0]).0, events.skip(1));
    }
}

/// An update cycle is started only at the start of a process, and no process
/// comes back to its start: so no run starts a second cycle.
pub proof fn lemma_one_cycle_per_run(state: SwapState, event: SwapEvent)
    ensures
        swap_transition(state, event).1 is RunUpdateCycle ==> state is Start
            && event == SwapEvent::Launched(Some(ExecutableIdentity::Temp)),
        swap_transition(state, event).0 is Start ==> state is Start
            && swap_transition(state, event).1 is Nothing,
        state is Updating && (event is Done || event is Failed) ==> swap_transition(state, event)
            == (SwapState::SpawningPrimary, SwapAction::SpawnPrimary),
{
}

} // verus!
