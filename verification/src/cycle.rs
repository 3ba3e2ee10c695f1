use vstd::prelude::*;
use crate::error::UpdateError;
use crate::feed::{feed_answer, get_latest_release, ReleaseInfo};
use crate::record::{read_version, recorded_version};
use crate::version::{is_newer, newer};

verus! {

/// How an update cycle ended.
#[derive(Clone, Copy, Debug, PartialEq, Eq, Structural)]
pub enum CycleOutcome {
    /// A newer release was downloaded, applied and recorded.
    Updated,
    /// The latest release is not newer than the installed one.
    UpToDate,
    /// A step failed; the installed version is as it was.
    Failed(UpdateError),
}

impl CycleOutcome {
    /// The line that the log gets for this outcome.
    pub fn log_line(&self) -> (r: &'static str)
        ensures
            r@ == match *self {
                CycleOutcome::Updated => "Update applied. Restarting application..."@,
                CycleOutcome::UpToDate => "No updates available."@,
                CycleOutcome::Failed(_) => "Update failed"@,
            },
    {
        match self {
            CycleOutcome::Updated => "Update applied. Restarting application...",
            CycleOutcome::UpToDate => "No updates available.",
            CycleOutcome::Failed(_) => "Update failed",
        }
    }
}

/// Where an update cycle stands.
#[derive(Debug, PartialEq, Eq)]
pub enum CycleState {
    /// Nothing was done yet.
    Idle,
    /// The marker file is being read.
    ReadingVersion,
    /// The feed is being asked; `installed` is what the marker recorded.
    FetchingRelease { installed: String },
    /// The artifact of the release `latest` is being downloaded.
    Downloading { installed: String, latest: String },
    /// The downloaded artifact is being unpacked over the installation.
    Applying { installed: String, latest: String },
    /// The marker file is being rewritten to record `latest`.
    WritingVersion { installed: String, latest: String },
    /// The cycle is over.
    Finished(CycleOutcome),
}

/// What happened outside since the last action.
#[derive(Debug, PartialEq, Eq)]
pub enum CycleEvent {
    /// The cycle is to begin.
    Begin,
    /// The marker file recorded this version.
    VersionRead(String),
    /// The feed gave this release as the latest.
    ReleaseFound(ReleaseInfo),
    /// The last action was carried out.
    Completed,
    /// The last action failed.
    Failed(UpdateError),
}

/// What is to be done next.
#[derive(Debug, PartialEq, Eq)]
pub enum CycleAction {
    /// Read the marker file.
    ReadVersion,
    /// Ask the feed for the latest release.
    FetchRelease,
    /// Download the artifact at `url` to a scratch file.
    Download { url: String },
    /// Unpack the scratch file over the installation directory.
    Apply,
    /// Rewrite the marker file so that it records `version`.
    WriteVersion { version: String },
    /// Log the outcome; the cycle is over.
    Finish(CycleOutcome),
    /// The event answered nothing that was asked: go on waiting.
    Nothing,
}

impl CycleState {
    /// A cycle downloads, applies and records a release only if it is newer
    /// than the installed one.
    pub open spec fn well_formed(self) -> bool {
        match self {
            CycleState::Downloading { installed, latest } => newer(latest@, installed@),
            CycleState::Applying { installed, latest } => newer(latest@, installed@),
            CycleState::WritingVersion { installed, latest } => newer(latest@, installed@),
            _ => true,
        }
    }
}

/// Ending the cycle with `outcome`.
pub open spec fn finish(outcome: CycleOutcome) -> (CycleState, CycleAction) {
    (CycleState::Finished(outcome), CycleAction::Finish(outcome))
}

/// The update cycle: the next state and action for each state and event.
/// Read the version, fetch the latest release, compare, and only for a newer
/// release download, apply and record it. Any failure ends the cycle. An
/// event that does not answer the state's action changes nothing.
pub open spec fn cycle_transition(state: CycleState, event: CycleEvent) -> (CycleState, CycleAction) {
    match (state, event) {
        (CycleState::Finished(_), _) => (state, CycleAction::Nothing),
        (CycleState::Idle, CycleEvent::Begin) => (CycleState::ReadingVersion, CycleAction::ReadVersion),
        (CycleState::Idle, _) => (state, CycleAction::Nothing),
        (_, CycleEvent::Failed(e)) => finish(CycleOutcome::Failed(e)),
        (CycleState::ReadingVersion, CycleEvent::VersionRead(installed)) => (
            CycleState::FetchingRelease { installed },
            CycleAction::FetchRelease,
        ),
        (CycleState::FetchingRelease { installed }, CycleEvent::ReleaseFound(release)) => {
            if newer(release.tag@, installed@) {
                (
                    CycleState::Downloading { installed, latest: release.tag },
                    CycleAction::Download { url: release.download_url },
                )
            } else {
                finish(CycleOutcome::UpToDate)
            }
        },
        (CycleState::Downloading { installed, latest }, CycleEvent::Completed) => (
            CycleState::Applying { installed, latest },
            CycleAction::Apply,
        ),
        (CycleState::Applying { installed, latest }, CycleEvent::Completed) => (
            CycleState::WritingVersion { installed, latest },
            CycleAction::WriteVersion { version: latest },
        ),
        (CycleState::WritingVersion { installed, latest }, CycleEvent::Completed) => finish(
            CycleOutcome::Updated,
        ),
        _ => (state, CycleAction::Nothing),
    }
}

/// Ends the cycle with `outcome`.
fn finish_with(outcome: CycleOutcome) -> (r: (CycleState, CycleAction))
    ensures
        r == finish(outcome),
{
    (CycleState::Finished(outcome), CycleAction::Finish(outcome))
}

/// One step of the update cycle: takes the state and what happened, gives
/// the next state and what to do.
pub fn cycle_step(state: CycleState, event: CycleEvent) -> (r: (CycleState, CycleAction))
    ensures
        r == cycle_transition(state, event),
        state.well_formed() ==> r.0.well_formed(),
{
    match state {
        CycleState::Finished(_) => (state, CycleAction::Nothing),
        CycleState::Idle => match event {
            CycleEvent::Begin => (CycleState::ReadingVersion, CycleAction::ReadVersion),
            _ => (state, CycleAction::Nothing),
        },
        CycleState::ReadingVersion => match event {
            CycleEvent::Failed(e) => finish_with(CycleOutcome::Failed(e)),
            CycleEvent::VersionRead(installed) => (
                CycleState::FetchingRelease { installed },
                CycleAction::FetchRelease,
            ),
            _ => (state, CycleAction::Nothing),
        },
        CycleState::FetchingRelease { installed } => match event {
            CycleEvent::Failed(e) => finish_with(CycleOutcome::Failed(e)),
            CycleEvent::ReleaseFound(release) => {
                if is_newer(release.tag.as_str(), installed.as_str()) {
                    (
                        CycleState::Downloading { installed, latest: release.tag },
                        CycleAction::Download { url: release.download_url },
                    )
                } else {
                    finish_with(CycleOutcome::UpToDate)
                }
            },
            _ => (CycleState::FetchingRelease { installed }, CycleAction::Nothing),
        },
        CycleState::Downloading { installed, latest } => match event {
            CycleEvent::Failed(e) => finish_with(CycleOutcome::Failed(e)),
            CycleEvent::Completed => (CycleState::Applying { installed, latest }, CycleAction::Apply),
            _ => (CycleState::Downloading { installed, latest }, CycleAction::Nothing),
        },
        CycleState::Applying { installed, latest } => match event {
            CycleEvent::Failed(e) => finish_with(CycleOutcome::Failed(e)),
            CycleEvent::Completed => {
                let version = latest.clone();
                (CycleState::WritingVersion { installed, latest }, CycleAction::WriteVersion { version })
            },
            _ => (CycleState::Applying { installed, latest }, CycleAction::Nothing),
        },
        CycleState::WritingVersion { installed, latest } => match event {
            CycleEvent::Failed(e) => finish_with(CycleOutcome::Failed(e)),
            CycleEvent::Completed => finish_with(CycleOutcome::Updated),
            _ => (CycleState::WritingVersion { installed, latest }, CycleAction::Nothing),
        },
    }
}

/// The event that the marker file's contents make: the version they record,
/// or a parse failure.
pub fn version_event(contents: &str) -> (r: CycleEvent)
    ensures
        match recorded_version(contents@) {
            Some(version) => r matches CycleEvent::VersionRead(found) && found@ == version,
            None => r == CycleEvent::Failed(UpdateError::Parse),
        },
{
    match read_version(contents) {
        Ok(version) => CycleEvent::VersionRead(version),
        Err(e) => CycleEvent::Failed(e),
    }
}

/// The event that the feed's answer makes: the release it gives, or the
/// failure that it amounts to.
pub fn release_event(success: bool, body: &str) -> (r: CycleEvent)
    ensures
        match feed_answer(success, body@) {
            Ok((tag, url)) => r matches CycleEvent::ReleaseFound(release) && release.tag@ == tag
                && release.download_url@ == url,
            Err(e) => r == CycleEvent::Failed(e),
        },
{
    match get_latest_release(success, body) {
        Ok(release) => CycleEvent::ReleaseFound(release),
        Err(e) => CycleEvent::Failed(e),
    }
}

/// Every step keeps the cycle well formed.
pub proof fn lemma_step_keeps_well_formed(state: CycleState, event: CycleEvent)
    requires
        state.well_formed(),
    ensures
        cycle_transition(state, event).0.well_formed(),
{
}

/// With a release that is newer than the installed version, and every step
/// succeeding, the cycle downloads from the release's URL, applies, records
/// exactly the release's tag, and ends as updated.
pub proof fn lemma_newer_release_is_recorded(installed: String, release: ReleaseInfo)
    requires
        newer(release.tag@, installed@),
    ensures
        ({
            let fetching = CycleState::FetchingRelease { installed };
            let downloading = CycleState::Downloading { installed, latest: release.tag };
            let applying = CycleState::Applying { installed, latest: release.tag };
            let writing = CycleState::WritingVersion { installed, latest: release.tag };
            &&& cycle_transition(CycleState::Idle, CycleEvent::Begin) == (
                CycleState::ReadingVersion,
                CycleAction::ReadVersion,
            )
            &&& cycle_transition(CycleState::ReadingVersion, CycleEvent::VersionRead(installed)) == (
                fetching,
                CycleAction::FetchRelease,
            )
            &&& cycle_transition(fetching, CycleEvent::ReleaseFound(release)) == (
                downloading,
                CycleAction::Download { url: release.download_url },
            )
            &&& cycle_transition(downloading, CycleEvent::Completed) == (applying, CycleAction::Apply)
            &&& cycle_transition(applying, CycleEvent::Completed) == (
                writing,
                CycleAction::WriteVersion { version: release.tag },
            )
            &&& cycle_transition(writing, CycleEvent::Completed) == finish(CycleOutcome::Updated)
        }),
{
}

/// With a release that is not newer than the installed version the cycle
/// ends at once as up to date: nothing is downloaded and nothing written.
pub proof fn lemma_no_newer_release_ends_cycle(installed: String, release: ReleaseInfo)
    requires
        !newer(release.tag@, installed@),
    ensures
        cycle_transition(CycleState::FetchingRelease { installed }, CycleEvent::ReleaseFound(release))
            == finish(CycleOutcome::UpToDate),
{
}

/// Once the cycle is over nothing more is done, whatever happens.
pub proof fn lemma_finished_is_final(outcome: CycleOutcome, event: CycleEvent)
    ensures
        cycle_transition(CycleState::Finished(outcome), event) == (
            CycleState::Finished(outcome),
            CycleAction::Nothing,
        ),
{
}

/// The actions that a cycle issues: those of `cycle_transition`, from
/// `state` on, for the events in their order.
pub open spec fn cycle_actions(state: CycleState, events: Seq<CycleEvent>) -> Seq<CycleAction>
    decreases events.len(),
{
    if events.len() == 0 {
        Seq::empty()
    } else {
        let (next, action) = cycle_transition(state, events[0]);
        seq![action] + cycle_actions(next, events.skip(1))
    }
}

/// A cycle that is over issues no action any more.
pub proof fn lemma_nothing_after_finish(outcome: CycleOutcome, events: Seq<CycleEvent>)
    ensures
        cycle_actions(CycleState::Finished(outcome), events).len() == events.len(),
        forall|i: int| 0 <= i < events.len() ==> (#[trigger] cycle_actions(
            CycleState::Finished(outcome),
            events,
        )[i]) is Nothing,
    decreases events.len(),
{
    if events.len() > 0 {
        lemma_nothing_after_finish(outcome, events.skip(1));
    }
}

/// With a release that is not newer than the installed version, no action
/// of the rest of the cycle is a download, an unpacking or a rewriting of
/// the marker, whatever happens afterwards.
pub proof fn lemma_no_newer_release_changes_nothing(
    installed: String,
    release: ReleaseInfo,
    later: Seq<CycleEvent>,
)
    requires
        !newer(release.tag@, installed@),
    ensures
        ({
            let actions = cycle_actions(
                CycleState::FetchingRelease { installed },
                seq![CycleEvent::ReleaseFound(release)] + later,
            );
            &&& actions.len() == later.len() + 1
            &&& actions[0] == CycleAction::Finish(CycleOutcome::UpToDate)
            &&& forall|i: int| 1 <= i < actions.len() ==> (#[trigger] actions[i]) is Nothing
        }),
{
    let events = seq![CycleEvent::ReleaseFound(release)] + later;
    assert(events.skip(1) =~= later);
    assert(events[0] == CycleEvent::ReleaseFound(release));
    lemma_nothing_after_finish(CycleOutcome::UpToDate, later);
}

/// A download is asked for only on a release that is newer than the
/// installed version, from that release's URL; and the marker is rewritten
/// only after an artifact was applied, to the tag of a release that is newer
/// than the installed version.
pub proof fn lemma_download_and_write_need_newer(state: CycleState, event: CycleEvent)
    requires
        state.well_formed(),
    ensures
        cycle_transition(state, event).1 matches CycleAction::Download { url } ==> {
            &&& state matches CycleState::FetchingRelease { installed }
            &&& event matches CycleEvent::ReleaseFound(release)
            &&& url == release.download_url
            &&& newer(release.tag@, installed@)
        },
        cycle_transition(state, event).1 matches CycleAction::WriteVersion { version } ==> {
            &&& state matches CycleState::Applying { installed, latest }
            &&& event is Completed
            &&& version == latest
            &&& newer(latest@, installed@)
        },
        cycle_transition(state, event).1 == CycleAction::Finish(CycleOutcome::Updated)
            ==> state is WritingVersion && event is Completed,
{
}

} // verus!
