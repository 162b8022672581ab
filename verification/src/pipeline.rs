//! The order of work: the stages of one track, and the tracks of a run.

use vstd::prelude::*;
use crate::catalog::TrackMetadata;
use crate::error::RipError;

verus! {

/// How the work on one track ended.
#[derive(Clone, Debug, PartialEq, Eq)]
pub enum TrackOutcome {
    /// The file was written and tagged.
    Succeeded,
    /// The catalog reports the track as not playable. Nothing was written,
    /// and nothing went wrong.
    Skipped,
    /// A stage failed. The track is missing from the output.
    Failed(RipError),
}

/// The stages that follow the fetch of a track's record, in their order.
#[derive(Clone, Copy, Debug, PartialEq, Eq, Structural)]
pub enum TrackStage {
    Acquire,
    Transcode,
    Tag,
}

/// What the work on a track asks for next.
#[derive(Clone, Debug, PartialEq, Eq)]
pub enum TrackStep {
    /// Run this stage and hand its result to [`after_stage`].
    Run(TrackStage),
    /// The work on the track is over.
    Finish(TrackOutcome),
}

/// The step that follows the fetch of a track's record, given whether the
/// catalog reports the track as playable: a failed fetch fails the track; a
/// track that is expressly not playable is skipped; any other is acquired.
pub open spec fn step_after_metadata(fetched: Result<Option<bool>, RipError>) -> TrackStep {
    match fetched {
        Err(error) => TrackStep::Finish(TrackOutcome::Failed(error)),
        Ok(Some(false)) => TrackStep::Finish(TrackOutcome::Skipped),
        Ok(_) => TrackStep::Run(TrackStage::Acquire),
    }
}

/// The step that follows a stage: a failure ends the track with that
/// failure; otherwise the next stage runs, and after the last the track has
/// succeeded.
pub open spec fn step_after_stage(stage: TrackStage, result: Result<(), RipError>) -> TrackStep {
    match result {
        Err(error) => TrackStep::Finish(TrackOutcome::Failed(error)),
        Ok(_) => match stage {
            TrackStage::Acquire => TrackStep::Run(TrackStage::Transcode),
            TrackStage::Transcode => TrackStep::Run(TrackStage::Tag),
            TrackStage::Tag => TrackStep::Finish(TrackOutcome::Succeeded),
        },
    }
}

/// What the catalog says of whether a fetched track is playable.
pub open spec fn playable_flag(fetched: Result<&TrackMetadata, RipError>) -> Result<
    Option<bool>,
    RipError,
> {
    match fetched {
        Ok(metadata) => Ok(metadata.is_playable),
        Err(error) => Err(error),
    }
}

/// Decides what follows the fetch of a track's record.
pub fn after_metadata(fetched: Result<&TrackMetadata, RipError>) -> (step: TrackStep)
    ensures
        step == step_after_metadata(playable_flag(fetched)),
{
    match fetched {
        Err(error) => TrackStep::Finish(TrackOutcome::Failed(error)),
        Ok(metadata) => match metadata.is_playable {
            Some(false) => TrackStep::Finish(TrackOutcome::Skipped),
            _ => TrackStep::Run(TrackStage::Acquire),
        },
    }
}

/// Decides what follows a stage, from its result.
pub fn after_stage(stage: TrackStage, result: Result<(), RipError>) -> (step: TrackStep)
    ensures
        step == step_after_stage(stage, result),
{
    match result {
        Err(error) => TrackStep::Finish(TrackOutcome::Failed(error)),
        Ok(_) => match stage {
            TrackStage::Acquire => TrackStep::Run(TrackStage::Transcode),
            TrackStage::Transcode => TrackStep::Run(TrackStage::Tag),
            TrackStage::Tag => TrackStep::Finish(TrackOutcome::Succeeded),
        },
    }
}

/// The number of stages from `stage` to the last.
pub open spec fn stages_left(stage: TrackStage) -> nat {
    match stage {
        TrackStage::Acquire => 3,
        TrackStage::Transcode => 2,
        TrackStage::Tag => 1,
    }
}

/// The stages that run from `stage` on, and the outcome of the track, where
/// `results` gives for each stage the result it has when it runs.
pub open spec fn run_stages(
    stage: TrackStage,
    results: spec_fn(TrackStage) -> Result<(), RipError>,
) -> (Seq<TrackStage>, TrackOutcome)
    decreases stages_left(stage),
{
    match step_after_stage(stage, results(stage)) {
        TrackStep::Finish(outcome) => (seq![stage], outcome),
        TrackStep::Run(next) => (
            seq![stage] + run_stages(next, results).0,
            run_stages(next, results).1,
        ),
    }
}

/// The stages that run for a track, and its outcome, from what the fetch
/// of its record says and the result that each stage has when it runs.
pub open spec fn run_track(
    fetched: Result<Option<bool>, RipError>,
    results: spec_fn(TrackStage) -> Result<(), RipError>,
) -> (Seq<TrackStage>, TrackOutcome) {
    match step_after_metadata(fetched) {
        TrackStep::Finish(outcome) => (Seq::empty(), outcome),
        TrackStep::Run(stage) => run_stages(stage, results),
    }
}

/// A track that the catalog reports as not playable is skipped: no stage
/// runs for it, so that nothing is acquired, transcoded or written, and its
/// outcome is no failure, whatever the stages would have done.
pub proof fn lemma_unplayable_track_is_skipped(
    results: spec_fn(TrackStage) -> Result<(), RipError>,
)
    ensures
        run_track(Ok(Some(false)), results) == (Seq::<TrackStage>::empty(), TrackOutcome::Skipped),
{
}

/// A track that is not reported as unplayable runs its stages in order up
/// to the first that fails, and fails with that stage's error; where none
/// fails, all three run and the track succeeds.
pub proof fn lemma_track_runs_to_first_failure(
    playable: Option<bool>,
    results: spec_fn(TrackStage) -> Result<(), RipError>,
)
    requires
        playable != Some(false),
    ensures
        results(TrackStage::Acquire) matches Err(error) ==> run_track(Ok(playable), results) == (
            seq![TrackStage::Acquire],
            TrackOutcome::Failed(error),
        ),
        results(TrackStage::Acquire) is Ok ==> (results(TrackStage::Transcode) matches Err(error)
            ==> run_track(Ok(playable), results) == (
            seq![TrackStage::Acquire, TrackStage::Transcode],
            TrackOutcome::Failed(error),
        )),
        results(TrackStage::Acquire) is Ok && results(TrackStage::Transcode) is Ok ==> (results(
            TrackStage::Tag,
        ) matches Err(error) ==> run_track(Ok(playable), results) == (
            seq![TrackStage::Acquire, TrackStage::Transcode, TrackStage::Tag],
            TrackOutcome::Failed(error),
        )),
        results(TrackStage::Acquire) is Ok && results(TrackStage::Transcode) is Ok && results(
            TrackStage::Tag,
        ) is Ok ==> run_track(Ok(playable), results) == (
            seq![TrackStage::Acquire, TrackStage::Transcode, TrackStage::Tag],
            TrackOutcome::Succeeded,
        ),
{
    reveal_with_fuel(run_stages, 4);
    let all = seq![TrackStage::Acquire, TrackStage::Transcode, TrackStage::Tag];
    assert(seq![TrackStage::Acquire] + seq![TrackStage::Transcode] =~= seq![
        TrackStage::Acquire,
        TrackStage::Transcode,
    ]);
    assert(seq![TrackStage::Acquire] + (seq![TrackStage::Transcode] + seq![TrackStage::Tag])
        =~= all);
}

/// The pause after each track, in seconds. It keeps the run from asking
/// the provider for one track right after another.
pub const TRACK_DELAY_SECONDS: u64 = 5;

/// The count of a run: the tracks of the playlist, and how many of them
/// ended in which way.
#[derive(Clone, Copy, Debug, PartialEq, Eq)]
pub struct RunReport {
    pub total: usize,
    pub succeeded: usize,
    pub skipped: usize,
    pub failed: usize,
}

/// The count of a run as natural numbers.
pub struct Tally {
    pub total: nat,
    pub succeeded: nat,
    pub skipped: nat,
    pub failed: nat,
}

impl Tally {
    /// The count of a run of `total` tracks of which none has ended.
    pub open spec fn fresh(total: nat) -> Tally {
        Tally { total, succeeded: 0, skipped: 0, failed: 0 }
    }

    /// The number of tracks that have ended, which is what the progress
    /// counter shows, and the position of the track to start next.
    pub open spec fn finished(self) -> nat {
        self.succeeded + self.skipped + self.failed
    }

    /// The count after one more track has ended with `outcome`.
    pub open spec fn record(self, outcome: TrackOutcome) -> Tally {
        match outcome {
            TrackOutcome::Succeeded => Tally { succeeded: self.succeeded + 1, ..self },
            TrackOutcome::Skipped => Tally { skipped: self.skipped + 1, ..self },
            TrackOutcome::Failed(_) => Tally { failed: self.failed + 1, ..self },
        }
    }

    /// The count after the tracks with `outcomes` have ended, in order.
    pub open spec fn record_all(self, outcomes: Seq<TrackOutcome>) -> Tally
        decreases outcomes.len(),
    {
        if outcomes.len() == 0 {
            self
        } else {
            self.record(outcomes.first()).record_all(outcomes.drop_first())
        }
    }
}

impl View for RunReport {
    type V = Tally;

    open spec fn view(&self) -> Tally {
        Tally {
            total: self.total as nat,
            succeeded: self.succeeded as nat,
            skipped: self.skipped as nat,
            failed: self.failed as nat,
        }
    }
}

/// A run during which a track is being worked on.
pub struct TrackRun {
    count: RunReport,
}

/// A run that pauses after a track.
pub struct Pause {
    count: RunReport,
}

/// What a run asks for next.
pub enum RunStep {
    /// Work on the track at this position of the playlist, and hand its
    /// outcome to [`TrackRun::finish`].
    Start(TrackRun, usize),
    /// Wait for this many seconds, then call [`Pause::resume`].
    Wait(Pause, u64),
    /// Every track has been worked on.
    Done(RunReport),
}

impl TrackRun {
    #[verifier::type_invariant]
    spec fn well_formed(self) -> bool {
        self.count@.finished() < self.count@.total
    }

    /// The count of the run before the track that is being worked on.
    pub closed spec fn view(&self) -> Tally {
        self.count@
    }

    /// Takes in the outcome of the track that was being worked on, whichever
    /// it is: the track is counted, and the run pauses.
    pub fn finish(self, outcome: &TrackOutcome) -> (step: RunStep)
        ensures
            step matches RunStep::Wait(pause, seconds) && pause@ == self@.record(*outcome)
                && seconds == TRACK_DELAY_SECONDS,
            self@.finished() < self@.total,
    {
        proof {
            use_type_invariant(&self);
        }
        let TrackRun { count } = self;
        let count = match outcome {
            TrackOutcome::Succeeded => RunReport { succeeded: count.succeeded + 1, ..count },
            TrackOutcome::Skipped => RunReport { skipped: count.skipped + 1, ..count },
            TrackOutcome::Failed(_) => RunReport { failed: count.failed + 1, ..count },
        };
        RunStep::Wait(Pause { count }, TRACK_DELAY_SECONDS)
    }
}

impl Pause {
    #[verifier::type_invariant]
    spec fn well_formed(self) -> bool {
        self.count@.finished() <= self.count@.total
    }

    /// The count of the run, the track before the pause included.
    pub closed spec fn view(&self) -> Tally {
        self.count@
    }

    /// Goes on after the pause: with the next track of the playlist, or,
    /// after the last, with the end of the run.
    pub fn resume(self) -> (step: RunStep)
        ensures
            self@.finished() < self@.total ==> (step matches RunStep::Start(track, position)
                && track@ == self@ && position == self@.finished()),
            self@.finished() >= self@.total ==> (step matches RunStep::Done(report) && report@
                == self@),
            self@.finished() <= self@.total,
    {
        proof {
            use_type_invariant(&self);
        }
        next_step(self.count)
    }
}

/// The step of a run that stands between two tracks.
fn next_step(count: RunReport) -> (step: RunStep)
    requires
        count@.finished() <= count@.total,
    ensures
        count@.finished() < count@.total ==> (step matches RunStep::Start(track, position)
            && track@ == count@ && position == count@.finished()),
        count@.finished() >= count@.total ==> step == RunStep::Done(count),
{
    let finished: usize = count.succeeded + count.skipped + count.failed;
    if finished < count.total {
        RunStep::Start(TrackRun { count }, finished)
    } else {
        RunStep::Done(count)
    }
}

/// Begins a run over a playlist of `total` tracks: with its first track,
/// or, for an empty playlist, with its end.
pub fn begin_run(total: usize) -> (step: RunStep)
    ensures
        total > 0 ==> (step matches RunStep::Start(track, position) && track@ == Tally::fresh(
            total as nat,
        ) && position == 0),
        total == 0 ==> (step matches RunStep::Done(report) && report@ == Tally::fresh(0)),
{
    next_step(RunReport { total, succeeded: 0, skipped: 0, failed: 0 })
}

/// The exit status of the program: success once the run has gone through
/// its tracks, however many of them failed, and failure where the run could
/// not be set up.
pub fn exit_status(run: &Result<RunReport, RipError>) -> (status: i32)
    ensures
        run is Ok ==> status == 0,
        run is Err ==> status == 1,
{
    match run {
        Ok(_) => 0,
        Err(_) => 1,
    }
}

/// What a run asks for, as plain values.
pub enum RunAction {
    /// Work on the track at this position.
    Start(nat),
    /// Wait for this many seconds.
    Wait(nat),
    /// The run is over, with this count.
    Done(Tally),
}

/// What a run asks for, from a count that stands between two tracks,
/// where the tracks that are left end with `outcomes`, in order.
pub open spec fn run_actions(count: Tally, outcomes: Seq<TrackOutcome>) -> Seq<RunAction>
    decreases outcomes.len(),
{
    if count.finished() >= count.total || outcomes.len() == 0 {
        seq![RunAction::Done(count)]
    } else {
        seq![RunAction::Start(count.finished()), RunAction::Wait(TRACK_DELAY_SECONDS as nat)]
            + run_actions(count.record(outcomes.first()), outcomes.drop_first())
    }
}

/// The work on the tracks from `position` on in a playlist of `total`
/// tracks: each track in turn, and a pause after each.
pub open spec fn schedule(position: nat, total: nat) -> Seq<RunAction>
    decreases total - position,
{
    if position >= total {
        Seq::empty()
    } else {
        seq![RunAction::Start(position), RunAction::Wait(TRACK_DELAY_SECONDS as nat)] + schedule(
            position + 1,
            total,
        )
    }
}

/// The number of failures among `outcomes`.
pub open spec fn failures(outcomes: Seq<TrackOutcome>) -> nat
    decreases outcomes.len(),
{
    if outcomes.len() == 0 {
        0
    } else if outcomes.first() is Failed {
        1 + failures(outcomes.drop_first())
    } else {
        failures(outcomes.drop_first())
    }
}

/// Recording the outcomes of tracks advances the progress counter by one
/// for each track, whatever its outcome, and counts as failed exactly the
/// tracks that failed: a skipped track is no failure.
pub proof fn lemma_record_all_counts(count: Tally, outcomes: Seq<TrackOutcome>)
    ensures
        count.record_all(outcomes).total == count.total,
        count.record_all(outcomes).finished() == count.finished() + outcomes.len(),
        count.record_all(outcomes).failed == count.failed + failures(outcomes),
    decreases outcomes.len(),
{
    if outcomes.len() > 0 {
        lemma_record_all_counts(count.record(outcomes.first()), outcomes.drop_first());
    }
}

/// No track's outcome changes what the run does: whatever the outcomes of
/// the tracks that are left, failures among them or not, the run works on
/// each of them in playlist order, pauses after each, and then ends with all
/// of them counted.
pub proof fn lemma_run_works_on_every_track(count: Tally, outcomes: Seq<TrackOutcome>)
    requires
        count.finished() + outcomes.len() == count.total,
    ensures
        run_actions(count, outcomes) == schedule(count.finished(), count.total) + seq![
            RunAction::Done(count.record_all(outcomes)),
        ],
        count.record_all(outcomes).finished() == count.total,
    decreases outcomes.len(),
{
    lemma_record_all_counts(count, outcomes);
    if outcomes.len() == 0 {
        assert(schedule(count.finished(), count.total) =~= Seq::empty());
        assert(run_actions(count, outcomes) =~= schedule(count.finished(), count.total) + seq![
            RunAction::Done(count.record_all(outcomes)),
        ]);
    } else {
        let next = count.record(outcomes.first());
        let rest = outcomes.drop_first();
        lemma_run_works_on_every_track(next, rest);
        assert(next.finished() == count.finished() + 1);
        assert(next.total == count.total);
        let head = seq![
            RunAction::Start(count.finished()),
            RunAction::Wait(TRACK_DELAY_SECONDS as nat),
        ];
        assert(run_actions(count, outcomes) == head + run_actions(next, rest));
        assert(schedule(count.finished(), count.total) == head + schedule(
            next.finished(),
            count.total,
        ));
        assert(head + (schedule(next.finished(), count.total) + seq![
            RunAction::Done(next.record_all(rest)),
        ]) =~= (head + schedule(next.finished(), count.total)) + seq![
            RunAction::Done(next.record_all(rest)),
        ]);
    }
}

} // verus!
