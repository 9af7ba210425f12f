//! The run of one batch: every record is taken through its enrollment in
//! turn, a record's failure ends that record only, and the batch is
//! acknowledged when the last record has been settled.

use crate::clock::read_clock;
use crate::config::{Config, ConfigView};
use crate::errors::{ErrorView, PerRecordError};
use crate::flow::{
    record_step, record_step_spec, result_view, Enrolled, EnrolledView, Phase, PhaseView,
    RecordStep, RecordStepView, Reply, ReplyView, Request, RequestView,
};
use crate::model::{refs_view, ObjectRef, ObjectRefView};
use vstd::prelude::*;

verus! {

/// The status code of the acknowledgement.
pub const STATUS_OK: u16 = 200;

/// The body of the acknowledgement.
pub const COMPLETION_BODY: &'static str = "Processing complete";

/// How the enrollment of one record ended.
#[derive(Debug, PartialEq, Eq)]
pub struct RecordOutcome {
    pub object: ObjectRef,
    pub result: Result<Enrolled, PerRecordError>,
}

/// The view of a [`RecordOutcome`].
pub struct OutcomeView {
    pub object: ObjectRefView,
    pub result: Result<EnrolledView, ErrorView>,
}

impl View for RecordOutcome {
    type V = OutcomeView;

    open spec fn view(&self) -> OutcomeView {
        OutcomeView { object: self.object@, result: result_view(self.result) }
    }
}

/// The views of a sequence of outcomes.
pub open spec fn outcomes_view(outcomes: Seq<RecordOutcome>) -> Seq<OutcomeView> {
    Seq::new(outcomes.len(), |i: int| outcomes[i]@)
}

/// How many of the outcomes are failures.
pub open spec fn failures(outcomes: Seq<OutcomeView>) -> nat
    decreases outcomes.len(),
{
    if outcomes.len() == 0 {
        0
    } else {
        let before = failures(outcomes.drop_last());
        if outcomes.last().result is Err {
            before + 1
        } else {
            before
        }
    }
}

/// What the invoker is told when a batch is done.
#[derive(Debug, PartialEq, Eq)]
pub struct BatchResult {
    pub status_code: u16,
    pub body: String,
}

/// The view of a [`BatchResult`].
pub struct BatchResultView {
    pub status_code: int,
    pub body: Seq<char>,
}

impl View for BatchResult {
    type V = BatchResultView;

    open spec fn view(&self) -> BatchResultView {
        BatchResultView { status_code: self.status_code as int, body: self.body@ }
    }
}

/// The acknowledgement of a batch. It is the same for every batch, however
/// its records ended.
pub open spec fn acknowledged() -> BatchResultView {
    BatchResultView { status_code: 200, body: COMPLETION_BODY@ }
}

/// Makes the acknowledgement of a batch.
pub fn acknowledgement() -> (result: BatchResult)
    ensures
        result@ == acknowledged(),
{
    BatchResult { status_code: STATUS_OK, body: COMPLETION_BODY.to_owned() }
}

/// What the caller does next: make a call and hand back its reply, or
/// return the acknowledgement to the invoker.
#[derive(Debug)]
pub enum Next {
    Call(Request),
    Acknowledge(BatchResult),
}

/// The view of a [`Next`].
pub enum NextView {
    Call(RequestView),
    Acknowledge(BatchResultView),
}

impl View for Next {
    type V = NextView;

    open spec fn view(&self) -> NextView {
        match self {
            Next::Call(request) => NextView::Call(request@),
            Next::Acknowledge(result) => NextView::Acknowledge(result@),
        }
    }
}

/// The result of one step of a run: whether the step settled a record, and
/// what the caller does next.
#[derive(Debug)]
pub struct Turn {
    pub settled: bool,
    pub next: Next,
}

/// The view of a [`Turn`].
pub struct TurnView {
    pub settled: bool,
    pub next: NextView,
}

impl View for Turn {
    type V = TurnView;

    open spec fn view(&self) -> TurnView {
        TurnView { settled: self.settled, next: self.next@ }
    }
}

/// The state of a run: the batch, the records settled so far, and the call
/// that the current record waits on.
pub struct RunView {
    pub config: ConfigView,
    pub batch: Seq<ObjectRefView>,
    pub cursor: nat,
    pub phase: PhaseView,
    pub outcomes: Seq<OutcomeView>,
}

impl RunView {
    /// The records before the cursor are settled, one outcome each, in the
    /// order of the batch.
    pub open spec fn wf(self) -> bool {
        &&& self.cursor <= self.batch.len()
        &&& self.outcomes.len() == self.cursor
        &&& forall|i: int|
            0 <= i < self.cursor ==> (#[trigger] self.outcomes[i]).object == self.batch[i]
    }

    /// Every record has been settled.
    pub open spec fn complete(self) -> bool {
        self.cursor >= self.batch.len()
    }

    /// The number of replies after which the run is complete at the latest.
    pub open spec fn remaining(self) -> nat {
        if self.complete() {
            0
        } else {
            (3 * (self.batch.len() - self.cursor) - match self.phase {
                PhaseView::AwaitingMetadata => 0int,
                PhaseView::AwaitingDetection { .. } => 1int,
                PhaseView::AwaitingWrite { .. } => 2int,
            }) as nat
        }
    }
}

/// What the caller does when the record at `cursor` is the next to start.
pub open spec fn opening(batch: Seq<ObjectRefView>, cursor: nat) -> NextView {
    if cursor < batch.len() {
        NextView::Call(RequestView::FetchMetadata(batch[cursor as int]))
    } else {
        NextView::Acknowledge(acknowledged())
    }
}

/// The start of a run: nothing is settled, and the first record's metadata
/// is looked up; an empty batch is acknowledged at once.
pub open spec fn start_spec(config: ConfigView, batch: Seq<ObjectRefView>) -> (RunView, TurnView) {
    (
        RunView {
            config,
            batch,
            cursor: 0,
            phase: PhaseView::AwaitingMetadata,
            outcomes: Seq::empty(),
        },
        TurnView { settled: false, next: opening(batch, 0) },
    )
}

/// One step of a run. The reply goes to the current record. Where the
/// record goes on, its next call is made. Where it ends, well or badly, its
/// outcome is noted and the next record starts; after the last record the
/// batch is acknowledged. A complete run stays as it is.
pub open spec fn advance_spec(run: RunView, reply: ReplyView, now: Option<u64>) -> (
    RunView,
    TurnView,
) {
    if run.complete() {
        (run, TurnView { settled: false, next: NextView::Acknowledge(acknowledged()) })
    } else {
        let object = run.batch[run.cursor as int];
        match record_step_spec(run.config, object, run.phase, reply, now) {
            RecordStepView::Proceed(phase, request) => (
                RunView { phase, ..run },
                TurnView { settled: false, next: NextView::Call(request) },
            ),
            RecordStepView::Settle(result) => (
                RunView {
                    cursor: run.cursor + 1,
                    phase: PhaseView::AwaitingMetadata,
                    outcomes: run.outcomes.push(OutcomeView { object, result }),
                    ..run
                },
                TurnView { settled: true, next: opening(run.batch, run.cursor + 1) },
            ),
        }
    }
}

/// A batch on its way through the pipeline.
#[derive(Debug)]
pub struct BatchRun {
    config: Config,
    batch: Vec<ObjectRef>,
    cursor: usize,
    phase: Phase,
    outcomes: Vec<RecordOutcome>,
}

impl View for BatchRun {
    type V = RunView;

    closed spec fn view(&self) -> RunView {
        RunView {
            config: self.config@,
            batch: refs_view(self.batch@),
            cursor: self.cursor as nat,
            phase: self.phase@,
            outcomes: outcomes_view(self.outcomes@),
        }
    }
}

impl BatchRun {
    #[verifier::type_invariant]
    spec fn well_formed(&self) -> bool {
        self@.wf()
    }

    /// What the caller does when the record at `cursor` is the next to start.
    fn open_record(batch: &Vec<ObjectRef>, cursor: usize) -> (next: Next)
        ensures
            next@ == opening(refs_view(batch@), cursor as nat),
    {
        if cursor < batch.len() {
            Next::Call(Request::FetchMetadata(batch[cursor].clone()))
        } else {
            Next::Acknowledge(acknowledgement())
        }
    }

    /// Starts the run of `batch`.
    pub fn start(config: Config, batch: Vec<ObjectRef>) -> (started: (BatchRun, Turn))
        ensures
            (started.0@, started.1@) == start_spec(config@, refs_view(batch@)),
            started.0@.wf(),
    {
        let next = Self::open_record(&batch, 0);
        let run = BatchRun {
            config,
            batch,
            cursor: 0,
            phase: Phase::AwaitingMetadata,
            outcomes: Vec::new(),
        };
        assert(run@.outcomes =~= Seq::empty());
        (run, Turn { settled: false, next })
    }

    /// Takes the run one step further with `reply` as the answer to the
    /// call that was pending and `now` as the clock's reading.
    pub fn advance_at(self, reply: Reply, now: Option<u64>) -> (advanced: (BatchRun, Turn))
        ensures
            (advanced.0@, advanced.1@) == advance_spec(self@, reply@, now),
            advanced.0@.wf(),
    {
        proof {
            use_type_invariant(&self);
        }
        let ghost before = self@;
        let BatchRun { config, batch, cursor, phase, outcomes } = self;
        if cursor >= batch.len() {
            let run = BatchRun { config, batch, cursor, phase, outcomes };
            return (run, Turn { settled: false, next: Next::Acknowledge(acknowledgement()) });
        }
        match record_step(&config, &batch[cursor], phase, reply, now) {
            RecordStep::Proceed(phase, request) => {
                let run = BatchRun { config, batch, cursor, phase, outcomes };
                (run, Turn { settled: false, next: Next::Call(request) })
            },
            RecordStep::Settle(result) => {
                let mut outcomes = outcomes;
                let ghost outcome = OutcomeView {
                    object: batch[cursor as int]@,
                    result: result_view(result),
                };
                outcomes.push(RecordOutcome { object: batch[cursor].clone(), result });
                assert(outcomes_view(outcomes@) =~= before.outcomes.push(outcome));
                let next = Self::open_record(&batch, cursor + 1);
                let run = BatchRun {
                    config,
                    batch,
                    cursor: cursor + 1,
                    phase: Phase::AwaitingMetadata,
                    outcomes,
                };
                (run, Turn { settled: true, next })
            },
        }
    }

    /// Takes the run one step further with `reply` as the answer to the
    /// call that was pending. Where the step stamps a record, it reads the
    /// clock for the time.
    pub fn advance(self, reply: Reply) -> (advanced: (BatchRun, Turn))
        ensures
            exists|now: Option<u64>|
                (advanced.0@, advanced.1@) == #[trigger] advance_spec(self@, reply@, now),
            !(self@.phase is AwaitingDetection) ==> (advanced.0@, advanced.1@) == advance_spec(
                self@,
                reply@,
                None,
            ),
            advanced.0@.wf(),
    {
        let now = match &self.phase {
            Phase::AwaitingDetection { .. } => read_clock(),
            _ => None,
        };
        self.advance_at(reply, now)
    }

    /// Whether every record has been settled.
    pub fn is_complete(&self) -> (done: bool)
        ensures
            done == self@.complete(),
    {
        self.cursor >= self.batch.len()
    }

    /// How many of the records settled so far have failed.
    pub fn failed(&self) -> (count: usize)
        ensures
            count == failures(self@.outcomes),
    {
        let mut count: usize = 0;
        let mut i: usize = 0;
        assert(outcomes_view(self.outcomes@).take(0) =~= Seq::empty());
        while i < self.outcomes.len()
            invariant
                i <= self.outcomes.len(),
                count <= i,
                count == failures(outcomes_view(self.outcomes@).take(i as int)),
            decreases self.outcomes.len() - i,
        {
            proof {
                let next = outcomes_view(self.outcomes@).take(i + 1);
                assert(next.drop_last() =~= outcomes_view(self.outcomes@).take(i as int));
                assert(next.last() == self.outcomes@[i as int]@);
            }
            if self.outcomes[i].result.is_err() {
                count += 1;
            }
            i += 1;
        }
        assert(outcomes_view(self.outcomes@).take(self.outcomes.len() as int) =~= outcomes_view(
            self.outcomes@,
        ));
        count
    }

    /// The outcomes of the records settled so far, in the order of the
    /// batch.
    pub fn outcomes(&self) -> (settled: &Vec<RecordOutcome>)
        ensures
            outcomes_view(settled@) == self@.outcomes,
            self@.wf(),
    {
        proof {
            use_type_invariant(self);
        }
        &self.outcomes
    }
}

} // verus!
