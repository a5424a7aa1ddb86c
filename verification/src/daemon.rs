//! The decisions of the execution daemon. The daemon's loop lives with the
//! caller: after each step it has the store make the changes that the step
//! asks for, does what the step directs, and hands back what happened as the
//! next event.

use crate::lifecycle::{lemma_apply_two, op_views, Collections, StoreOp, StoreOpView};
use crate::taskdb::{
    finished_record, steady_failure, working_record, FinishedTask, FinishedTaskView, PendingTask,
    PendingTaskView, StoreError, TaskDB, WorkingTask, WorkingTaskView,
};
use vstd::prelude::*;

verus! {

/// The pause after each poll, in milliseconds.
pub const POLL_INTERVAL_MS: u64 = 3000;

/// Where the daemon stands between two steps.
#[derive(Debug)]
pub enum Phase {
    /// Nothing was done yet.
    Startup,
    /// The store is being reconciled; the first poll follows.
    Reconciling,
    /// The store is being asked for a pending task.
    Polling,
    /// The task was claimed and its child process is being run.
    Executing(WorkingTask),
    /// The daemon pauses before the next poll.
    Sleeping,
    /// Startup failed: the daemon does nothing more.
    Stopped,
}

/// What happened while the last step was carried out.
#[derive(Debug)]
pub enum Event {
    /// The daemon started, at `now`.
    Started { now: String },
    /// The poll came back with `task`, at `now`.
    Fetched { task: Option<PendingTask>, now: String },
    /// The child process ran and ended, at `now`.
    Exited { now: String },
    /// The poll failed.
    PollFailed,
    /// The step could not be carried out otherwise: a change of the store
    /// failed, the command could not be decoded, or the child could not be
    /// started.
    Failed,
    /// The pause is over.
    Woke,
}

/// What the daemon's loop is to do once the store has made the changes of
/// the step.
#[derive(Debug)]
pub enum Directive {
    /// Ask the store for a pending task; answered by `Fetched`.
    Poll,
    /// Run the task's command as a child process and wait for its end;
    /// answered by `Exited`.
    Launch(PendingTask),
    /// Pause for so many milliseconds; answered by `Woke`.
    Sleep(u64),
    /// End the process with a diagnostic.
    Stop,
}

/// One decision of the daemon.
#[derive(Debug)]
pub struct Step {
    /// The phase that the daemon enters.
    pub phase: Phase,
    /// Whether the store is to be reconciled first, and the time at which
    /// the tasks that a crash left working are taken to have ended.
    pub reconcile: Option<String>,
    /// The changes for the store to make after that, in their order.
    pub ops: Vec<StoreOp>,
    /// What to do after them; nothing where the event was not awaited.
    pub directive: Option<Directive>,
}

/// A phase, as mathematical values.
pub enum PhaseView {
    Startup,
    Reconciling,
    Polling,
    Executing(WorkingTaskView),
    Sleeping,
    Stopped,
}

/// An event, as mathematical values.
pub enum EventView {
    Started { now: Seq<char> },
    Fetched { task: Option<PendingTaskView>, now: Seq<char> },
    Exited { now: Seq<char> },
    PollFailed,
    Failed,
    Woke,
}

/// A directive, as mathematical values.
pub enum DirectiveView {
    Poll,
    Launch(PendingTaskView),
    Sleep(u64),
    Stop,
}

/// A decision, as mathematical values.
pub struct StepView {
    pub phase: PhaseView,
    pub reconcile: Option<Seq<char>>,
    pub ops: Seq<StoreOpView>,
    pub directive: Option<DirectiveView>,
}

impl View for Phase {
    type V = PhaseView;

    open spec fn view(&self) -> PhaseView {
        match *self {
            Phase::Startup => PhaseView::Startup,
            Phase::Reconciling => PhaseView::Reconciling,
            Phase::Polling => PhaseView::Polling,
            Phase::Executing(w) => PhaseView::Executing(w@),
            Phase::Sleeping => PhaseView::Sleeping,
            Phase::Stopped => PhaseView::Stopped,
        }
    }
}

impl View for Event {
    type V = EventView;

    open spec fn view(&self) -> EventView {
        match *self {
            Event::Started { now } => EventView::Started { now: now@ },
            Event::Fetched { task, now } => EventView::Fetched {
                task: match task {
                    Some(t) => Some(t@),
                    None => None,
                },
                now: now@,
            },
            Event::Exited { now } => EventView::Exited { now: now@ },
            Event::PollFailed => EventView::PollFailed,
            Event::Failed => EventView::Failed,
            Event::Woke => EventView::Woke,
        }
    }
}

impl View for Directive {
    type V = DirectiveView;

    open spec fn view(&self) -> DirectiveView {
        match *self {
            Directive::Poll => DirectiveView::Poll,
            Directive::Launch(t) => DirectiveView::Launch(t@),
            Directive::Sleep(ms) => DirectiveView::Sleep(ms),
            Directive::Stop => DirectiveView::Stop,
        }
    }
}

impl View for Step {
    type V = StepView;

    open spec fn view(&self) -> StepView {
        StepView {
            phase: self.phase@,
            reconcile: match self.reconcile {
                Some(now) => Some(now@),
                None => None,
            },
            ops: op_views(self.ops@),
            directive: match self.directive {
                Some(d) => Some(d@),
                None => None,
            },
        }
    }
}

/// The record of a task whose child process ran and ended at `now`.
pub open spec fn normal_exit(w: WorkingTaskView, now: Seq<char>) -> FinishedTaskView {
    finished_record(w, now, "normal exit"@, 0i64)
}

/// The step that leads to the pause: the store is left as it is.
pub open spec fn pause() -> StepView {
    StepView {
        phase: PhaseView::Sleeping,
        reconcile: None,
        ops: Seq::empty(),
        directive: Some(DirectiveView::Sleep(POLL_INTERVAL_MS)),
    }
}

/// The step that claims the pending task `t` at `now` and launches it.
pub open spec fn claim(t: PendingTaskView, now: Seq<char>) -> StepView {
    StepView {
        phase: PhaseView::Executing(working_record(t, now)),
        reconcile: None,
        ops: seq![
            StoreOpView::RemovePending(t),
            StoreOpView::InsertWorking(working_record(t, now)),
        ],
        directive: Some(DirectiveView::Launch(t)),
    }
}

/// The step that records the end of the working task `w` at `now`.
pub open spec fn complete(w: WorkingTaskView, now: Seq<char>) -> StepView {
    StepView {
        phase: PhaseView::Sleeping,
        reconcile: None,
        ops: seq![StoreOpView::RemoveWorking(w), StoreOpView::InsertFinished(normal_exit(w, now))],
        directive: Some(DirectiveView::Sleep(POLL_INTERVAL_MS)),
    }
}

/// The daemon's decision, by its phase and the event that came in.
///
/// At startup the store is reconciled, then polled; where the
/// reconciliation fails the daemon stops. A poll that finds a task claims it
/// (out of pending, into working) and launches it; one that finds none, or
/// fails, leads to the pause, the first poll as every other. When the child
/// has ended the task is recorded (out of working, into finished) before the
/// pause. A failure after startup leads to the pause and nothing is
/// recorded, so that a task whose child never started stays working. After
/// the pause comes the next poll. An event that the phase does not await is
/// passed over: the phase stays, and nothing is asked for.
pub open spec fn next(phase: PhaseView, event: EventView) -> StepView {
    match (phase, event) {
        (PhaseView::Startup, EventView::Started { now }) => StepView {
            phase: PhaseView::Reconciling,
            reconcile: Some(now),
            ops: Seq::empty(),
            directive: Some(DirectiveView::Poll),
        },
        (PhaseView::Reconciling, EventView::Fetched { task: Some(t), now }) => claim(t, now),
        (PhaseView::Reconciling, EventView::Fetched { task: None, now }) => pause(),
        (PhaseView::Reconciling, EventView::PollFailed) => pause(),
        (PhaseView::Reconciling, EventView::Failed) => StepView {
            phase: PhaseView::Stopped,
            reconcile: None,
            ops: Seq::empty(),
            directive: Some(DirectiveView::Stop),
        },
        (PhaseView::Polling, EventView::Fetched { task: Some(t), now }) => claim(t, now),
        (PhaseView::Polling, EventView::Fetched { task: None, now }) => pause(),
        (PhaseView::Polling, EventView::PollFailed) => pause(),
        (PhaseView::Polling, EventView::Failed) => pause(),
        (PhaseView::Executing(w), EventView::Exited { now }) => complete(w, now),
        (PhaseView::Executing(w), EventView::Failed) => pause(),
        (PhaseView::Sleeping, EventView::Failed) => pause(),
        (PhaseView::Sleeping, EventView::Woke) => StepView {
            phase: PhaseView::Polling,
            reconcile: None,
            ops: Seq::empty(),
            directive: Some(DirectiveView::Poll),
        },
        _ => StepView { phase, reconcile: None, ops: Seq::empty(), directive: None },
    }
}

/// What carrying out the changes of a step does to the store: the
/// reconciliation where the step asks for it, then the changes in their
/// order; none where a statement fails.
pub open spec fn effect(s: Collections, step: StepView) -> Option<Collections> {
    match step.reconcile {
        Some(now) => s.reconciled(now).apply_all(step.ops),
        None => s.apply_all(step.ops),
    }
}

/// The phase in which the daemon begins.
pub fn start() -> (phase: Phase)
    ensures
        phase@ == PhaseView::Startup,
{
    Phase::Startup
}

fn to_pause() -> (r: Step)
    ensures
        r@ == pause(),
{
    let ops: Vec<StoreOp> = Vec::new();
    proof {
        assert(op_views(ops@) =~= Seq::empty());
    }
    Step {
        phase: Phase::Sleeping,
        reconcile: None,
        ops,
        directive: Some(Directive::Sleep(POLL_INTERVAL_MS)),
    }
}

fn to_claim(task: PendingTask, now: String) -> (r: Step)
    ensures
        r@ == claim(task@, now@),
{
    let mut ops: Vec<StoreOp> = Vec::new();
    let working = WorkingTask::new(&task, now.as_str());
    ops.push(StoreOp::RemovePending(task.clone()));
    ops.push(StoreOp::InsertWorking(working.clone()));
    proof {
        assert(op_views(ops@) =~= seq![
            StoreOpView::RemovePending(task@),
            StoreOpView::InsertWorking(working_record(task@, now@)),
        ]);
    }
    Step {
        phase: Phase::Executing(working),
        reconcile: None,
        ops,
        directive: Some(Directive::Launch(task)),
    }
}

fn to_complete(working: WorkingTask, now: String) -> (r: Step)
    ensures
        r@ == complete(working@, now@),
{
    let mut ops: Vec<StoreOp> = Vec::new();
    let finished = FinishedTask::new(&working, now.as_str(), "normal exit", 0);
    ops.push(StoreOp::RemoveWorking(working));
    ops.push(StoreOp::InsertFinished(finished));
    proof {
        assert(op_views(ops@) =~= seq![
            StoreOpView::RemoveWorking(working@),
            StoreOpView::InsertFinished(normal_exit(working@, now@)),
        ]);
    }
    Step {
        phase: Phase::Sleeping,
        reconcile: None,
        ops,
        directive: Some(Directive::Sleep(POLL_INTERVAL_MS)),
    }
}

/// One decision of the daemon: from its phase and the event that came in to
/// its next phase, the changes for the store and what to do after them.
pub fn step(phase: Phase, event: Event) -> (r: Step)
    ensures
        r@ == next(phase@, event@),
{
    let ops: Vec<StoreOp> = Vec::new();
    proof {
        assert(op_views(ops@) =~= Seq::empty());
    }
    match (phase, event) {
        (Phase::Startup, Event::Started { now }) => Step {
            phase: Phase::Reconciling,
            reconcile: Some(now),
            ops,
            directive: Some(Directive::Poll),
        },
        (Phase::Reconciling, Event::Fetched { task: Some(task), now }) => to_claim(task, now),
        (Phase::Reconciling, Event::Fetched { task: None, now }) => to_pause(),
        (Phase::Reconciling, Event::PollFailed) => to_pause(),
        (Phase::Reconciling, Event::Failed) => Step {
            phase: Phase::Stopped,
            reconcile: None,
            ops,
            directive: Some(Directive::Stop),
        },
        (Phase::Polling, Event::Fetched { task: Some(task), now }) => to_claim(task, now),
        (Phase::Polling, Event::Fetched { task: None, now }) => to_pause(),
        (Phase::Polling, Event::PollFailed) => to_pause(),
        (Phase::Polling, Event::Failed) => to_pause(),
        (Phase::Executing(working), Event::Exited { now }) => to_complete(working, now),
        (Phase::Executing(_), Event::Failed) => to_pause(),
        (Phase::Sleeping, Event::Failed) => to_pause(),
        (Phase::Sleeping, Event::Woke) => Step {
            phase: Phase::Polling,
            reconcile: None,
            ops,
            directive: Some(Directive::Poll),
        },
        (phase, _) => Step { phase, reconcile: None, ops, directive: None },
    }
}

/// Has the store make the changes of a step: the reconciliation where the
/// step asks for it, then the changes in their order, up to the first
/// statement that fails. A step that asks for no change fails on none.
pub fn change_store(db: &TaskDB, step: &Step) -> (r: Result<(), StoreError>)
    ensures
        step@.reconcile is None && step@.ops.len() == 0 ==> r is Ok,
        r matches Err(e) ==> steady_failure(e.kind),
{
    if let Some(now) = &step.reconcile {
        if let Err(e) = db.reconcile_orphans(now.as_str()) {
            return Err(e);
        }
    }
    db.apply_all(&step.ops)
}

/// The store after the claim of the pending task `t` at `now`.
pub open spec fn claimed(s: Collections, t: PendingTaskView, now: Seq<char>) -> Collections {
    Collections {
        pending: s.pending.remove(t.id),
        working: s.working.insert(t.id, working_record(t, now)),
        finished: s.finished,
    }
}

/// The store after the end of the working task `w` was recorded at `now`.
pub open spec fn completed(s: Collections, w: WorkingTaskView, now: Seq<char>) -> Collections {
    Collections {
        pending: s.pending,
        working: s.working.remove(w.id),
        finished: s.finished.insert(w.id, normal_exit(w, now)),
    }
}

/// One daemon runs one task at a time. A child is launched only by the step
/// that claims its task, and with it the daemon enters the executing phase
/// for that very task. While a task is executing no step launches another,
/// and the daemon leaves that phase only when the child has ended or the
/// step could not be carried out.
pub proof fn lemma_single_flight(phase: PhaseView, event: EventView)
    ensures
        next(phase, event).directive matches Some(DirectiveView::Launch(t)) ==> {
            &&& phase == PhaseView::Polling || phase == PhaseView::Reconciling
            &&& event matches EventView::Fetched { task: Some(fetched), now }
            &&& fetched == t
            &&& next(phase, event) == claim(t, now)
        },
        phase is Executing ==> !(next(phase, event).directive matches Some(
            DirectiveView::Launch(_),
        )),
        phase is Executing && !(event is Exited) && !(event is Failed) ==> next(phase, event).phase
            == phase,
        next(phase, event).phase is Executing && !(phase is Executing) ==> next(
            phase,
            event,
        ).directive matches Some(DirectiveView::Launch(_)),
{
}

/// Startup reconciles the store, whatever it holds, and makes no other
/// change.
pub proof fn lemma_startup_reconciles(s: Collections, now: Seq<char>)
    ensures
        next(PhaseView::Startup, EventView::Started { now }).phase == PhaseView::Reconciling,
        effect(s, next(PhaseView::Startup, EventView::Started { now })) == Some(s.reconciled(now)),
{
}

/// Only a failure of the reconciliation stops the daemon, and for good: a
/// failure later never does, and a failed poll never, the first as little as
/// any other.
pub proof fn lemma_only_startup_stops(phase: PhaseView, event: EventView)
    ensures
        next(PhaseView::Reconciling, EventView::Failed).phase == PhaseView::Stopped,
        next(PhaseView::Reconciling, EventView::Failed).directive == Some(DirectiveView::Stop),
        next(PhaseView::Reconciling, EventView::PollFailed) == pause(),
        next(PhaseView::Polling, EventView::PollFailed) == pause(),
        next(PhaseView::Stopped, event) == (StepView {
            phase: PhaseView::Stopped,
            reconcile: None,
            ops: Seq::empty(),
            directive: None,
        }),
        next(phase, event).phase == PhaseView::Stopped ==> phase == PhaseView::Stopped || (phase
            == PhaseView::Reconciling && event == EventView::Failed),
{
}

/// The claim moves the task that the poll handed out from pending to
/// working, fails on no statement, and leaves the store in order.
pub proof fn lemma_claim(s: Collections, t: PendingTaskView, now: Seq<char>)
    requires
        s.wf(),
        s.offers(Some(t)),
    ensures
        next(PhaseView::Polling, EventView::Fetched { task: Some(t), now }) == claim(t, now),
        next(PhaseView::Reconciling, EventView::Fetched { task: Some(t), now }) == claim(t, now),
        s.apply_all(claim(t, now).ops) == Some(claimed(s, t, now)),
        claimed(s, t, now).wf(),
        claimed(s, t, now).working.contains_pair(t.id, working_record(t, now)),
        !claimed(s, t, now).pending.contains_key(t.id),
{
    lemma_apply_two(
        s,
        StoreOpView::RemovePending(t),
        StoreOpView::InsertWorking(working_record(t, now)),
    );
}

/// Recording the end of the executing task moves it from working to
/// finished, with the reason "normal exit" and the exit code 0, fails on no
/// statement, and leaves the store in order.
pub proof fn lemma_complete(s: Collections, w: WorkingTaskView, now: Seq<char>)
    requires
        s.wf(),
        s.working.contains_pair(w.id, w),
    ensures
        next(PhaseView::Executing(w), EventView::Exited { now }) == complete(w, now),
        s.apply_all(complete(w, now).ops) == Some(completed(s, w, now)),
        completed(s, w, now).wf(),
        completed(s, w, now).finished.contains_pair(w.id, normal_exit(w, now)),
        !completed(s, w, now).working.contains_key(w.id),
{
    lemma_apply_two(
        s,
        StoreOpView::RemoveWorking(w),
        StoreOpView::InsertFinished(normal_exit(w, now)),
    );
}

/// When the step could not be carried out nothing is recorded: a task whose
/// child never started stays in the working collection, for the next startup
/// to clean up.
pub proof fn lemma_failure_records_nothing(s: Collections, phase: PhaseView)
    ensures
        effect(s, next(phase, EventView::Failed)) == Some(s),
        effect(s, next(phase, EventView::PollFailed)) == Some(s),
        phase is Executing ==> next(phase, EventView::Failed).phase == PhaseView::Sleeping,
{
}

/// One round of clean operation.
pub enum Round {
    /// A client submits a task under an id that the store has not seen.
    Submit(PendingTaskView),
    /// The daemon polls and is handed `task`, claims it at `started`, runs
    /// its child to the end and records that at `ended`.
    Serve { task: PendingTaskView, started: Seq<char>, ended: Seq<char> },
}

/// The store after one round; none where the round is not one of clean
/// operation: the id was taken, the task was not pending, or a statement
/// failed.
pub open spec fn round(s: Collections, r: Round) -> Option<Collections> {
    match r {
        Round::Submit(t) => if s.holds(t.id) {
            None
        } else {
            s.apply(StoreOpView::InsertPending(t))
        },
        Round::Serve { task, started, ended } => if s.offers(Some(task)) {
            let claim = next(PhaseView::Polling, EventView::Fetched { task: Some(task), now: started });
            match s.apply_all(claim.ops) {
                Some(during) => during.apply_all(
                    next(claim.phase, EventView::Exited { now: ended }).ops,
                ),
                None => None,
            }
        } else {
            None
        },
    }
}

/// The store after the rounds, in their order; none where one of them is
/// not one of clean operation.
pub open spec fn run(s: Collections, rounds: Seq<Round>) -> Option<Collections>
    decreases rounds.len(),
{
    if rounds.len() == 0 {
        Some(s)
    } else {
        match round(s, rounds[0]) {
            Some(after) => run(after, rounds.skip(1)),
            None => None,
        }
    }
}

/// Whether `t` was submitted: it was pending at the outset, or one of the
/// rounds submits it.
pub open spec fn submitted(s: Collections, rounds: Seq<Round>, t: PendingTaskView) -> bool {
    s.pending.contains_pair(t.id, t) || exists|i: int|
        0 <= i < rounds.len() && #[trigger] rounds[i] == Round::Submit(t)
}

/// Whether the finished collection holds `t` as a task that ran to its end.
pub open spec fn served(s: Collections, t: PendingTaskView) -> bool {
    &&& s.finished.contains_key(t.id)
    &&& s.finished[t.id] == normal_exit(
        working_record(t, s.finished[t.id].time_started),
        s.finished[t.id].time_finished,
    )
}

/// A round of service on a store that is in order moves the served task
/// from pending to finished and leaves every other record as it was.
pub proof fn lemma_serve(s: Collections, task: PendingTaskView, started: Seq<char>, ended: Seq<char>)
    requires
        s.wf(),
        s.offers(Some(task)),
    ensures
        round(s, Round::Serve { task, started, ended }) == Some(
            completed(claimed(s, task, started), working_record(task, started), ended),
        ),
        completed(claimed(s, task, started), working_record(task, started), ended).wf(),
        completed(claimed(s, task, started), working_record(task, started), ended).working
            == s.working,
{
    lemma_claim(s, task, started);
    lemma_complete(claimed(s, task, started), working_record(task, started), ended);
    assert(s.working.insert(task.id, working_record(task, started)).remove(task.id) =~= s.working);
}

/// A round of clean operation leaves a store that is in order in order.
pub proof fn lemma_round_keeps_order(s: Collections, r: Round)
    requires
        s.wf(),
        round(s, r) is Some,
    ensures
        round(s, r).unwrap().wf(),
{
    match r {
        Round::Submit(t) => {},
        Round::Serve { task, started, ended } => {
            lemma_serve(s, task, started, ended);
        },
    }
}

proof fn lemma_run_accounts(s: Collections, rounds: Seq<Round>, t: PendingTaskView)
    requires
        s.wf(),
        run(s, rounds) is Some,
        submitted(s, rounds, t) || served(s, t),
    ensures
        run(s, rounds).unwrap().wf(),
        run(s, rounds).unwrap().pending.contains_pair(t.id, t) || served(
            run(s, rounds).unwrap(),
            t,
        ),
    decreases rounds.len(),
{
    if rounds.len() > 0 {
        let after = round(s, rounds[0]).unwrap();
        let rest = rounds.skip(1);
        if !s.pending.contains_pair(t.id, t) && !served(s, t) {
            let i = choose|i: int| 0 <= i < rounds.len() && #[trigger] rounds[i] == Round::Submit(t);
            if i > 0 {
                assert(rest[i - 1] == rounds[i]);
            }
        }
        lemma_round_keeps_order(s, rounds[0]);
        match rounds[0] {
            Round::Submit(u) => {
                if served(s, t) {
                    assert(served(after, t));
                }
            },
            Round::Serve { task, started, ended } => {
                lemma_serve(s, task, started, ended);
                if s.pending.contains_pair(t.id, t) {
                    if task.id == t.id {
                        assert(after.finished[t.id] == normal_exit(
                            working_record(t, started),
                            ended,
                        ));
                        assert(served(after, t));
                    } else {
                        assert(after.pending.contains_pair(t.id, t));
                    }
                }
                if served(s, t) {
                    assert(after.finished[t.id] == s.finished[t.id]);
                    assert(served(after, t));
                }
            },
        }
        assert(submitted(after, rest, t) || served(after, t));
        lemma_run_accounts(after, rest, t);
    }
}

/// No task is lost under clean operation: when the rounds have run the
/// store to quiescence, so that nothing is pending, every task that was
/// submitted is in the finished collection, as a task that ran to its end,
/// and in neither of the other two.
pub proof fn lemma_no_task_lost(s: Collections, rounds: Seq<Round>, t: PendingTaskView)
    requires
        s.wf(),
        run(s, rounds) is Some,
        run(s, rounds).unwrap().offers(None),
        submitted(s, rounds, t),
    ensures
        served(run(s, rounds).unwrap(), t),
        !run(s, rounds).unwrap().pending.contains_key(t.id),
        !run(s, rounds).unwrap().working.contains_key(t.id),
        run(s, rounds).unwrap().wf(),
{
    lemma_run_accounts(s, rounds, t);
    let end = run(s, rounds).unwrap();
    assert(!end.pending.dom().contains(t.id));
}

} // verus!
