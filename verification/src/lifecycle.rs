//! The cleanup task: at a fixed period it asks the store for the files that
//! are due for deletion and removes each of them, the object first and the
//! record after it. The task itself only decides; whoever drives it sleeps,
//! asks the stores, and reports what happened. It can be told to stop, and
//! does so between two runs, never in the middle of one.

use crate::database::FileDocument;
use vstd::prelude::*;

verus! {

/// Seconds between two runs of the cleanup.
pub const CLEANUP_PERIOD_SECONDS: u64 = 1800;

/// What the task is waiting for.
#[derive(Clone, Copy, Debug, PartialEq, Eq, Structural)]
pub enum Phase {
    /// The timer.
    Idle,
    /// The store's list of files that are due.
    Scanning,
    /// The outcome of deleting the current file's object.
    DeletingObject,
    /// The outcome of deleting the current file's record.
    DeletingRecord,
    /// Nothing any more: the task has stopped.
    Stopped,
}

/// What happened outside.
#[derive(Debug)]
pub enum ReaperEvent {
    /// The period has passed.
    TimerFired,
    /// The store could not list the files that are due.
    ScanFailed,
    /// The store listed these files as due.
    ScanCompleted(Vec<FileDocument>),
    /// The object store deleted the object, or had none of that key.
    ObjectDeleted,
    /// The object store could not delete the object.
    ObjectDeleteFailed,
    /// The document store deleted the record, or had none of that id.
    RecordDeleted,
    /// The document store could not delete the record.
    RecordDeleteFailed,
    /// The task is to stop once it is between two runs.
    StopRequested,
}

/// What is to be done outside.
#[derive(Clone, Debug, PartialEq, Eq)]
pub enum ReaperAction {
    /// Wait this many seconds, then report `TimerFired`.
    Sleep(u64),
    /// Ask the store for the files that are due.
    FindExpired,
    /// Delete the object of this key from the object store.
    DeleteObject(String),
    /// Delete the record of this id from the document store.
    DeleteRecord(String),
    /// Do nothing more: the task has stopped.
    Stop,
}

/// An action as a mathematical value.
pub ghost enum Task {
    Sleep(u64),
    FindExpired,
    DeleteObject(Seq<char>),
    DeleteRecord(Seq<char>),
    Stop,
}

impl View for ReaperAction {
    type V = Task;

    open spec fn view(&self) -> Task {
        match self {
            ReaperAction::Sleep(seconds) => Task::Sleep(*seconds),
            ReaperAction::FindExpired => Task::FindExpired,
            ReaperAction::DeleteObject(id) => Task::DeleteObject(id@),
            ReaperAction::DeleteRecord(id) => Task::DeleteRecord(id@),
            ReaperAction::Stop => Task::Stop,
        }
    }
}

/// The task as a mathematical value: its phase, the ids of the files of
/// this run, the place of the current file among them, and whether the task
/// is to stop when the run is over.
pub ghost struct Run {
    pub phase: Phase,
    pub queue: Seq<Seq<char>>,
    pub position: int,
    pub stopping: bool,
}

/// The ids of a run of files.
pub open spec fn ids_of(files: Seq<FileDocument>) -> Seq<Seq<char>> {
    files.map_values(|file: FileDocument| file.id@)
}

/// The views of a run of ids.
pub open spec fn texts(ids: Seq<String>) -> Seq<Seq<char>> {
    ids.map_values(|id: String| id@)
}

impl Run {
    /// Outside a run there is no queue; within one the current file is one
    /// of the queue. A task at rest has not been told to stop, and a
    /// stopped one has.
    pub open spec fn well_formed(self) -> bool {
        match self.phase {
            Phase::Idle => self.queue.len() == 0 && self.position == 0 && !self.stopping,
            Phase::Scanning => self.queue.len() == 0 && self.position == 0,
            Phase::DeletingObject | Phase::DeletingRecord => 0 <= self.position
                < self.queue.len(),
            Phase::Stopped => self.queue.len() == 0 && self.position == 0 && self.stopping,
        }
    }

    /// The task at rest.
    pub open spec fn idle() -> Run {
        Run { phase: Phase::Idle, queue: Seq::empty(), position: 0, stopping: false }
    }

    /// The task after it has stopped.
    pub open spec fn stopped() -> Run {
        Run { phase: Phase::Stopped, queue: Seq::empty(), position: 0, stopping: true }
    }

    /// What the task is waiting for the outcome of.
    pub open spec fn pending(self) -> Task {
        match self.phase {
            Phase::Idle => Task::Sleep(CLEANUP_PERIOD_SECONDS),
            Phase::Scanning => Task::FindExpired,
            Phase::DeletingObject => Task::DeleteObject(self.queue[self.position]),
            Phase::DeletingRecord => Task::DeleteRecord(self.queue[self.position]),
            Phase::Stopped => Task::Stop,
        }
    }

    /// The run is over: to rest, or to a stop where one was asked for.
    pub open spec fn finish(self) -> (Run, Task) {
        if self.stopping {
            (Run::stopped(), Task::Stop)
        } else {
            (Run::idle(), Task::Sleep(CLEANUP_PERIOD_SECONDS))
        }
    }

    /// Done with the current file: on to the next of the queue, or the run
    /// is over after the last.
    pub open spec fn advance(self) -> (Run, Task) {
        if self.position + 1 < self.queue.len() {
            (
                Run {
                    phase: Phase::DeletingObject,
                    queue: self.queue,
                    position: self.position + 1,
                    stopping: self.stopping,
                },
                Task::DeleteObject(self.queue[self.position + 1]),
            )
        } else {
            self.finish()
        }
    }

    /// The task after `event`, and what is to be done next. An event that
    /// the task is not waiting for changes nothing: what is pending is asked
    /// for again.
    pub open spec fn next(self, event: ReaperEvent) -> (Run, Task) {
        match (self.phase, event) {
            (Phase::Idle, ReaperEvent::TimerFired) => (
                Run { phase: Phase::Scanning, queue: Seq::empty(), position: 0, stopping: false },
                Task::FindExpired,
            ),
            (Phase::Idle, ReaperEvent::StopRequested) => (Run::stopped(), Task::Stop),
            (Phase::Scanning, ReaperEvent::StopRequested) => (
                Run { stopping: true, ..self },
                self.pending(),
            ),
            (Phase::DeletingObject, ReaperEvent::StopRequested) => (
                Run { stopping: true, ..self },
                self.pending(),
            ),
            (Phase::DeletingRecord, ReaperEvent::StopRequested) => (
                Run { stopping: true, ..self },
                self.pending(),
            ),
            (Phase::Scanning, ReaperEvent::ScanFailed) => self.finish(),
            (Phase::Scanning, ReaperEvent::ScanCompleted(files)) => if files@.len() == 0 {
                self.finish()
            } else {
                (
                    Run {
                        phase: Phase::DeletingObject,
                        queue: ids_of(files@),
                        position: 0,
                        stopping: self.stopping,
                    },
                    Task::DeleteObject(files@[0].id@),
                )
            },
            (Phase::DeletingObject, ReaperEvent::ObjectDeleted) => (
                Run { phase: Phase::DeletingRecord, ..self },
                Task::DeleteRecord(self.queue[self.position]),
            ),
            (Phase::DeletingObject, ReaperEvent::ObjectDeleteFailed) => self.advance(),
            (Phase::DeletingRecord, ReaperEvent::RecordDeleted) => self.advance(),
            (Phase::DeletingRecord, ReaperEvent::RecordDeleteFailed) => self.advance(),
            _ => (self, self.pending()),
        }
    }
}

/// The cleanup task.
#[derive(Debug)]
pub struct Reaper {
    phase: Phase,
    queue: Vec<String>,
    position: usize,
    stopping: bool,
}

impl View for Reaper {
    type V = Run;

    closed spec fn view(&self) -> Run {
        Run {
            phase: self.phase,
            queue: texts(self.queue@),
            position: self.position as int,
            stopping: self.stopping,
        }
    }
}

impl Reaper {
    #[verifier::type_invariant]
    spec fn inv(self) -> bool {
        self@.well_formed()
    }

    /// The task at rest. Its driver begins with what is pending: a sleep.
    pub fn new() -> (reaper: Self)
        ensures
            reaper@ == Run::idle(),
            reaper@.well_formed(),
    {
        let reaper = Reaper {
            phase: Phase::Idle,
            queue: Vec::new(),
            position: 0,
            stopping: false,
        };
        assert(texts(reaper.queue@) =~= Seq::empty());
        reaper
    }

    /// The task after it has stopped.
    fn stopped() -> (reaper: Self)
        ensures
            reaper@ == Run::stopped(),
    {
        let reaper = Reaper {
            phase: Phase::Stopped,
            queue: Vec::new(),
            position: 0,
            stopping: true,
        };
        assert(texts(reaper.queue@) =~= Seq::empty());
        reaper
    }

    /// What the task is waiting for.
    pub fn phase(&self) -> (phase: Phase)
        ensures
            phase == self@.phase,
    {
        self.phase
    }

    /// What the task is waiting for the outcome of.
    pub fn pending(&self) -> (action: ReaperAction)
        ensures
            action@ == self@.pending(),
            self@.well_formed(),
    {
        proof {
            use_type_invariant(self);
            assert(texts(self.queue@).len() == self.queue@.len());
            if self.position < self.queue@.len() {
                assert(texts(self.queue@)[self.position as int] == self.queue@[self.position as int]@);
            }
        }
        match self.phase {
            Phase::Idle => ReaperAction::Sleep(CLEANUP_PERIOD_SECONDS),
            Phase::Scanning => ReaperAction::FindExpired,
            Phase::DeletingObject => ReaperAction::DeleteObject(self.queue[self.position].clone()),
            Phase::DeletingRecord => ReaperAction::DeleteRecord(self.queue[self.position].clone()),
            Phase::Stopped => ReaperAction::Stop,
        }
    }

    /// The run is over.
    fn finish(self) -> (after: (Self, ReaperAction))
        ensures
            (after.0@, after.1@) == self@.finish(),
    {
        if self.stopping {
            (Reaper::stopped(), ReaperAction::Stop)
        } else {
            (Reaper::new(), ReaperAction::Sleep(CLEANUP_PERIOD_SECONDS))
        }
    }

    /// Done with the current file.
    fn advance(self) -> (after: (Self, ReaperAction))
        requires
            self.phase is DeletingObject || self.phase is DeletingRecord,
        ensures
            (after.0@, after.1@) == self@.advance(),
    {
        proof {
            use_type_invariant(&self);
            assert(texts(self.queue@).len() == self.queue@.len());
        }
        let len = self.queue.len();
        if self.position + 1 < len {
            let id = self.queue[self.position + 1].clone();
            assert(texts(self.queue@)[self.position + 1] == id@);
            let reaper = Reaper {
                phase: Phase::DeletingObject,
                queue: self.queue,
                position: self.position + 1,
                stopping: self.stopping,
            };
            (reaper, ReaperAction::DeleteObject(id))
        } else {
            self.finish()
        }
    }

    /// Notes that the task is to stop when the run is over.
    fn stop_later(self) -> (after: (Self, ReaperAction))
        requires
            self.phase is Scanning || self.phase is DeletingObject || self.phase
                is DeletingRecord,
        ensures
            after.0@ == (Run { stopping: true, ..self@ }),
            after.1@ == self@.pending(),
    {
        proof {
            use_type_invariant(&self);
        }
        let action = self.pending();
        let reaper = Reaper {
            phase: self.phase,
            queue: self.queue,
            position: self.position,
            stopping: true,
        };
        (reaper, action)
    }

    /// The task after `event`, and what is to be done next.
    pub fn step(self, event: ReaperEvent) -> (after: (Self, ReaperAction))
        ensures
            (after.0@, after.1@) == self@.next(event),
            self@.well_formed(),
            after.0@.well_formed(),
    {
        proof {
            use_type_invariant(&self);
            assert(texts(self.queue@).len() == self.queue@.len());
            if self.position < self.queue@.len() {
                assert(texts(self.queue@)[self.position as int] == self.queue@[self.position as int]@);
            }
        }
        match (self.phase, event) {
            (Phase::Idle, ReaperEvent::TimerFired) => {
                let reaper = Reaper {
                    phase: Phase::Scanning,
                    queue: Vec::new(),
                    position: 0,
                    stopping: false,
                };
                assert(texts(reaper.queue@) =~= Seq::empty());
                (reaper, ReaperAction::FindExpired)
            },
            (Phase::Idle, ReaperEvent::StopRequested) => (Reaper::stopped(), ReaperAction::Stop),
            (Phase::Scanning, ReaperEvent::StopRequested) => self.stop_later(),
            (Phase::DeletingObject, ReaperEvent::StopRequested) => self.stop_later(),
            (Phase::DeletingRecord, ReaperEvent::StopRequested) => self.stop_later(),
            (Phase::Scanning, ReaperEvent::ScanFailed) => self.finish(),
            (Phase::Scanning, ReaperEvent::ScanCompleted(files)) => {
                if files.len() == 0 {
                    self.finish()
                } else {
                    let queue = collect_ids(&files);
                    assert(texts(queue@).len() == queue@.len());
                    assert(ids_of(files@).len() == files@.len());
                    let first = queue[0].clone();
                    assert(texts(queue@)[0] == first@);
                    assert(ids_of(files@)[0] == files@[0].id@);
                    let reaper = Reaper {
                        phase: Phase::DeletingObject,
                        queue,
                        position: 0,
                        stopping: self.stopping,
                    };
                    (reaper, ReaperAction::DeleteObject(first))
                }
            },
            (Phase::DeletingObject, ReaperEvent::ObjectDeleted) => {
                let id = self.queue[self.position].clone();
                let reaper = Reaper {
                    phase: Phase::DeletingRecord,
                    queue: self.queue,
                    position: self.position,
                    stopping: self.stopping,
                };
                (reaper, ReaperAction::DeleteRecord(id))
            },
            (Phase::DeletingObject, ReaperEvent::ObjectDeleteFailed) => self.advance(),
            (Phase::DeletingRecord, ReaperEvent::RecordDeleted) => self.advance(),
            (Phase::DeletingRecord, ReaperEvent::RecordDeleteFailed) => self.advance(),
            _ => {
                let action = self.pending();
                (self, action)
            },
        }
    }
}

/// The ids of `files`, in their order.
pub fn collect_ids(files: &Vec<FileDocument>) -> (ids: Vec<String>)
    ensures
        texts(ids@) == ids_of(files@),
{
    let mut ids: Vec<String> = Vec::new();
    let mut i: usize = 0;
    while i < files.len()
        invariant
            i <= files@.len(),
            ids@.len() == i,
            forall|k: int| 0 <= k < i ==> (#[trigger] ids@[k])@ == files@[k].id@,
        decreases files@.len() - i,
    {
        ids.push(files[i].id.clone());
        i = i + 1;
    }
    assert(texts(ids@) =~= ids_of(files@));
    ids
}

/// Where the task stands once the current file has been dealt with: after
/// the object's deletion failed, or after it succeeded and the record's
/// deletion succeeded or failed.
pub open spec fn after_file(run: Run, object_deleted: bool, record_deleted: bool) -> Run {
    if !object_deleted {
        run.next(ReaperEvent::ObjectDeleteFailed).0
    } else if record_deleted {
        run.next(ReaperEvent::ObjectDeleted).0.next(ReaperEvent::RecordDeleted).0
    } else {
        run.next(ReaperEvent::ObjectDeleted).0.next(ReaperEvent::RecordDeleteFailed).0
    }
}

/// Whatever happens outside, the task stays well formed and says what to do
/// next: no outcome is an error to it.
pub proof fn law_step_keeps_well_formed(run: Run, event: ReaperEvent)
    requires
        run.well_formed(),
    ensures
        run.next(event).0.well_formed(),
{
    if let ReaperEvent::ScanCompleted(files) = event {
        assert(ids_of(files@).len() == files@.len());
    }
}

/// The deletion of a record is asked for only for the current file, and
/// only once the object store has reported its object deleted.
pub proof fn law_record_follows_object(run: Run, event: ReaperEvent)
    requires
        run.well_formed(),
        run.next(event).1 is DeleteRecord,
    ensures
        run.next(event).1 == Task::DeleteRecord(run.queue[run.position]),
        run.phase is DeletingObject || run.phase is DeletingRecord,
        run.phase is DeletingObject ==> event is ObjectDeleted,
        run.next(event).0.phase is DeletingRecord,
{
    if let ReaperEvent::ScanCompleted(files) = event {
        assert(ids_of(files@).len() == files@.len());
    }
}

/// When the object could not be deleted its record is left alone, and the
/// task goes on with the next file.
pub proof fn law_failed_object_keeps_record(run: Run)
    requires
        run.well_formed(),
        run.phase is DeletingObject,
    ensures
        run.next(ReaperEvent::ObjectDeleteFailed) == run.advance(),
        !(run.next(ReaperEvent::ObjectDeleteFailed).1 is DeleteRecord),
{
}

/// Whatever the outcome for the current file, the task goes on with the
/// next file of the same queue, and the run is over only after the last.
pub proof fn law_failure_never_ends_the_run(run: Run, object_deleted: bool, record_deleted: bool)
    requires
        run.well_formed(),
        run.phase is DeletingObject,
    ensures
        after_file(run, object_deleted, record_deleted) == run.advance().0,
        run.position + 1 < run.queue.len() ==> after_file(run, object_deleted, record_deleted)
            == (Run { phase: Phase::DeletingObject, position: run.position + 1, ..run }),
        run.position + 1 == run.queue.len() ==> after_file(run, object_deleted, record_deleted)
            == run.finish().0,
{
}

/// Where the task stands once the next files of the queue have been dealt
/// with, one outcome for each: whether its object was deleted, and whether
/// its record was.
pub open spec fn after_files(run: Run, outcomes: Seq<(bool, bool)>) -> Run
    decreases outcomes.len(),
{
    if outcomes.len() == 0 {
        run
    } else {
        after_file(after_files(run, outcomes.drop_last()), outcomes.last().0, outcomes.last().1)
    }
}

/// However the deletions go, every file of the queue gets its turn, in the
/// order of the queue: after as many outcomes as files remain the run is
/// over, and after fewer the task is at the file that comes next.
pub proof fn law_every_file_gets_its_turn(run: Run, outcomes: Seq<(bool, bool)>)
    requires
        run.well_formed(),
        run.phase is DeletingObject,
        outcomes.len() <= run.queue.len() - run.position,
    ensures
        run.position + outcomes.len() < run.queue.len() ==> after_files(run, outcomes) == (Run {
            position: run.position + outcomes.len(),
            ..run
        }),
        run.position + outcomes.len() == run.queue.len() ==> after_files(run, outcomes)
            == run.finish().0,
    decreases outcomes.len(),
{
    if outcomes.len() > 0 {
        let earlier = outcomes.drop_last();
        law_every_file_gets_its_turn(run, earlier);
        let reached = after_files(run, earlier);
        assert(reached == (Run { position: run.position + earlier.len(), ..run }));
        law_failure_never_ends_the_run(reached, outcomes.last().0, outcomes.last().1);
    }
}

/// A file whose id has been dealt with before is dealt with in the same
/// way again: first its object, then its record, and neither report of a
/// deletion is an error. The stores answer a deletion of what is gone
/// already as they answer any other.
pub proof fn law_second_reaping_goes_like_the_first(first: Run, second: Run)
    requires
        first.well_formed(),
        second.well_formed(),
        first.phase is DeletingObject,
        second.phase is DeletingObject,
        first.queue[first.position] == second.queue[second.position],
    ensures
        first.pending() == second.pending(),
        first.next(ReaperEvent::ObjectDeleted).1 == second.next(ReaperEvent::ObjectDeleted).1,
        second.next(ReaperEvent::ObjectDeleted).1 == Task::DeleteRecord(
            second.queue[second.position],
        ),
        after_file(second, true, true) == second.advance().0,
{
}

/// A scan that fails ends the run at once, and the next timer starts a new
/// scan all the same.
pub proof fn law_failed_scan_ends_only_the_run(run: Run)
    requires
        run.well_formed(),
        run.phase is Scanning,
        !run.stopping,
    ensures
        run.next(ReaperEvent::ScanFailed) == (Run::idle(), Task::Sleep(CLEANUP_PERIOD_SECONDS)),
        run.next(ReaperEvent::ScanFailed).0.next(ReaperEvent::TimerFired).1 == Task::FindExpired,
        run.next(ReaperEvent::ScanFailed).0.next(ReaperEvent::TimerFired).0.phase is Scanning,
{
}

/// A scan that lists files starts with the object of the first; one that
/// lists none ends the run.
pub proof fn law_scan_starts_with_first_file(run: Run, files: Vec<FileDocument>)
    requires
        run.well_formed(),
        run.phase is Scanning,
    ensures
        files@.len() == 0 ==> run.next(ReaperEvent::ScanCompleted(files)) == run.finish(),
        files@.len() > 0 ==> run.next(ReaperEvent::ScanCompleted(files)) == (
            Run {
                phase: Phase::DeletingObject,
                queue: ids_of(files@),
                position: 0,
                stopping: run.stopping,
            },
            Task::DeleteObject(files@[0].id@),
        ),
{
}

/// A task at rest stops as soon as it is told to. In the middle of a run
/// the request changes nothing but is kept in mind: what is pending stays
/// pending, and the files of the run are dealt with as without it.
pub proof fn law_stop_waits_for_the_run(run: Run, object_deleted: bool, record_deleted: bool)
    requires
        run.well_formed(),
    ensures
        run.phase is Idle ==> run.next(ReaperEvent::StopRequested) == (
            Run::stopped(),
            Task::Stop,
        ),
        !(run.phase is Idle) ==> run.next(ReaperEvent::StopRequested).1 == run.pending(),
        !(run.phase is Idle) ==> run.next(ReaperEvent::StopRequested).0 == (Run {
            stopping: true,
            ..run
        }),
        run.phase is DeletingObject && run.position + 1 < run.queue.len() ==> after_file(
            run.next(ReaperEvent::StopRequested).0,
            object_deleted,
            record_deleted,
        ) == (Run { stopping: true, ..after_file(run, object_deleted, record_deleted) }),
        run.phase is DeletingObject && run.position + 1 == run.queue.len() ==> after_file(
            run.next(ReaperEvent::StopRequested).0,
            object_deleted,
            record_deleted,
        ) == Run::stopped(),
{
}

/// A task that has stopped stays stopped and asks for nothing more.
pub proof fn law_stopped_task_stays_stopped(run: Run, event: ReaperEvent)
    requires
        run.well_formed(),
        run.phase is Stopped,
    ensures
        run.next(event) == (run, Task::Stop),
{
}

/// A task stops only when it was told to.
pub proof fn law_task_stops_only_on_request(run: Run, event: ReaperEvent)
    requires
        run.well_formed(),
        run.next(event).0.phase is Stopped,
    ensures
        run.stopping || event is StopRequested,
{
    if let ReaperEvent::ScanCompleted(files) = event {
        assert(ids_of(files@).len() == files@.len());
    }
}

} // verus!
