//! Writing a teacher: the employee row and the linkage row that ties the
//! employee to a subject and a room are written in one transaction, which is
//! committed only when both writes succeeded and rolled back on any failure.
//!
//! The write is a state machine. The caller opens a transaction, performs
//! each action the machine asks for, and hands the outcome back as an event.
use vstd::prelude::*;
use crate::credentials::{hash_password, password_matches, phc_parses, MAX_PASSWORD_CHARS};
use crate::error::{Error, Fault};
use crate::models::{Employee, Teacher};
use crate::store::{detail_of, linkage_error, teacher_employee_error, translate_linkage, translate_teacher_employee, unexpected, StoreError};

verus! {

/// A new teacher, as a client asks for one.
#[derive(Clone, Debug, PartialEq, Eq)]
pub struct NewTeacher {
    pub first_name: String,
    pub last_name: String,
    pub middle_name: Option<String>,
    pub subject_id: i32,
    pub room_id: Option<i32>,
    pub phone: String,
    pub password: String,
}

/// A change to a teacher: without a password the stored hash is kept.
#[derive(Clone, Debug, PartialEq, Eq)]
pub struct TeacherChange {
    pub first_name: String,
    pub last_name: String,
    pub middle_name: Option<String>,
    pub subject_id: i32,
    pub room_id: Option<i32>,
    pub phone: String,
    pub password: Option<String>,
}

/// Whether the employee row is inserted, or the teacher with this id updated.
#[derive(Clone, Copy, Debug, PartialEq, Eq, Structural)]
pub enum WriteMode {
    Create,
    Update { id: i32 },
}

/// What the employee statement writes. An update with no hash keeps the
/// stored one; an insert always has one.
#[derive(Clone, Debug, PartialEq, Eq)]
pub struct EmployeeFields {
    pub first_name: String,
    pub last_name: String,
    pub middle_name: Option<String>,
    pub phone: String,
    pub password_hash: Option<String>,
}

/// Where a teacher write stands.
#[derive(Clone, Copy, Debug, PartialEq, Eq, Structural)]
pub enum Stage {
    /// Waiting for the transaction to open.
    Beginning,
    /// Waiting for the employee statement.
    WritingEmployee,
    /// Waiting for the linkage statement.
    WritingLinkage,
    /// Waiting for the commit.
    Committing,
    /// Finished or aborted.
    Done,
}

/// What the caller is asked to do next.
#[derive(Clone, Copy, Debug, PartialEq, Eq, Structural)]
pub enum Action {
    /// Run the employee statement (`fields`, and `mode`) in the transaction.
    WriteEmployee,
    /// Run the linkage statement for the written employee in the transaction.
    WriteLinkage,
    /// Commit the transaction.
    Commit,
    /// Roll the transaction back and fail with the recorded error.
    Abort,
    /// The write is committed: answer with the teacher.
    Finish,
}

/// The outcome of the last action.
#[derive(Clone, Debug, PartialEq, Eq)]
pub enum Event {
    /// The transaction is open.
    Begun,
    /// The employee statement ran: the row it wrote, or none when no teacher
    /// has the id to update.
    EmployeeWritten(Option<Employee>),
    /// The linkage statement ran.
    LinkageWritten,
    /// The transaction is committed.
    Committed,
    /// The store operation failed.
    Failed(StoreError),
}

/// Whether an event answers what a stage waits for; a failure answers anything.
pub open spec fn fits(stage: Stage, event: Event) -> bool {
    match event {
        Event::Failed(_) => stage != Stage::Done,
        Event::Begun => stage == Stage::Beginning,
        Event::EmployeeWritten(_) => stage == Stage::WritingEmployee,
        Event::LinkageWritten => stage == Stage::WritingLinkage,
        Event::Committed => stage == Stage::Committing,
    }
}

/// The stage after an event. Anything but the success that a stage waits
/// for ends the write.
pub open spec fn advance(stage: Stage, event: Event) -> Stage {
    match (stage, event) {
        (Stage::Beginning, Event::Begun) => Stage::WritingEmployee,
        (Stage::WritingEmployee, Event::EmployeeWritten(Some(_))) => Stage::WritingLinkage,
        (Stage::WritingLinkage, Event::LinkageWritten) => Stage::Committing,
        _ => Stage::Done,
    }
}

/// The action asked for after an event in a stage.
pub open spec fn action_after(stage: Stage, event: Event) -> Action {
    match (stage, event) {
        (Stage::Beginning, Event::Begun) => Action::WriteEmployee,
        (Stage::WritingEmployee, Event::EmployeeWritten(Some(_))) => Action::WriteLinkage,
        (Stage::WritingLinkage, Event::LinkageWritten) => Action::Commit,
        (Stage::Committing, Event::Committed) => Action::Finish,
        _ => Action::Abort,
    }
}

/// The error a write fails with when an event aborts it.
pub open spec fn abort_error(stage: Stage, event: Event) -> Error {
    match event {
        Event::Failed(e) => match stage {
            Stage::WritingEmployee => teacher_employee_error(e),
            Stage::WritingLinkage => linkage_error(e),
            _ => Error::Store { detail: detail_of(e) },
        },
        _ => Error::Domain(Fault::TeacherNotFound),
    }
}

/// A teacher write in progress.
pub struct TeacherWrite {
    pub mode: WriteMode,
    pub fields: EmployeeFields,
    pub subject_id: i32,
    pub room_id: Option<i32>,
    pub stage: Stage,
    /// The employee row, once written.
    pub employee: Option<Employee>,
    /// The error, once aborted.
    pub failure: Option<Error>,
}

impl TeacherWrite {
    /// Past the employee statement, the written row is known.
    pub open spec fn wf(&self) -> bool {
        (self.stage == Stage::WritingLinkage || self.stage == Stage::Committing) ==> self.employee
            is Some
    }

    /// Starts creating a teacher: the password is hashed with a fresh salt,
    /// and the caller opens a transaction.
    pub fn create(req: NewTeacher) -> (r: TeacherWrite)
        requires
            req.password@.len() <= MAX_PASSWORD_CHARS,
        ensures
            r.wf(),
            r.stage == Stage::Beginning,
            r.mode == WriteMode::Create,
            r.fields.first_name == req.first_name,
            r.fields.last_name == req.last_name,
            r.fields.middle_name == req.middle_name,
            r.fields.phone == req.phone,
            r.fields.password_hash matches Some(h) && phc_parses(h@) && password_matches(
                req.password@,
                h@,
            ),
            r.subject_id == req.subject_id,
            r.room_id == req.room_id,
            r.employee is None,
            r.failure is None,
    {
        let hash = hash_password(req.password.as_str());
        TeacherWrite {
            mode: WriteMode::Create,
            fields: EmployeeFields {
                first_name: req.first_name,
                last_name: req.last_name,
                middle_name: req.middle_name,
                phone: req.phone,
                password_hash: Some(hash),
            },
            subject_id: req.subject_id,
            room_id: req.room_id,
            stage: Stage::Beginning,
            employee: None,
            failure: None,
        }
    }

    /// Starts updating the teacher with id `id`: a new password is hashed
    /// with a fresh salt, and the caller opens a transaction.
    pub fn update(id: i32, req: TeacherChange) -> (r: TeacherWrite)
        requires
            req.password matches Some(p) ==> p@.len() <= MAX_PASSWORD_CHARS,
        ensures
            r.wf(),
            r.stage == Stage::Beginning,
            r.mode == (WriteMode::Update { id }),
            r.fields.first_name == req.first_name,
            r.fields.last_name == req.last_name,
            r.fields.middle_name == req.middle_name,
            r.fields.phone == req.phone,
            req.password is None <==> r.fields.password_hash is None,
            r.fields.password_hash matches Some(h) ==> phc_parses(h@) && password_matches(
                req.password->0@,
                h@,
            ),
            r.subject_id == req.subject_id,
            r.room_id == req.room_id,
            r.employee is None,
            r.failure is None,
    {
        let hash = match &req.password {
            Some(p) => Some(hash_password(p.as_str())),
            None => None,
        };
        TeacherWrite {
            mode: WriteMode::Update { id },
            fields: EmployeeFields {
                first_name: req.first_name,
                last_name: req.last_name,
                middle_name: req.middle_name,
                phone: req.phone,
                password_hash: hash,
            },
            subject_id: req.subject_id,
            room_id: req.room_id,
            stage: Stage::Beginning,
            employee: None,
            failure: None,
        }
    }

    /// Whether `event` answers what this write waits for.
    pub fn accepts(&self, event: &Event) -> (r: bool)
        ensures
            r == fits(self.stage, *event),
    {
        match event {
            Event::Failed(_) => self.stage != Stage::Done,
            Event::Begun => self.stage == Stage::Beginning,
            Event::EmployeeWritten(_) => self.stage == Stage::WritingEmployee,
            Event::LinkageWritten => self.stage == Stage::WritingLinkage,
            Event::Committed => self.stage == Stage::Committing,
        }
    }

    /// Takes the outcome of the last action and says what to do next.
    pub fn step(&mut self, event: Event) -> (a: Action)
        requires
            old(self).wf(),
            fits(old(self).stage, event),
        ensures
            final(self).wf(),
            final(self).stage == advance(old(self).stage, event),
            a == action_after(old(self).stage, event),
            final(self).mode == old(self).mode,
            final(self).fields == old(self).fields,
            final(self).subject_id == old(self).subject_id,
            final(self).room_id == old(self).room_id,
            a == Action::Abort ==> final(self).failure == Some(abort_error(old(self).stage, event)),
            a != Action::Abort ==> final(self).failure == old(self).failure,
            event matches Event::EmployeeWritten(Some(e)) ==> final(self).employee == Some(e),
            !(event is EmployeeWritten) ==> final(self).employee == old(self).employee,
    {
        match event {
            Event::Begun => {
                self.stage = Stage::WritingEmployee;
                Action::WriteEmployee
            },
            Event::EmployeeWritten(Some(e)) => {
                self.employee = Some(e);
                self.stage = Stage::WritingLinkage;
                Action::WriteLinkage
            },
            Event::EmployeeWritten(None) => {
                self.employee = None;
                self.failure = Some(Error::Domain(Fault::TeacherNotFound));
                self.stage = Stage::Done;
                Action::Abort
            },
            Event::LinkageWritten => {
                self.stage = Stage::Committing;
                Action::Commit
            },
            Event::Committed => {
                self.stage = Stage::Done;
                Action::Finish
            },
            Event::Failed(e) => {
                let err = match self.stage {
                    Stage::WritingEmployee => translate_teacher_employee(e),
                    Stage::WritingLinkage => translate_linkage(e),
                    _ => unexpected(e),
                };
                self.failure = Some(err);
                self.stage = Stage::Done;
                Action::Abort
            },
        }
    }

    /// The teacher that a finished write stored: the written employee row,
    /// with the subject and room of its linkage row.
    pub fn into_teacher(self) -> (r: Teacher)
        requires
            self.employee is Some,
        ensures
            r.employee == self.employee->0,
            r.subject_id == self.subject_id,
            r.room_id == self.room_id,
    {
        let employee = self.employee.unwrap();
        Teacher { employee, room_id: self.room_id, subject_id: self.subject_id }
    }

    /// The error an aborted write failed with.
    pub fn into_error(self) -> (r: Error)
        requires
            self.failure is Some,
        ensures
            r == self.failure->0,
    {
        self.failure.unwrap()
    }
}

/// The stage a write reaches through a run of events from its start; a
/// finished write ignores whatever follows.
pub open spec fn run(events: Seq<Event>) -> Stage
    decreases events.len(),
{
    if events.len() == 0 {
        Stage::Beginning
    } else {
        let s = run(events.drop_last());
        if s == Stage::Done {
            Stage::Done
        } else {
            advance(s, events.last())
        }
    }
}

proof fn lemma_run_history(events: Seq<Event>, k: int)
    requires
        0 <= k <= events.len(),
    ensures
        run(events.take(k)) != Stage::Done ==> forall|j: int|
            0 <= j < k ==> !(#[trigger] events[j] is Failed),
        (run(events.take(k)) == Stage::WritingLinkage || run(events.take(k)) == Stage::Committing)
            ==> exists|j: int| 0 <= j < k && #[trigger] events[j] matches Event::EmployeeWritten(Some(_)),
    decreases k,
{
    if k > 0 {
        lemma_run_history(events, k - 1);
        assert(events.take(k).drop_last() =~= events.take(k - 1));
        assert(events.take(k).last() == events[k - 1]);
    }
}

/// A teacher write is all or nothing: whenever a run of events leads the
/// write to ask for the commit, no store operation of the run failed up to
/// that point, the employee statement wrote a row, and the linkage statement
/// ran. So a failed linkage write is never committed: the transaction that
/// holds the employee row is rolled back.
pub proof fn lemma_commit_needs_both_writes(events: Seq<Event>, i: int)
    requires
        0 <= i < events.len(),
        run(events.take(i)) != Stage::Done,
        action_after(run(events.take(i)), events[i]) == Action::Commit,
    ensures
        forall|j: int| 0 <= j <= i ==> !(#[trigger] events[j] is Failed),
        exists|j: int| 0 <= j < i && #[trigger] events[j] matches Event::EmployeeWritten(Some(_)),
        events[i] == Event::LinkageWritten,
{
    lemma_run_history(events, i);
}

/// A failure ends a write: from the event that reports it on, the write is
/// done, and it never asks for the commit.
pub proof fn lemma_failure_ends_write(events: Seq<Event>, j: int, k: int)
    requires
        0 <= j < k <= events.len(),
        events[j] is Failed,
    ensures
        run(events.take(k)) == Stage::Done,
        k < events.len() ==> action_after(run(events.take(k)), events[k]) != Action::Commit,
    decreases k,
{
    assert(events.take(k).drop_last() =~= events.take(k - 1));
    assert(events.take(k).last() == events[k - 1]);
    if k - 1 > j {
        lemma_failure_ends_write(events, j, k - 1);
    }
}

} // verus!
