use school_backend::credentials::verify_password;
use school_backend::error::{Error, Fault};
use school_backend::marks::mark_author;
use school_backend::models::{Employee, Role, Room, Subject, Timestamp};
use school_backend::store::{created, removed, translate_linkage, updated, Entity, StoreError};
use school_backend::teachers::{Action, Event, NewTeacher, Stage, TeacherChange, TeacherWrite, WriteMode};
use school_backend::token::Claims;

fn unique() -> StoreError {
    StoreError::UniqueViolation { constraint: Some("subjects_subject_key".to_owned()), detail: "dup".to_owned() }
}

fn fk(name: &str) -> StoreError {
    StoreError::ForeignKeyViolation { constraint: Some(name.to_owned()), detail: "fk".to_owned() }
}

fn employee(id: i32, phone: &str) -> Employee {
    Employee {
        id,
        first_name: "Иван".to_owned(),
        last_name: "Петров".to_owned(),
        middle_name: None,
        employed_at: Timestamp { unix_nanos: 1_700_000_000_000_000_000 },
        phone: phone.to_owned(),
        mfa: false,
        role: Role::Teacher,
    }
}

fn new_teacher(subject_id: i32, room_id: Option<i32>) -> NewTeacher {
    NewTeacher {
        first_name: "Иван".to_owned(),
        last_name: "Петров".to_owned(),
        middle_name: None,
        subject_id,
        room_id,
        phone: "+1".to_owned(),
        password: "p".to_owned(),
    }
}

#[test]
fn subject_room_teacher_mark_scenario() {
    let math = Subject { id: 1, subject: "Math".to_owned() };
    assert_eq!(created(Entity::Subject, Ok(math.clone())), Ok(math));

    let err = created::<Subject>(Entity::Subject, Err(unique())).unwrap_err();
    assert_eq!(err, Error::Domain(Fault::SubjectExists));
    let response = err.into_response();
    assert_eq!(response.status, 400);
    assert_eq!(
        response.body,
        "{\"message\":\"Такой предмет уже существует\",\"field\":null,\"success\":false}"
    );

    let room = Room { id: 1, room: "101".to_owned(), subject_id: Some(1) };
    assert_eq!(created(Entity::Room, Ok(room.clone())), Ok(room));

    let mut w = TeacherWrite::create(new_teacher(1, Some(1)));
    assert_eq!(w.mode, WriteMode::Create);
    let hash = w.fields.password_hash.clone().unwrap();
    assert_eq!(verify_password("p", &hash), Ok(true));
    assert_eq!(w.step(Event::Begun), Action::WriteEmployee);
    assert_eq!(w.step(Event::EmployeeWritten(Some(employee(1, "+1")))), Action::WriteLinkage);
    assert_eq!(w.step(Event::LinkageWritten), Action::Commit);
    assert_eq!(w.step(Event::Committed), Action::Finish);
    let teacher = w.into_teacher();
    assert_eq!(teacher.employee, employee(1, "+1"));
    assert_eq!(teacher.subject_id, 1);
    assert_eq!(teacher.room_id, Some(1));

    let claims = Claims { employee_id: 1, role: Role::Teacher, expires_at: 0 };
    assert_eq!(mark_author(&claims, Some(42)), Ok(1));
    assert_eq!(mark_author(&claims, None), Ok(1));
}

#[test]
fn principal_must_name_the_teacher_of_a_mark() {
    let claims = Claims { employee_id: 9, role: Role::Principal, expires_at: 0 };
    assert_eq!(mark_author(&claims, Some(3)), Ok(3));
    assert_eq!(mark_author(&claims, None), Err(Error::Domain(Fault::TeacherIdRequired)));
}

#[test]
fn failed_linkage_aborts_teacher_creation() {
    let mut w = TeacherWrite::create(new_teacher(99, None));
    assert_eq!(w.step(Event::Begun), Action::WriteEmployee);
    assert_eq!(w.step(Event::EmployeeWritten(Some(employee(2, "+1")))), Action::WriteLinkage);
    assert_eq!(w.step(Event::Failed(fk("teachers_subject_id_fkey"))), Action::Abort);
    assert_eq!(w.stage, Stage::Done);
    assert_eq!(w.into_error(), Error::Domain(Fault::UnknownSubject));
}

#[test]
fn unknown_room_aborts_teacher_creation() {
    let mut w = TeacherWrite::create(new_teacher(1, Some(77)));
    w.step(Event::Begun);
    w.step(Event::EmployeeWritten(Some(employee(2, "+1"))));
    assert_eq!(w.step(Event::Failed(fk("teachers_room_id_fkey"))), Action::Abort);
    let err = w.into_error();
    assert_eq!(err, Error::Domain(Fault::UnknownRoom));
    assert_eq!(err.text(), "Кабинета с таким ИД не существует");
}

#[test]
fn duplicate_phone_aborts_teacher_creation() {
    let mut w = TeacherWrite::create(new_teacher(1, None));
    w.step(Event::Begun);
    assert_eq!(w.step(Event::Failed(unique())), Action::Abort);
    assert_eq!(w.into_error(), Error::Domain(Fault::EmployeePhoneTaken));
}

#[test]
fn failed_commit_and_begin_are_store_errors() {
    let mut w = TeacherWrite::create(new_teacher(1, None));
    let down = StoreError::Other { detail: "connection reset".to_owned() };
    assert_eq!(w.step(Event::Failed(down)), Action::Abort);
    assert_eq!(w.into_error(), Error::Store { detail: "connection reset".to_owned() });

    let mut w = TeacherWrite::create(new_teacher(1, None));
    w.step(Event::Begun);
    w.step(Event::EmployeeWritten(Some(employee(2, "+1"))));
    w.step(Event::LinkageWritten);
    let lost = StoreError::Other { detail: "lost".to_owned() };
    assert_eq!(w.step(Event::Failed(lost)), Action::Abort);
}

#[test]
fn updating_a_missing_teacher_fails() {
    let change = TeacherChange {
        first_name: "A".to_owned(),
        last_name: "B".to_owned(),
        middle_name: Some("C".to_owned()),
        subject_id: 1,
        room_id: None,
        phone: "+2".to_owned(),
        password: None,
    };
    let mut w = TeacherWrite::update(5, change);
    assert_eq!(w.mode, WriteMode::Update { id: 5 });
    assert_eq!(w.fields.password_hash, None);
    assert!(w.accepts(&Event::Begun));
    assert!(!w.accepts(&Event::Committed));
    w.step(Event::Begun);
    assert_eq!(w.step(Event::EmployeeWritten(None)), Action::Abort);
    assert_eq!(w.into_error(), Error::Domain(Fault::TeacherNotFound));
}

#[test]
fn teacher_update_with_password_rehashes() {
    let change = TeacherChange {
        first_name: "A".to_owned(),
        last_name: "B".to_owned(),
        middle_name: None,
        subject_id: 2,
        room_id: Some(4),
        phone: "+2".to_owned(),
        password: Some("new".to_owned()),
    };
    let w = TeacherWrite::update(5, change);
    let h = w.fields.password_hash.clone().unwrap();
    assert_eq!(verify_password("new", &h), Ok(true));
}

#[test]
fn entity_write_translations() {
    assert_eq!(
        created::<Room>(Entity::Room, Err(fk("rooms_subject_id_fkey"))),
        Err(Error::Domain(Fault::UnknownSubject))
    );
    assert_eq!(
        created::<()>(Entity::Student, Err(fk("students_class_id_fkey"))),
        Err(Error::Domain(Fault::StudentClassUnknown))
    );
    assert_eq!(
        created::<()>(Entity::Student, Err(unique())),
        Err(Error::Domain(Fault::StudentExists))
    );
    assert_eq!(
        created::<()>(Entity::Class, Err(unique())),
        Err(Error::Domain(Fault::ClassExists))
    );
    assert_eq!(
        created::<()>(Entity::Class, Err(fk("x"))),
        Err(Error::Store { detail: "fk".to_owned() })
    );
    assert_eq!(
        created::<()>(Entity::Principal, Err(unique())),
        Err(Error::Domain(Fault::PrincipalPhoneTaken))
    );
    assert_eq!(
        created::<()>(Entity::Mark, Err(fk("marks_student_id_fkey"))),
        Err(Error::Domain(Fault::MarkReferenceUnknown))
    );
    assert_eq!(
        created::<()>(Entity::Mark, Err(unique())),
        Err(Error::Store { detail: "dup".to_owned() })
    );
}

#[test]
fn updates_of_missing_rows() {
    assert_eq!(updated::<Subject>(Entity::Subject, Ok(None)), Err(Error::Domain(Fault::SubjectNotFound)));
    assert_eq!(updated::<()>(Entity::Class, Ok(None)), Err(Error::Domain(Fault::ClassNotFound)));
    assert_eq!(updated::<()>(Entity::Room, Ok(None)), Err(Error::Domain(Fault::RoomNotFound)));
    assert_eq!(updated::<()>(Entity::Student, Ok(None)), Err(Error::Domain(Fault::StudentNotFound)));
    let err = updated::<()>(Entity::Principal, Ok(None)).unwrap_err();
    assert_eq!(err, Error::Domain(Fault::PrincipalNotFound));
    assert_eq!(err.status(), 404);
    assert_eq!(updated(Entity::Room, Ok(Some(3))), Ok(3));
    assert_eq!(
        updated::<()>(Entity::Subject, Err(unique())),
        Err(Error::Domain(Fault::SubjectExists))
    );
}

#[test]
fn deletes_that_remove_nothing() {
    assert_eq!(removed(Entity::Subject, Ok(0)), Err(Error::Domain(Fault::SubjectMissing)));
    assert_eq!(removed(Entity::Class, Ok(0)), Err(Error::Domain(Fault::ClassMissing)));
    assert_eq!(removed(Entity::Room, Ok(0)), Err(Error::Domain(Fault::RoomMissing)));
    assert_eq!(removed(Entity::Student, Ok(0)), Err(Error::Domain(Fault::StudentNotFound)));
    assert_eq!(removed(Entity::Principal, Ok(0)), Err(Error::Domain(Fault::PrincipalMissing)));
    assert_eq!(removed(Entity::Teacher, Ok(0)), Err(Error::Domain(Fault::TeacherNotFound)));
    assert_eq!(removed(Entity::Subject, Ok(1)), Ok(()));
    assert_eq!(
        removed(Entity::Room, Err(fk("teachers_room_id_fkey"))),
        Err(Error::Store { detail: "fk".to_owned() })
    );
}

#[test]
fn linkage_translation_by_constraint() {
    assert_eq!(translate_linkage(fk("teachers_subject_id_fkey")), Error::Domain(Fault::UnknownSubject));
    assert_eq!(translate_linkage(fk("teachers_room_id_fkey")), Error::Domain(Fault::UnknownRoom));
    assert_eq!(translate_linkage(fk("other_fkey")), Error::Store { detail: "fk".to_owned() });
    assert_eq!(
        translate_linkage(StoreError::ForeignKeyViolation { constraint: None, detail: "d".to_owned() }),
        Error::Store { detail: "d".to_owned() }
    );
    assert_eq!(translate_linkage(unique()), Error::Store { detail: "dup".to_owned() });
}
