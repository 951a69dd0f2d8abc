//! Failures of the relational store, and their translation into domain
//! errors: a unique or foreign-key violation becomes the message of the
//! resource it broke, anything else stays a store error.
use vstd::prelude::*;
use crate::error::{Error, Fault};

verus! {

/// How a store operation failed, as far as the handlers care.
#[derive(Clone, Debug, PartialEq, Eq)]
pub enum StoreError {
    /// A unique constraint was violated; the constraint's name, if the store gave it.
    UniqueViolation { constraint: Option<String>, detail: String },
    /// A foreign-key constraint was violated; the constraint's name, if the store gave it.
    ForeignKeyViolation { constraint: Option<String>, detail: String },
    /// Anything else: a lost connection, a failed query, a violation of another kind.
    Other { detail: String },
}

pub open spec fn detail_of(e: StoreError) -> String {
    match e {
        StoreError::UniqueViolation { detail, .. } => detail,
        StoreError::ForeignKeyViolation { detail, .. } => detail,
        StoreError::Other { detail } => detail,
    }
}

/// A store failure that no handler translates.
pub fn unexpected(e: StoreError) -> (r: Error)
    ensures
        r == (Error::Store { detail: detail_of(e) }),
{
    match e {
        StoreError::UniqueViolation { detail, .. } => Error::Store { detail },
        StoreError::ForeignKeyViolation { detail, .. } => Error::Store { detail },
        StoreError::Other { detail } => Error::Store { detail },
    }
}

/// A resource written by a single statement.
#[derive(Clone, Copy, Debug, PartialEq, Eq, Structural)]
pub enum Entity {
    Subject,
    Class,
    Room,
    Student,
    Principal,
    Teacher,
    Mark,
}

/// What a resource's failures mean: the fault for a duplicate, for a broken
/// reference, for an update of a row that is not there, and for a delete
/// that removed nothing.
#[derive(Clone, Copy, Debug, PartialEq, Eq, Structural)]
pub struct Rules {
    pub already_exists: Option<Fault>,
    pub unknown_reference: Option<Fault>,
    pub not_found: Option<Fault>,
    pub missing: Option<Fault>,
}

pub open spec fn rules_of(e: Entity) -> Rules {
    match e {
        Entity::Subject => Rules {
            already_exists: Some(Fault::SubjectExists),
            unknown_reference: None,
            not_found: Some(Fault::SubjectNotFound),
            missing: Some(Fault::SubjectMissing),
        },
        Entity::Class => Rules {
            already_exists: Some(Fault::ClassExists),
            unknown_reference: None,
            not_found: Some(Fault::ClassNotFound),
            missing: Some(Fault::ClassMissing),
        },
        Entity::Room => Rules {
            already_exists: Some(Fault::RoomExists),
            unknown_reference: Some(Fault::UnknownSubject),
            not_found: Some(Fault::RoomNotFound),
            missing: Some(Fault::RoomMissing),
        },
        Entity::Student => Rules {
            already_exists: Some(Fault::StudentExists),
            unknown_reference: Some(Fault::StudentClassUnknown),
            not_found: Some(Fault::StudentNotFound),
            missing: Some(Fault::StudentNotFound),
        },
        Entity::Principal => Rules {
            already_exists: Some(Fault::PrincipalPhoneTaken),
            unknown_reference: None,
            not_found: Some(Fault::PrincipalNotFound),
            missing: Some(Fault::PrincipalMissing),
        },
        Entity::Teacher => Rules {
            already_exists: Some(Fault::EmployeePhoneTaken),
            unknown_reference: None,
            not_found: Some(Fault::TeacherNotFound),
            missing: Some(Fault::TeacherNotFound),
        },
        Entity::Mark => Rules {
            already_exists: None,
            unknown_reference: Some(Fault::MarkReferenceUnknown),
            not_found: None,
            missing: None,
        },
    }
}

impl Entity {
    /// The rules of this resource.
    pub fn rules(&self) -> (r: Rules)
        ensures
            r == rules_of(*self),
    {
        match self {
            Entity::Subject => Rules {
                already_exists: Some(Fault::SubjectExists),
                unknown_reference: None,
                not_found: Some(Fault::SubjectNotFound),
                missing: Some(Fault::SubjectMissing),
            },
            Entity::Class => Rules {
                already_exists: Some(Fault::ClassExists),
                unknown_reference: None,
                not_found: Some(Fault::ClassNotFound),
                missing: Some(Fault::ClassMissing),
            },
            Entity::Room => Rules {
                already_exists: Some(Fault::RoomExists),
                unknown_reference: Some(Fault::UnknownSubject),
                not_found: Some(Fault::RoomNotFound),
                missing: Some(Fault::RoomMissing),
            },
            Entity::Student => Rules {
                already_exists: Some(Fault::StudentExists),
                unknown_reference: Some(Fault::StudentClassUnknown),
                not_found: Some(Fault::StudentNotFound),
                missing: Some(Fault::StudentNotFound),
            },
            Entity::Principal => Rules {
                already_exists: Some(Fault::PrincipalPhoneTaken),
                unknown_reference: None,
                not_found: Some(Fault::PrincipalNotFound),
                missing: Some(Fault::PrincipalMissing),
            },
            Entity::Teacher => Rules {
            already_exists: Some(Fault::EmployeePhoneTaken),
            unknown_reference: None,
            not_found: Some(Fault::TeacherNotFound),
            missing: Some(Fault::TeacherNotFound),
        },
        Entity::Mark => Rules {
                already_exists: None,
                unknown_reference: Some(Fault::MarkReferenceUnknown),
                not_found: None,
                missing: None,
            },
        }
    }
}

/// The error a failed write of a resource becomes.
pub open spec fn write_error(rules: Rules, e: StoreError) -> Error {
    match e {
        StoreError::UniqueViolation { detail, .. } => match rules.already_exists {
            Some(f) => Error::Domain(f),
            None => Error::Store { detail },
        },
        StoreError::ForeignKeyViolation { detail, .. } => match rules.unknown_reference {
            Some(f) => Error::Domain(f),
            None => Error::Store { detail },
        },
        StoreError::Other { detail } => Error::Store { detail },
    }
}

/// Translates a failed write of a resource.
pub fn translate_write(entity: Entity, e: StoreError) -> (r: Error)
    ensures
        r == write_error(rules_of(entity), e),
{
    let rules = entity.rules();
    match e {
        StoreError::UniqueViolation { detail, .. } => match rules.already_exists {
            Some(f) => Error::Domain(f),
            None => Error::Store { detail },
        },
        StoreError::ForeignKeyViolation { detail, .. } => match rules.unknown_reference {
            Some(f) => Error::Domain(f),
            None => Error::Store { detail },
        },
        StoreError::Other { detail } => Error::Store { detail },
    }
}

/// The outcome of an insert: the new row, or its failure translated.
pub fn created<T>(entity: Entity, result: Result<T, StoreError>) -> (r: Result<T, Error>)
    ensures
        match result {
            Ok(v) => r == Ok::<T, Error>(v),
            Err(e) => r == Err::<T, Error>(write_error(rules_of(entity), e)),
        },
{
    match result {
        Ok(v) => Ok(v),
        Err(e) => Err(translate_write(entity, e)),
    }
}

/// The outcome of an update by id: the updated row; the resource's not-found
/// fault when no row has that id; or the failure translated.
pub fn updated<T>(entity: Entity, result: Result<Option<T>, StoreError>) -> (r: Result<T, Error>)
    requires
        rules_of(entity).not_found is Some,
    ensures
        match result {
            Ok(Some(v)) => r == Ok::<T, Error>(v),
            Ok(None) => r == Err::<T, Error>(Error::Domain(rules_of(entity).not_found->0)),
            Err(e) => r == Err::<T, Error>(write_error(rules_of(entity), e)),
        },
{
    match result {
        Ok(Some(v)) => Ok(v),
        Ok(None) => {
            let rules = entity.rules();
            Err(Error::Domain(rules.not_found.unwrap()))
        },
        Err(e) => Err(translate_write(entity, e)),
    }
}

/// The outcome of a delete by id, given how many rows it removed: the
/// resource's missing fault when none was.
pub fn removed(entity: Entity, result: Result<u64, StoreError>) -> (r: Result<(), Error>)
    requires
        rules_of(entity).missing is Some,
    ensures
        match result {
            Ok(n) => if n == 0 {
                r == Err::<(), Error>(Error::Domain(rules_of(entity).missing->0))
            } else {
                r == Ok::<(), Error>(())
            },
            Err(e) => r == Err::<(), Error>(Error::Store { detail: detail_of(e) }),
        },
{
    match result {
        Ok(0) => {
            let rules = entity.rules();
            Err(Error::Domain(rules.missing.unwrap()))
        },
        Ok(_) => Ok(()),
        Err(e) => Err(unexpected(e)),
    }
}

pub open spec fn subject_link_constraint() -> Seq<char> {
    "teachers_subject_id_fkey"@
}

pub open spec fn room_link_constraint() -> Seq<char> {
    "teachers_room_id_fkey"@
}

/// The error a failed write of a teacher's linkage row becomes: which of its
/// two foreign keys broke decides the message.
pub open spec fn linkage_error(e: StoreError) -> Error {
    match e {
        StoreError::ForeignKeyViolation { constraint: Some(c), detail } => if c@
            == subject_link_constraint() {
            Error::Domain(Fault::UnknownSubject)
        } else if c@ == room_link_constraint() {
            Error::Domain(Fault::UnknownRoom)
        } else {
            Error::Store { detail }
        },
        _ => Error::Store { detail: detail_of(e) },
    }
}

/// Translates a failed write of a teacher's linkage row.
pub fn translate_linkage(e: StoreError) -> (r: Error)
    ensures
        r == linkage_error(e),
{
    match e {
        StoreError::ForeignKeyViolation { constraint: Some(c), detail } => {
            if c == String::from_str("teachers_subject_id_fkey") {
                Error::Domain(Fault::UnknownSubject)
            } else if c == String::from_str("teachers_room_id_fkey") {
                Error::Domain(Fault::UnknownRoom)
            } else {
                Error::Store { detail }
            }
        },
        other => unexpected(other),
    }
}

/// The error a failed write of a teacher's employee row becomes: a taken
/// phone has its own message.
pub open spec fn teacher_employee_error(e: StoreError) -> Error {
    match e {
        StoreError::UniqueViolation { .. } => Error::Domain(Fault::EmployeePhoneTaken),
        _ => Error::Store { detail: detail_of(e) },
    }
}

/// Translates a failed write of a teacher's employee row.
pub fn translate_teacher_employee(e: StoreError) -> (r: Error)
    ensures
        r == teacher_employee_error(e),
{
    match e {
        StoreError::UniqueViolation { .. } => Error::Domain(Fault::EmployeePhoneTaken),
        other => unexpected(other),
    }
}

} // verus!
