//! Records of the relational store, as the library hands them around.
use vstd::prelude::*;

verus! {

/// The role of an employee: a closed set, stored as a lowercase word.
#[derive(Clone, Copy, Debug, PartialEq, Eq, Structural)]
pub enum Role {
    Teacher,
    Principal,
}

/// The lowercase word that stands for a role in the store and in tokens.
pub open spec fn role_word(r: Role) -> Seq<char> {
    match r {
        Role::Teacher => "teacher"@,
        Role::Principal => "principal"@,
    }
}

impl Role {
    /// The lowercase word of this role.
    pub fn as_str(&self) -> (r: &'static str)
        ensures
            r@ == role_word(*self),
    {
        match self {
            Role::Teacher => "teacher",
            Role::Principal => "principal",
        }
    }

    /// Reads a role from its lowercase word; any other text is no role.
    pub fn parse(s: &str) -> (r: Option<Role>)
        ensures
            r matches Some(role) ==> role_word(role) == s@,
            r is None ==> s@ != role_word(Role::Teacher) && s@ != role_word(Role::Principal),
    {
        let t = String::from_str("teacher");
        let p = String::from_str("principal");
        let given = String::from_str(s);
        if given == t {
            Some(Role::Teacher)
        } else if given == p {
            Some(Role::Principal)
        } else {
            None
        }
    }
}

/// A moment in time as nanoseconds since the Unix epoch (UTC).
#[derive(Clone, Copy, Debug, PartialEq, Eq, Structural)]
pub struct Timestamp {
    pub unix_nanos: i128,
}

/// A school subject.
#[derive(Clone, Debug, PartialEq, Eq)]
pub struct Subject {
    pub id: i32,
    pub subject: String,
}

/// A room, optionally tied to one subject.
#[derive(Clone, Debug, PartialEq, Eq)]
pub struct Room {
    pub id: i32,
    pub room: String,
    pub subject_id: Option<i32>,
}

/// A class of students.
#[derive(Clone, Debug, PartialEq, Eq)]
pub struct Class {
    pub id: i32,
    pub class: String,
}

/// An employee: a teacher or a principal. The password hash never leaves the store.
#[derive(Clone, Debug, PartialEq, Eq)]
pub struct Employee {
    pub id: i32,
    pub first_name: String,
    pub last_name: String,
    pub middle_name: Option<String>,
    pub employed_at: Timestamp,
    pub phone: String,
    pub mfa: bool,
    pub role: Role,
}

/// A teacher: an employee together with the linkage row that ties them to
/// one subject and at most one room.
#[derive(Clone, Debug, PartialEq, Eq)]
pub struct Teacher {
    pub employee: Employee,
    pub room_id: Option<i32>,
    pub subject_id: i32,
}

/// A student, enrolled in one class.
#[derive(Clone, Debug, PartialEq, Eq)]
pub struct Student {
    pub id: i32,
    pub first_name: String,
    pub last_name: String,
    pub middle_name: Option<String>,
    pub enrolled_at: Timestamp,
    pub class_id: i32,
}

/// A mark given by a teacher to a student in a subject.
#[derive(Clone, Debug, PartialEq, Eq)]
pub struct Mark {
    pub id: i32,
    pub mark: i16,
    pub student_id: i32,
    pub subject_id: i32,
    pub teacher_id: i32,
    pub time: Timestamp,
}

} // verus!
