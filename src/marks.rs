//! Who a new mark is recorded for.
use vstd::prelude::*;
use crate::error::{Error, Fault};
use crate::models::Role;
use crate::token::Claims;

verus! {

/// The teacher a new mark is recorded for. A teacher records marks as
/// themselves, whatever teacher id the request names; a principal must name
/// the teacher.
pub fn mark_author(claims: &Claims, requested: Option<i32>) -> (r: Result<i32, Error>)
    ensures
        claims.role == Role::Teacher ==> r == Ok::<i32, Error>(claims.employee_id),
        claims.role == Role::Principal ==> r == match requested {
            Some(id) => Ok::<i32, Error>(id),
            None => Err(Error::Domain(Fault::TeacherIdRequired)),
        },
{
    match claims.role {
        Role::Teacher => Ok(claims.employee_id),
        Role::Principal => match requested {
            Some(id) => Ok(id),
            None => Err(Error::Domain(Fault::TeacherIdRequired)),
        },
    }
}

} // verus!
