//! The request parts a handler reads, and what their rejection becomes.
use vstd::prelude::*;
use crate::error::{success_body, success_response, Error, Response};

verus! {

/// A JSON request body, or a payload to answer with.
pub struct Json<T>(pub T);

/// The query string of a request.
pub struct Query<T>(pub T);

/// The path parameters of a request.
pub struct Path<T>(pub T);

impl<T> Json<T> {
    /// A body that was read, or the reason it could not be.
    pub fn extracted(read: Result<T, String>) -> (r: Result<Json<T>, Error>)
        ensures
            match read {
                Ok(v) => r is Ok && r->Ok_0.0 == v,
                Err(d) => r == Err::<Json<T>, Error>(Error::JsonRejection { detail: d }),
            },
    {
        match read {
            Ok(v) => Ok(Json(v)),
            Err(detail) => Err(Error::JsonRejection { detail }),
        }
    }
}

impl Json<String> {
    /// The success response around the JSON text of a payload.
    pub fn into_response(self) -> (r: Response)
        ensures
            r.status == 200,
            r.body@ == success_body(self.0@),
    {
        success_response(self.0.as_str())
    }
}

impl<T> Query<T> {
    /// A query string that was read, or the reason it could not be.
    pub fn extracted(read: Result<T, String>) -> (r: Result<Query<T>, Error>)
        ensures
            match read {
                Ok(v) => r is Ok && r->Ok_0.0 == v,
                Err(d) => r == Err::<Query<T>, Error>(Error::QueryRejection { detail: d }),
            },
    {
        match read {
            Ok(v) => Ok(Query(v)),
            Err(detail) => Err(Error::QueryRejection { detail }),
        }
    }
}

impl<T> Path<T> {
    /// Path parameters that were read, or the reason they could not be.
    pub fn extracted(read: Result<T, String>) -> (r: Result<Path<T>, Error>)
        ensures
            match read {
                Ok(v) => r is Ok && r->Ok_0.0 == v,
                Err(d) => r == Err::<Path<T>, Error>(Error::PathRejection { detail: d }),
            },
    {
        match read {
            Ok(v) => Ok(Path(v)),
            Err(detail) => Err(Error::PathRejection { detail }),
        }
    }
}

} // verus!
