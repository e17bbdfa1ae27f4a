//! The commissions service: commissions belong to users, and what the
//! endpoints answer.

use vstd::prelude::*;

verus! {

/// A commission requested by a user.
pub struct Commission {
    pub id: i32,
    pub user_id: String,
    pub title: String,
    pub description: String,
    pub status: String,
}

/// The caller of the commissions service.
pub struct SessionUser {
    pub id: String,
    /// `user` or `admin`.
    pub role: String,
}

/// What listing commissions answers: 200 and the caller's commissions, or
/// an empty list when they could not be read.
pub fn commissions_response(loaded: Result<Vec<Commission>, ()>) -> (r: (u16, Vec<Commission>))
    ensures
        r.0 == 200,
        match loaded {
            Ok(v) => r.1@ == v@,
            Err(_) => r.1@.len() == 0,
        },
{
    match loaded {
        Ok(v) => (200, v),
        Err(_) => (200, Vec::new()),
    }
}

/// What creating a commission answers: 201, whether or not the insert
/// succeeded.
pub fn create_commission_status(stored: Result<(), ()>) -> (status: u16)
    ensures
        status == 201,
{
    201
}

} // verus!
