//! The owner of a task. The surrounding tooling treats user fabrication as
//! an external collaborator; here the collaborator is a constructor that
//! draws the name parts from fake's fixed name lists.

use vstd::prelude::*;
use fake::Fake;
use crate::sources::fresh_id;

verus! {

/// A task's assignee: an identifier and a human name in two parts.
#[derive(Debug)]
pub struct User {
    pub id: u128,
    pub first_name: String,
    pub last_name: String,
}

/// Relies on fake's `faker::name::en::FirstName`, which draws from a fixed
/// list of non-empty names.
#[verifier::external_body]
fn fake_first_name() -> (r: String)
    ensures
        r@.len() > 0,
{
    fake::faker::name::en::FirstName().fake()
}

/// Relies on fake's `faker::name::en::LastName`, which draws from a fixed
/// list of non-empty names.
#[verifier::external_body]
fn fake_last_name() -> (r: String)
    ensures
        r@.len() > 0,
{
    fake::faker::name::en::LastName().fake()
}

impl User {
    /// A syntactically valid user: both name parts are present.
    pub open spec fn wf(self) -> bool {
        self.first_name@.len() > 0 && self.last_name@.len() > 0
    }

    /// Fabricates a user with a fresh identifier and randomly drawn name
    /// parts. Every user produced here is well formed.
    pub fn create_random_user() -> (u: User)
        ensures
            u.wf(),
    {
        User { id: fresh_id(), first_name: fake_first_name(), last_name: fake_last_name() }
    }
}

impl Clone for User {
    /// An owned copy that is equal to the original in every field.
    fn clone(&self) -> (r: User)
        ensures
            r == *self,
    {
        User {
            id: self.id,
            first_name: self.first_name.clone(),
            last_name: self.last_name.clone(),
        }
    }
}

} // verus!
