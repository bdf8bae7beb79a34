//! The push notification of the hosting service, as far as it is read.

use vstd::prelude::*;

verus! {

/// An account of the hosting service.
#[derive(Debug, Clone)]
pub struct User {
    pub login: String,
}

/// The repository that was pushed to.
#[derive(Debug, Clone)]
pub struct Repository {
    pub name: String,
    pub full_name: String,
    pub owner: User,
    pub url: String,
}

/// One push: the reference that moved, the commits it moved between, and
/// where and by whom.
#[derive(Debug, Clone)]
pub struct PushEvent {
    /// The full reference, such as `refs/heads/master`.
    pub reference: String,
    /// The commit the reference pointed to before the push.
    pub before: String,
    /// The commit the reference points to after the push.
    pub after: String,
    pub repository: Repository,
    pub sender: User,
}

} // verus!
