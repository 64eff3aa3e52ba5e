use vstd::prelude::*;
use crate::identity::Identity;

verus! {

/// Notification of a capsule that was created.
#[derive(Clone, Debug, PartialEq, Eq)]
pub struct CapsuleCreated {
    pub capsule: Identity,
    pub creator: Identity,
    pub title: String,
    pub unlock_date: i64,
    pub timestamp: i64,
}

/// The mathematical value of a [`CapsuleCreated`].
pub struct CapsuleCreatedView {
    pub capsule: Identity,
    pub creator: Identity,
    pub title: Seq<char>,
    pub unlock_date: i64,
    pub timestamp: i64,
}

impl View for CapsuleCreated {
    type V = CapsuleCreatedView;

    open spec fn view(&self) -> CapsuleCreatedView {
        CapsuleCreatedView {
            capsule: self.capsule,
            creator: self.creator,
            title: self.title@,
            unlock_date: self.unlock_date,
            timestamp: self.timestamp,
        }
    }
}

/// Notification of a capsule that was updated. `new_unlock_date` is the date the
/// caller asked for, if any.
#[derive(Clone, Copy, Debug, PartialEq, Eq)]
pub struct CapsuleUpdated {
    pub capsule: Identity,
    pub updater: Identity,
    pub new_unlock_date: Option<i64>,
    pub content_updated: bool,
    pub url_updated: bool,
    pub timestamp: i64,
}

/// Notification of a capsule that was unlocked.
#[derive(Clone, Copy, Debug, PartialEq, Eq)]
pub struct CapsuleUnlocked {
    pub capsule: Identity,
    pub unlocker: Identity,
    pub timestamp: i64,
}

/// Notification of a capsule that was removed.
#[derive(Clone, Copy, Debug, PartialEq, Eq)]
pub struct CapsuleClosed {
    pub capsule: Identity,
    pub closer: Identity,
    pub timestamp: i64,
}

/// Notification of a capsule that changed its owner.
#[derive(Clone, Copy, Debug, PartialEq, Eq)]
pub struct CapsuleTransferred {
    pub capsule: Identity,
    pub from: Identity,
    pub to: Identity,
    pub mint: Option<Identity>,
    pub timestamp: i64,
}

} // verus!
