//! Revision metadata attachable to any element.

use vstd::prelude::*;

verus! {

use crate::time::Timestamp;

/// Non-geographical information about an element's latest revision.
///
/// Absence of a whole `Info` record on an element means no revision metadata
/// is known, not "version 1".
#[derive(Debug, PartialEq, Eq, Hash)]
pub struct Info {
    /// Version number of this revision. Starts at 1 and is incremented with
    /// each update.
    pub version: i32,
    /// Time of the last modification.
    pub timestamp: Option<Timestamp>,
    /// Group of edits that this revision belongs to.
    pub changeset: Option<i64>,
    /// Id of the user who performed the last modification.
    pub uid: Option<i32>,
    /// Display name of that user at the time of the edit; it may change
    /// without a version increment.
    pub user: Option<String>,
    /// Whether the element is visible. Absent means visible; an explicit
    /// `false` marks a deleted element returned by a history query. The
    /// three states are kept apart exactly.
    pub visible: Option<bool>,
}

impl Info {
    /// How a consumer must read the visibility flag: an absent flag means
    /// visible.
    pub open spec fn spec_visible(self) -> bool {
        match self.visible {
            Some(b) => b,
            None => true,
        }
    }

    /// Whether the owning element is visible: `true` unless the flag was
    /// asserted `false`.
    pub fn is_visible(&self) -> (r: bool)
        ensures
            r == self.spec_visible(),
    {
        match self.visible {
            Some(b) => b,
            None => true,
        }
    }
}

impl Clone for Info {
    /// The clone equals the original in every field.
    fn clone(&self) -> (r: Self)
        ensures
            r == *self,
    {
        Info {
            version: self.version,
            timestamp: self.timestamp,
            changeset: self.changeset,
            uid: self.uid,
            user: match &self.user {
                Some(s) => Some(s.clone()),
                None => None,
            },
            visible: self.visible,
        }
    }
}

/// A record whose visibility flag is absent is read exactly as one whose
/// flag was asserted `true`: no consumer-facing liveness check can tell
/// them apart.
pub proof fn lemma_visible_default(i: Info)
    requires
        i.visible is None,
    ensures
        i.spec_visible(),
        (Info { visible: Some(true), ..i }).spec_visible(),
{
}

} // verus!
