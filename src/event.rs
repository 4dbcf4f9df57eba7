//! Normalized change notifications.
use vstd::prelude::*;

verus! {

/// One change reported by the watch source. Paths are plain text.
#[derive(Debug, PartialEq, Eq)]
pub enum ChangeEvent {
    Created(String),
    Modified(String),
    Removed(String),
    /// A rename from the first path to the second.
    Renamed(String, String),
    /// Any other notification (a rescan, an attribute change, an error).
    Other,
}

impl ChangeEvent {
    /// The path that the pattern filter judges: for a rename the source path.
    /// `None` for a notification of another kind, which never triggers.
    pub open spec fn subject(&self) -> Option<Seq<char>> {
        match self {
            ChangeEvent::Created(p) => Some(p@),
            ChangeEvent::Modified(p) => Some(p@),
            ChangeEvent::Removed(p) => Some(p@),
            ChangeEvent::Renamed(from, _) => Some(from@),
            ChangeEvent::Other => None,
        }
    }

    /// The path that the pattern filter judges; see `subject`.
    pub fn path(&self) -> (r: Option<&str>)
        ensures
            r matches Some(p) ==> self.subject() == Some(p@),
            r is None ==> self.subject() is None,
    {
        match self {
            ChangeEvent::Created(p) => Some(p.as_str()),
            ChangeEvent::Modified(p) => Some(p.as_str()),
            ChangeEvent::Removed(p) => Some(p.as_str()),
            ChangeEvent::Renamed(from, _) => Some(from.as_str()),
            ChangeEvent::Other => None,
        }
    }
}

impl Clone for ChangeEvent {
    fn clone(&self) -> (r: ChangeEvent)
        ensures
            r == *self,
    {
        match self {
            ChangeEvent::Created(p) => ChangeEvent::Created(p.clone()),
            ChangeEvent::Modified(p) => ChangeEvent::Modified(p.clone()),
            ChangeEvent::Removed(p) => ChangeEvent::Removed(p.clone()),
            ChangeEvent::Renamed(from, to) => ChangeEvent::Renamed(from.clone(), to.clone()),
            ChangeEvent::Other => ChangeEvent::Other,
        }
    }
}

} // verus!
