//! The error kind shared by the repository operations.

use vstd::prelude::*;

verus! {

/// Why a repository operation failed.
#[derive(Clone, Copy, Debug, PartialEq, Eq, Structural)]
pub enum StoreErrorKind {
    /// `find` or `update` was given an id that no row carries.
    NotFound,
    /// `insert` was given an entity whose id is already taken.
    DuplicateId,
    /// A job was inserted whose `video_id` references no stored video.
    MissingVideo,
    /// The entity kind defines no update policy.
    Unsupported,
}

/// The error the repositories report.
///
/// It keeps the failure engine-agnostic: a backing-store failure surfaces as
/// one of the kinds above, never as an engine type.
#[derive(Clone, Copy, Debug, PartialEq, Eq, Structural)]
pub struct VideoRepositoryError(pub StoreErrorKind);

impl VideoRepositoryError {
    /// A short human-readable description of the failure.
    pub fn describe(&self) -> (r: String)
        ensures
            r@.len() > 0,
    {
        let r = match self.0 {
            StoreErrorKind::NotFound => "entity not found".to_owned(),
            StoreErrorKind::DuplicateId => "duplicate id".to_owned(),
            StoreErrorKind::MissingVideo => "job references a missing video".to_owned(),
            StoreErrorKind::Unsupported => "update not supported for this entity".to_owned(),
        };
        proof {
            reveal_strlit("entity not found");
            reveal_strlit("duplicate id");
            reveal_strlit("job references a missing video");
            reveal_strlit("update not supported for this entity");
        }
        r
    }
}

} // verus!
