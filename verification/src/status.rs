use vstd::prelude::*;

verus! {

/// One entry of the working-tree status scan, reduced to the path and the
/// three worktree flags that the change report reads.
pub struct StatusEntry {
    pub path: String,
    pub wt_new: bool,
    pub wt_modified: bool,
    pub wt_deleted: bool,
}

/// The classification of one status entry, by flag precedence:
/// a new file wins over a modified one, a modified one over a deleted one,
/// and an entry with none of the three flags is `Unknown`.
#[derive(PartialEq, Eq, Structural, Clone, Copy, Debug)]
pub enum StatusKind {
    Added,
    Modified,
    Deleted,
    Unknown,
}

/// The classification of an entry with the given worktree flags.
pub open spec fn spec_status_kind(wt_new: bool, wt_modified: bool, wt_deleted: bool) -> StatusKind {
    if wt_new {
        StatusKind::Added
    } else if wt_modified {
        StatusKind::Modified
    } else if wt_deleted {
        StatusKind::Deleted
    } else {
        StatusKind::Unknown
    }
}

/// Classify one status entry by flag precedence.
pub fn classify_status(e: &StatusEntry) -> (k: StatusKind)
    ensures
        k == spec_status_kind(e.wt_new, e.wt_modified, e.wt_deleted),
{
    if e.wt_new {
        StatusKind::Added
    } else if e.wt_modified {
        StatusKind::Modified
    } else if e.wt_deleted {
        StatusKind::Deleted
    } else {
        StatusKind::Unknown
    }
}

} // verus!
