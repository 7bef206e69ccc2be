use vstd::prelude::*;
use vstd::string::StringExecFns;

verus! {

/// What the directory watcher saw happen to a path.
#[derive(PartialEq, Eq, Structural, Clone, Copy, Debug)]
pub enum ChangeKind {
    Created,
    Modified,
    Deleted,
    Other,
}

impl ChangeKind {
    /// Name of the change in `file_change` events.
    pub fn as_str(&self) -> (r: &'static str)
        ensures
            r@ == match *self {
                ChangeKind::Created => "created"@,
                ChangeKind::Modified => "modified"@,
                ChangeKind::Deleted => "deleted"@,
                ChangeKind::Other => "other"@,
            },
    {
        match self {
            ChangeKind::Created => "created",
            ChangeKind::Modified => "modified",
            ChangeKind::Deleted => "deleted",
            ChangeKind::Other => "other",
        }
    }

    /// Whether the change offers the path to ingestion: only a created or
    /// changed path may have content to send.
    pub fn triggers_upload(&self) -> (r: bool)
        ensures
            r == (*self == ChangeKind::Created || *self == ChangeKind::Modified),
    {
        match self {
            ChangeKind::Created | ChangeKind::Modified => true,
            _ => false,
        }
    }
}

/// One line of a folder listing: a folder or file mark, a space, the name.
pub fn folder_entry_label(file_name: &str, is_dir: bool) -> (r: String)
    ensures
        r@ == (if is_dir {
            "📁"@
        } else {
            "📄"@
        }) + " "@ + file_name@,
{
    let mark = if is_dir {
        "📁"
    } else {
        "📄"
    };
    mark.to_owned().concat(" ").concat(file_name)
}

} // verus!
