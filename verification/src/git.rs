//! The change set that a version-control diff delivers.

use crate::text::chars_of;
use crate::text::extension;
use crate::text::extension_of;
use crate::text::contains_text;
use crate::text::slice_texts;
use crate::text::string_of;
use vstd::prelude::*;
use vstd::string::StringExecFns;

verus! {

/// Why a version-control operation failed.
#[derive(Debug)]
pub enum GitError {
    /// The path is not inside a repository.
    NotARepository(String),
    /// An error of the version-control library, by its message.
    Git(String),
    /// The reference names no revision.
    InvalidRef(String),
}

/// The message of a version-control error.
pub open spec fn git_error_message(e: GitError) -> Seq<char> {
    match e {
        GitError::NotARepository(m) => "Not a git repository: "@ + m@,
        GitError::Git(m) => "Git error: "@ + m@,
        GitError::InvalidRef(m) => "Invalid reference: "@ + m@,
    }
}

impl GitError {
    /// The error's message.
    pub fn to_string(&self) -> (r: String)
        ensures
            r@ == git_error_message(*self),
    {
        match self {
            GitError::NotARepository(m) => String::from_str("Not a git repository: ").concat(
                m.as_str(),
            ),
            GitError::Git(m) => String::from_str("Git error: ").concat(m.as_str()),
            GitError::InvalidRef(m) => String::from_str("Invalid reference: ").concat(m.as_str()),
        }
    }
}

/// Type of file change.
#[derive(Debug, Clone, Copy, PartialEq, Eq, Structural)]
pub enum ChangeKind {
    Added,
    Modified,
    Deleted,
    Renamed,
}

/// A changed file detected by the version-control system.
#[derive(Debug, Clone)]
pub struct ChangedFile {
    pub path: String,
    pub old_path: Option<String>,
    pub kind: ChangeKind,
}

/// The mathematical value of a [`ChangedFile`].
pub struct ChangedFileView {
    pub path: Seq<char>,
    pub old_path: Option<Seq<char>>,
    pub kind: ChangeKind,
}

impl View for ChangedFile {
    type V = ChangedFileView;

    open spec fn view(&self) -> ChangedFileView {
        ChangedFileView {
            path: self.path@,
            old_path: crate::model::opt_text(self.old_path),
            kind: self.kind,
        }
    }
}

impl DeepView for ChangedFile {
    type V = ChangedFileView;

    open spec fn deep_view(&self) -> ChangedFileView {
        self@
    }
}

/// The status of one entry of a diff between two trees, or between a tree
/// and the working directory.
#[derive(Debug, Clone, Copy, PartialEq, Eq, Structural)]
pub enum DeltaStatus {
    Unmodified,
    Added,
    Deleted,
    Modified,
    Renamed,
    Copied,
    Ignored,
    Untracked,
    Typechange,
    Unreadable,
    Conflicted,
}

/// The kind of change that a diff status stands for. Copies count as
/// additions; untracked files count as additions where the diff is against
/// the working directory; every other status is no change.
pub open spec fn kind_of_delta(status: DeltaStatus, with_untracked: bool) -> Option<ChangeKind> {
    match status {
        DeltaStatus::Added => Some(ChangeKind::Added),
        DeltaStatus::Deleted => Some(ChangeKind::Deleted),
        DeltaStatus::Modified => Some(ChangeKind::Modified),
        DeltaStatus::Renamed => Some(ChangeKind::Renamed),
        DeltaStatus::Copied => Some(ChangeKind::Added),
        DeltaStatus::Untracked => if with_untracked {
            Some(ChangeKind::Added)
        } else {
            None
        },
        _ => None,
    }
}

/// The change that one diff entry stands for: its path is the new path, or
/// the old one where there is no new one, and the old path is kept only for
/// a rename.
pub open spec fn change_of_delta(
    status: DeltaStatus,
    new_path: Option<Seq<char>>,
    old_path: Option<Seq<char>>,
    with_untracked: bool,
) -> Option<ChangedFileView> {
    match kind_of_delta(status, with_untracked) {
        Some(kind) => {
            let kept = if kind == ChangeKind::Renamed {
                old_path
            } else {
                None
            };
            match new_path {
                Some(path) => Some(ChangedFileView { path, old_path: kept, kind }),
                None => match old_path {
                    Some(path) => Some(ChangedFileView { path, old_path: kept, kind }),
                    None => None,
                },
            }
        },
        None => None,
    }
}

/// Computes [`kind_of_delta`].
pub fn classify_delta(status: DeltaStatus, with_untracked: bool) -> (r: Option<ChangeKind>)
    ensures
        r == kind_of_delta(status, with_untracked),
{
    match status {
        DeltaStatus::Added => Some(ChangeKind::Added),
        DeltaStatus::Deleted => Some(ChangeKind::Deleted),
        DeltaStatus::Modified => Some(ChangeKind::Modified),
        DeltaStatus::Renamed => Some(ChangeKind::Renamed),
        DeltaStatus::Copied => Some(ChangeKind::Added),
        DeltaStatus::Untracked => if with_untracked {
            Some(ChangeKind::Added)
        } else {
            None
        },
        _ => None,
    }
}

/// Computes [`change_of_delta`].
pub fn changed_file(
    status: DeltaStatus,
    new_path: Option<String>,
    old_path: Option<String>,
    with_untracked: bool,
) -> (r: Option<ChangedFile>)
    ensures
        match r {
            Some(change) => change_of_delta(
                status,
                crate::model::opt_text(new_path),
                crate::model::opt_text(old_path),
                with_untracked,
            ) == Some(change@),
            None => change_of_delta(
                status,
                crate::model::opt_text(new_path),
                crate::model::opt_text(old_path),
                with_untracked,
            ) is None,
        },
{
    match classify_delta(status, with_untracked) {
        Some(kind) => {
            let renamed = kind == ChangeKind::Renamed;
            match new_path {
                Some(path) => Some(
                    ChangedFile {
                        path,
                        old_path: if renamed {
                            old_path
                        } else {
                            None
                        },
                        kind,
                    },
                ),
                None => match old_path {
                    Some(path) => {
                        let kept = if renamed {
                            Some(path.clone())
                        } else {
                            None
                        };
                        Some(ChangedFile { path, old_path: kept, kind })
                    },
                    None => None,
                },
            }
        },
        None => None,
    }
}

/// The status flags of one entry of the working directory and the index.
#[derive(Debug, Clone, Copy, PartialEq, Eq, Structural)]
pub struct StatusFlags {
    pub wt_new: bool,
    pub index_new: bool,
    pub wt_deleted: bool,
    pub index_deleted: bool,
    pub wt_modified: bool,
    pub index_modified: bool,
    pub wt_renamed: bool,
    pub index_renamed: bool,
}

/// The kind of change that the status of a working-directory entry stands
/// for: new before deleted before modified before renamed.
pub open spec fn kind_of_status(flags: StatusFlags) -> Option<ChangeKind> {
    if flags.wt_new || flags.index_new {
        Some(ChangeKind::Added)
    } else if flags.wt_deleted || flags.index_deleted {
        Some(ChangeKind::Deleted)
    } else if flags.wt_modified || flags.index_modified {
        Some(ChangeKind::Modified)
    } else if flags.wt_renamed || flags.index_renamed {
        Some(ChangeKind::Renamed)
    } else {
        None
    }
}

/// The uncommitted change that a status entry stands for; it never carries
/// an old path.
pub fn uncommitted_change(flags: StatusFlags, path: Option<String>) -> (r: Option<ChangedFile>)
    ensures
        match r {
            Some(change) => path is Some && kind_of_status(flags) == Some(change.kind)
                && change.path@ == path->0@ && change.old_path is None,
            None => path is None || kind_of_status(flags) is None,
        },
{
    match path {
        Some(path) => {
            let kind = if flags.wt_new || flags.index_new {
                ChangeKind::Added
            } else if flags.wt_deleted || flags.index_deleted {
                ChangeKind::Deleted
            } else if flags.wt_modified || flags.index_modified {
                ChangeKind::Modified
            } else if flags.wt_renamed || flags.index_renamed {
                ChangeKind::Renamed
            } else {
                return None;
            };
            Some(ChangedFile { path, old_path: None, kind })
        },
        None => None,
    }
}

/// Whether the extension of `path` is one of `extensions`.
pub open spec fn has_extension_in(path: Seq<char>, extensions: Seq<Seq<char>>) -> bool {
    match extension_of(path) {
        Some(ext) => extensions.contains(ext),
        None => false,
    }
}

/// The changes among the first `n` whose path has one of the extensions.
pub open spec fn with_extensions_upto(
    changes: Seq<ChangedFileView>,
    extensions: Seq<Seq<char>>,
    n: int,
) -> Seq<ChangedFileView>
    decreases n,
{
    if n <= 0 || n > changes.len() {
        Seq::empty()
    } else if has_extension_in(changes[n - 1].path, extensions) {
        with_extensions_upto(changes, extensions, n - 1).push(changes[n - 1])
    } else {
        with_extensions_upto(changes, extensions, n - 1)
    }
}

/// Decides [`has_extension_in`].
pub fn path_has_extension(path: &str, extensions: &Vec<&str>) -> (r: bool)
    ensures
        r == has_extension_in(path@, slice_texts(extensions@)),
{
    let chars = chars_of(path);
    match extension(chars.as_slice()) {
        Some(ext) => {
            let ext = string_of(ext.as_slice());
            contains_text(extensions.as_slice(), ext.as_str())
        },
        None => false,
    }
}

impl ChangedFile {
    /// A copy of this change.
    pub fn duplicate(&self) -> (r: ChangedFile)
        ensures
            r@ == self@,
    {
        ChangedFile {
            path: self.path.clone(),
            old_path: match &self.old_path {
                Some(p) => Some(p.clone()),
                None => None,
            },
            kind: self.kind,
        }
    }
}

/// Filters changes to only include files with specific extensions, keeping
/// their order.
pub fn filter_by_extensions(changes: Vec<ChangedFile>, extensions: &Vec<&str>) -> (r: Vec<
    ChangedFile,
>)
    ensures
        r.deep_view() == with_extensions_upto(
            changes.deep_view(),
            slice_texts(extensions@),
            changes.len() as int,
        ),
{
    let ghost all = changes.deep_view();
    let ghost exts = slice_texts(extensions@);
    let mut out: Vec<ChangedFile> = Vec::new();
    let mut i: usize = 0;
    while i < changes.len()
        invariant
            i <= changes.len(),
            all == changes.deep_view(),
            exts == slice_texts(extensions@),
            out.deep_view() == with_extensions_upto(all, exts, i as int),
        decreases changes.len() - i,
    {
        assert(all[i as int] == changes[i as int]@);
        if path_has_extension(changes[i].path.as_str(), extensions) {
            let change = changes[i].duplicate();
            proof {
                assert(out.deep_view().push(change@) == with_extensions_upto(all, exts, i + 1));
            }
            out.push(change);
            assert(out.deep_view() == with_extensions_upto(all, exts, i + 1));
        }
        i += 1;
    }
    out
}

} // verus!
