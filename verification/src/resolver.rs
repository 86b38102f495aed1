//! Finds the backend that governs a working tree from the names found in the
//! starting directory and in each of its ancestors.
use vstd::prelude::*;
use crate::cli::VCS;
use crate::error::ScudError;
use crate::text::{same_text, texts_view};

verus! {

/// Name of the directory whose presence marks the root of a tree of `vcs`.
pub open spec fn marker_of(vcs: VCS) -> Seq<char> {
    match vcs {
        VCS::Git => seq!['.', 'g', 'i', 't'],
        VCS::Mercurial => seq!['.', 'h', 'g'],
        VCS::Breezy => seq!['.', 'b', 'z', 'r'],
    }
}

/// The entry names of a chain of directories.
pub open spec fn tree_view(dirs: Seq<Vec<String>>) -> Seq<Seq<Seq<char>>> {
    dirs.map_values(|dir: Vec<String>| texts_view(dir@))
}

/// Whether a directory with these entries holds the marker of `vcs`.
pub open spec fn has_marker(dir: Seq<Seq<char>>, vcs: VCS) -> bool {
    dir.contains(marker_of(vcs))
}

/// The backend that a single directory announces. Where several markers sit
/// side by side, Git goes before Mercurial and Mercurial before Breezy.
pub open spec fn backend_of_dir(dir: Seq<Seq<char>>) -> Option<VCS> {
    if has_marker(dir, VCS::Git) {
        Some(VCS::Git)
    } else if has_marker(dir, VCS::Mercurial) {
        Some(VCS::Mercurial)
    } else if has_marker(dir, VCS::Breezy) {
        Some(VCS::Breezy)
    } else {
        None
    }
}

/// The backend of the nearest directory in the chain that announces one.
/// `dirs[0]` is the starting directory, the last element is the root.
pub open spec fn resolve(dirs: Seq<Seq<Seq<char>>>) -> Option<VCS>
    decreases dirs.len(),
{
    if dirs.len() == 0 {
        None
    } else {
        match backend_of_dir(dirs[0]) {
            Some(vcs) => Some(vcs),
            None => resolve(dirs.skip(1)),
        }
    }
}

/// Whether `name` occurs among the entries of `dir`.
pub fn dir_contains(dir: &Vec<String>, name: &str) -> (r: bool)
    ensures
        r == texts_view(dir@).contains(name@),
{
    let mut i: usize = 0;
    while i < dir.len()
        invariant
            i <= dir.len(),
            forall|j: int| 0 <= j < i ==> texts_view(dir@)[j] != name@,
        decreases dir.len() - i,
    {
        if same_text(dir[i].as_str(), name) {
            assert(texts_view(dir@)[i as int] == name@);
            return true;
        }
        i += 1;
    }
    false
}

/// The backend announced by one directory, by the fixed precedence.
pub fn detect_in_dir(dir: &Vec<String>) -> (r: Option<VCS>)
    ensures
        r == backend_of_dir(texts_view(dir@)),
{
    proof {
        reveal_strlit(".git");
        reveal_strlit(".hg");
        reveal_strlit(".bzr");
        assert(".git"@ =~= marker_of(VCS::Git));
        assert(".hg"@ =~= marker_of(VCS::Mercurial));
        assert(".bzr"@ =~= marker_of(VCS::Breezy));
    }
    if dir_contains(dir, ".git") {
        Some(VCS::Git)
    } else if dir_contains(dir, ".hg") {
        Some(VCS::Mercurial)
    } else if dir_contains(dir, ".bzr") {
        Some(VCS::Breezy)
    } else {
        None
    }
}

/// Resolves the backend of a working tree. `ancestors` holds the entry names
/// of the starting directory, then of its parent, and so on up to the root.
pub fn detect_vcs(ancestors: &Vec<Vec<String>>) -> (r: Result<VCS, ScudError>)
    ensures
        match resolve(tree_view(ancestors@)) {
            Some(vcs) => r == Ok::<VCS, ScudError>(vcs),
            None => r == Err::<VCS, ScudError>(ScudError::NoBackendDetected),
        },
{
    let ghost dirs = tree_view(ancestors@);
    assert(dirs.skip(0) =~= dirs);
    let mut i: usize = 0;
    while i < ancestors.len()
        invariant
            i <= ancestors.len(),
            dirs == tree_view(ancestors@),
            resolve(dirs) == resolve(dirs.skip(i as int)),
        decreases ancestors.len() - i,
    {
        let found = detect_in_dir(&ancestors[i]);
        proof {
            let rest = dirs.skip(i as int);
            assert(rest[0] == texts_view(ancestors@[i as int]@));
            assert(rest.skip(1) =~= dirs.skip(i + 1));
        }
        match found {
            Some(vcs) => {
                return Ok(vcs);
            },
            None => {},
        }
        i += 1;
    }
    Err(ScudError::NoBackendDetected)
}

/// Whether a directory with these entries holds no marker at all.
pub open spec fn unmarked(dir: Seq<Seq<char>>) -> bool {
    &&& !has_marker(dir, VCS::Git)
    &&& !has_marker(dir, VCS::Mercurial)
    &&& !has_marker(dir, VCS::Breezy)
}

/// Where no directory before position `k` holds any marker and the directory
/// at `k` holds the marker of `vcs` and of no other backend, the chain
/// resolves to `vcs`.
pub proof fn law_nearest_marker_decides(dirs: Seq<Seq<Seq<char>>>, k: int, vcs: VCS)
    requires
        0 <= k < dirs.len(),
        forall|j: int| 0 <= j < k ==> unmarked(#[trigger] dirs[j]),
        has_marker(dirs[k], vcs),
        forall|other: VCS| other != vcs ==> !has_marker(dirs[k], other),
    ensures
        resolve(dirs) == Some(vcs),
    decreases k,
{
    if k == 0 {
        assert(backend_of_dir(dirs[0]) == Some(vcs));
    } else {
        assert(unmarked(dirs[0]));
        let rest = dirs.skip(1);
        assert forall|j: int| 0 <= j < k - 1 implies unmarked(#[trigger] rest[j]) by {
            assert(rest[j] == dirs[j + 1]);
        }
        law_nearest_marker_decides(rest, k - 1, vcs);
    }
}

/// Where markers sit side by side in the nearest marked directory, the
/// chain resolves by the fixed precedence: Git before Mercurial before Breezy.
pub proof fn law_precedence_among_markers(dirs: Seq<Seq<Seq<char>>>, k: int)
    requires
        0 <= k < dirs.len(),
        forall|j: int| 0 <= j < k ==> unmarked(#[trigger] dirs[j]),
        !unmarked(dirs[k]),
    ensures
        has_marker(dirs[k], VCS::Git) ==> resolve(dirs) == Some(VCS::Git),
        !has_marker(dirs[k], VCS::Git) && has_marker(dirs[k], VCS::Mercurial) ==> resolve(dirs)
            == Some(VCS::Mercurial),
        !has_marker(dirs[k], VCS::Git) && !has_marker(dirs[k], VCS::Mercurial) ==> resolve(dirs)
            == Some(VCS::Breezy),
    decreases k,
{
    if k > 0 {
        assert(unmarked(dirs[0]));
        let rest = dirs.skip(1);
        assert forall|j: int| 0 <= j < k - 1 implies unmarked(#[trigger] rest[j]) by {
            assert(rest[j] == dirs[j + 1]);
        }
        assert(rest[k - 1] == dirs[k]);
        law_precedence_among_markers(rest, k - 1);
    }
}

/// Where no directory of the chain holds any marker, nothing is resolved.
pub proof fn law_no_marker_no_backend(dirs: Seq<Seq<Seq<char>>>)
    requires
        forall|j: int| 0 <= j < dirs.len() ==> unmarked(#[trigger] dirs[j]),
    ensures
        resolve(dirs) is None,
    decreases dirs.len(),
{
    if dirs.len() > 0 {
        assert(unmarked(dirs[0]));
        let rest = dirs.skip(1);
        assert forall|j: int| 0 <= j < rest.len() implies unmarked(#[trigger] rest[j]) by {
            assert(rest[j] == dirs[j + 1]);
        }
        law_no_marker_no_backend(rest);
    }
}

} // verus!
