//! Change sets of a repository worktree.
//!
//! Paths held here are relative to the repository worktree. Change sets hold
//! only modified, staged, or untracked files; clean files and files ignored
//! by the VCS are never part of them.
use vstd::prelude::*;
use vstd::slice::slice_to_vec;

use crate::path_order::{
    lemma_path_lt_asymmetric, lemma_path_lt_irreflexive, lemma_path_lt_total,
    lemma_path_lt_transitive, path_less, path_lt, strictly_ascending,
};

verus! {

/// What a [`FileChange`] holds.
pub struct FileChangeView {
    pub path: Seq<u8>,
    pub modified: bool,
    pub staged: bool,
    pub untracked: bool,
}

impl FileChangeView {
    /// The file is modified, staged, or untracked.
    pub open spec fn is_change(self) -> bool {
        self.modified || self.staged || self.untracked
    }

    /// The file has unstaged modifications or is untracked.
    pub open spec fn is_dirty(self) -> bool {
        self.modified || self.untracked
    }
}

/// Selects files with unstaged modifications.
pub open spec fn modified_pred() -> spec_fn(FileChangeView) -> bool {
    |f: FileChangeView| f.modified
}

/// Selects files with staged changes.
pub open spec fn staged_pred() -> spec_fn(FileChangeView) -> bool {
    |f: FileChangeView| f.staged
}

/// Selects untracked files.
pub open spec fn untracked_pred() -> spec_fn(FileChangeView) -> bool {
    |f: FileChangeView| f.untracked
}

/// Selects dirty files.
pub open spec fn dirty_pred() -> spec_fn(FileChangeView) -> bool {
    |f: FileChangeView| f.is_dirty()
}

/// The files of `s` that `pred` selects, in the order of `s`.
pub open spec fn selected(s: Seq<FileChangeView>, pred: spec_fn(FileChangeView) -> bool) -> Seq<
    FileChangeView,
>
    decreases s.len(),
{
    if s.len() == 0 {
        seq![]
    } else {
        let rest = selected(s.drop_last(), pred);
        if pred(s.last()) {
            rest.push(s.last())
        } else {
            rest
        }
    }
}

/// The paths of a sequence of file changes.
pub open spec fn paths_of(s: Seq<FileChangeView>) -> Seq<Seq<u8>> {
    s.map_values(|f: FileChangeView| f.path)
}

/// A change set: non-empty, in strictly ascending path order, and made of
/// changed files only.
pub open spec fn well_formed_changes(s: Seq<FileChangeView>) -> bool {
    &&& s.len() > 0
    &&& strictly_ascending(paths_of(s))
    &&& forall|i: int| 0 <= i < s.len() ==> (#[trigger] s[i]).is_change()
}

/// Selecting from a concatenation selects from each part.
pub proof fn lemma_selected_append(
    a: Seq<FileChangeView>,
    b: Seq<FileChangeView>,
    pred: spec_fn(FileChangeView) -> bool,
)
    ensures
        selected(a + b, pred) == selected(a, pred) + selected(b, pred),
    decreases b.len(),
{
    if b.len() == 0 {
        assert(a + b =~= a);
        assert(selected(a, pred) + selected(b, pred) =~= selected(a, pred));
    } else {
        assert((a + b).drop_last() =~= a + b.drop_last());
        lemma_selected_append(a, b.drop_last(), pred);
        if pred(b.last()) {
            assert(selected(a, pred) + selected(b.drop_last(), pred).push(b.last()) =~= (
            selected(a, pred) + selected(b.drop_last(), pred)).push(b.last()));
        }
    }
}

/// What is selected comes from `s` and satisfies `pred`; what in `s`
/// satisfies `pred` is selected.
pub proof fn lemma_selected_contains(
    s: Seq<FileChangeView>,
    pred: spec_fn(FileChangeView) -> bool,
    x: FileChangeView,
)
    ensures
        selected(s, pred).contains(x) <==> (s.contains(x) && pred(x)),
    decreases s.len(),
{
    if s.len() > 0 {
        lemma_selected_contains(s.drop_last(), pred, x);
        if s.contains(x) && x != s.last() {
            let i = choose|i: int| 0 <= i < s.len() && s[i] == x;
            assert(s.drop_last()[i] == x);
        }
        if s.drop_last().contains(x) {
            let i = choose|i: int| 0 <= i < s.drop_last().len() && s.drop_last()[i] == x;
            assert(s[i] == x);
        }
        if pred(s.last()) {
            let r = selected(s.drop_last(), pred);
            if r.contains(x) {
                let i = choose|i: int| 0 <= i < r.len() && r[i] == x;
                assert(r.push(s.last())[i] == x);
            }
            if r.push(s.last()).contains(x) && x != s.last() {
                let i = choose|i: int| 0 <= i < r.len() + 1 && r.push(s.last())[i] == x;
                assert(r[i] == x);
            }
            assert(r.push(s.last())[r.len() as int] == s.last());
        }
        assert(s[s.len() - 1] == s.last());
    }
}

/// Selecting files from a sequence in strictly ascending path order keeps
/// them in strictly ascending path order.
pub proof fn law_selection_keeps_path_order(s: Seq<FileChangeView>, pred: spec_fn(FileChangeView) -> bool)
    requires
        strictly_ascending(paths_of(s)),
    ensures
        strictly_ascending(paths_of(selected(s, pred))),
    decreases s.len(),
{
    if s.len() > 0 {
        let d = s.drop_last();
        assert forall|i: int, j: int| 0 <= i < j < paths_of(d).len() implies path_lt(
            #[trigger] paths_of(d)[i],
            #[trigger] paths_of(d)[j],
        ) by {
            assert(paths_of(d)[i] == paths_of(s)[i]);
            assert(paths_of(d)[j] == paths_of(s)[j]);
        };
        law_selection_keeps_path_order(d, pred);
        if pred(s.last()) {
            let r = selected(d, pred);
            let t = r.push(s.last());
            assert forall|i: int, j: int| 0 <= i < j < paths_of(t).len() implies path_lt(
                #[trigger] paths_of(t)[i],
                #[trigger] paths_of(t)[j],
            ) by {
                if j < r.len() {
                    assert(paths_of(t)[i] == paths_of(r)[i]);
                    assert(paths_of(t)[j] == paths_of(r)[j]);
                } else {
                    assert(r.contains(r[i]));
                    lemma_selected_contains(d, pred, r[i]);
                    let k = choose|k: int| 0 <= k < d.len() && d[k] == r[i];
                    assert(paths_of(s)[k] == r[i].path);
                    assert(paths_of(s)[s.len() - 1] == s.last().path);
                }
            };
        }
    }
}

/// Nothing is selected exactly when no element satisfies `pred`.
pub proof fn lemma_selected_empty(s: Seq<FileChangeView>, pred: spec_fn(FileChangeView) -> bool)
    ensures
        (selected(s, pred).len() == 0) <==> (forall|i: int| 0 <= i < s.len() ==> !pred(#[trigger] s[i])),
    decreases s.len(),
{
    if s.len() > 0 {
        lemma_selected_empty(s.drop_last(), pred);
        if forall|i: int| 0 <= i < s.len() ==> !pred(#[trigger] s[i]) {
            assert forall|i: int| 0 <= i < s.drop_last().len() implies !pred(
                #[trigger] s.drop_last()[i],
            ) by {
                assert(s.drop_last()[i] == s[i]);
            }
            assert(!pred(s[s.len() - 1]));
        }
        if selected(s, pred).len() == 0 {
            assert forall|i: int| 0 <= i < s.len() implies !pred(#[trigger] s[i]) by {
                if i < s.len() - 1 {
                    assert(s.drop_last()[i] == s[i]);
                }
            }
        }
    }
}

/// Selection never lengthens a sequence.
pub proof fn lemma_selected_len(s: Seq<FileChangeView>, pred: spec_fn(FileChangeView) -> bool)
    ensures
        selected(s, pred).len() <= s.len(),
    decreases s.len(),
{
    if s.len() > 0 {
        lemma_selected_len(s.drop_last(), pred);
    }
}

/// A single file change within a repository worktree.
///
/// A value of this type always represents a modified, staged, or untracked
/// file, or a combination of those states. More than one predicate may hold
/// for the same file: a file may have staged changes and additional unstaged
/// modifications.
#[derive(Debug)]
pub struct FileChange {
    path: Vec<u8>,
    modified: bool,
    staged: bool,
    untracked: bool,
}

impl FileChange {
    /// What this change holds.
    pub closed spec fn model(&self) -> FileChangeView {
        FileChangeView {
            path: self.path@,
            modified: self.modified,
            staged: self.staged,
            untracked: self.untracked,
        }
    }

    #[verifier::type_invariant]
    spec fn is_a_change(&self) -> bool {
        &&& self.modified || self.staged || self.untracked
        &&& self.untracked ==> !self.modified && !self.staged
    }

    /// Returns the bytes of the worktree-relative path associated with this
    /// change; a path need not be valid UTF-8.
    pub fn path(&self) -> (r: &[u8])
        ensures
            r@ == self@.path,
    {
        self.path.as_slice()
    }

    /// Returns whether the file has unstaged changes.
    ///
    /// This does not include staged changes or untracked files.
    pub fn is_modified(&self) -> (r: bool)
        ensures
            r == self@.modified,
    {
        self.modified
    }

    /// Returns whether the file has staged changes in the index.
    pub fn is_staged(&self) -> (r: bool)
        ensures
            r == self@.staged,
    {
        self.staged
    }

    /// Returns whether the file is untracked. An untracked file carries no
    /// staged or unstaged modification, and every file change is modified,
    /// staged, or untracked.
    pub fn is_untracked(&self) -> (r: bool)
        ensures
            r == self@.untracked,
            r ==> !self@.modified && !self@.staged,
            self@.is_change(),
    {
        proof {
            use_type_invariant(self);
        }
        self.untracked
    }

    /// Returns whether the file is dirty: it has unstaged modifications or
    /// is untracked. Staged-only changes are not dirty.
    pub fn is_dirty(&self) -> (r: bool)
        ensures
            r == self@.is_dirty(),
    {
        self.modified || self.untracked
    }
}

impl Clone for FileChange {
    fn clone(&self) -> (r: Self)
        ensures
            r@ == self@,
    {
        proof {
            use_type_invariant(self);
        }
        FileChange {
            path: slice_to_vec(self.path.as_slice()),
            modified: self.modified,
            staged: self.staged,
            untracked: self.untracked,
        }
    }
}

impl View for FileChange {
    type V = FileChangeView;

    open spec fn view(&self) -> FileChangeView {
        self.model()
    }
}

/// The views of a sequence of file changes.
pub open spec fn change_views(s: Seq<FileChange>) -> Seq<FileChangeView> {
    s.map_values(|f: FileChange| f@)
}

/// What a [`StatusFlags`] value holds.
pub struct StatusFlagsView {
    pub modified: bool,
    pub staged: bool,
    pub untracked: bool,
}

impl StatusFlagsView {
    /// An untracked file has no other flag.
    pub open spec fn consistent(self) -> bool {
        self.untracked ==> !self.modified && !self.staged
    }

    /// Some flag is set: the file is not clean.
    pub open spec fn any(self) -> bool {
        self.modified || self.staged || self.untracked
    }
}

/// The state flags of one file as a VCS reports them: those of an untracked
/// file ([`StatusFlags::untracked`]) or of a file under version control
/// ([`StatusFlags::versioned`]). An untracked file has no other flag.
#[derive(Debug, Clone, Copy)]
pub struct StatusFlags {
    modified: bool,
    staged: bool,
    untracked: bool,
}

impl View for StatusFlags {
    type V = StatusFlagsView;

    open spec fn view(&self) -> StatusFlagsView {
        self.model()
    }
}

impl StatusFlags {
    /// What these flags hold.
    pub closed spec fn model(&self) -> StatusFlagsView {
        StatusFlagsView { modified: self.modified, staged: self.staged, untracked: self.untracked }
    }

    #[verifier::type_invariant]
    spec fn flags_consistent(&self) -> bool {
        self.untracked ==> !self.modified && !self.staged
    }

    /// The flags of an untracked file.
    pub fn untracked() -> (r: StatusFlags)
        ensures
            r@ == (StatusFlagsView { modified: false, staged: false, untracked: true }),
    {
        StatusFlags { modified: false, staged: false, untracked: true }
    }

    /// The flags of a file under version control.
    pub fn versioned(modified: bool, staged: bool) -> (r: StatusFlags)
        ensures
            r@ == (StatusFlagsView { modified, staged, untracked: false }),
    {
        StatusFlags { modified, staged, untracked: false }
    }

    /// Returns whether the file has unstaged changes.
    pub fn is_modified(&self) -> (r: bool)
        ensures
            r == self@.modified,
    {
        self.modified
    }

    /// Returns whether the file has staged changes.
    pub fn is_staged(&self) -> (r: bool)
        ensures
            r == self@.staged,
    {
        self.staged
    }

    /// Returns whether the file is untracked; an untracked file has no
    /// other flag.
    pub fn is_untracked(&self) -> (r: bool)
        ensures
            r == self@.untracked,
            self@.consistent(),
    {
        proof {
            use_type_invariant(self);
        }
        self.untracked
    }

    /// Builds the change of the file at `path` with these flags, or `None`
    /// when no flag is set (the file is clean).
    pub fn build(self, path: Vec<u8>) -> (r: Option<FileChange>)
        ensures
            r is None <==> !self@.any(),
            r matches Some(f) ==> f@ == (FileChangeView {
                path: path@,
                modified: self@.modified,
                staged: self@.staged,
                untracked: self@.untracked,
            }),
    {
        proof {
            use_type_invariant(&self);
        }
        if !self.modified && !self.staged && !self.untracked {
            return None;
        }
        Some(FileChange {
            path,
            modified: self.modified,
            staged: self.staged,
            untracked: self.untracked,
        })
    }
}


/// Pairwise different paths.
pub open spec fn distinct_paths(s: Seq<FileChangeView>) -> bool {
    forall|i: int, j: int| 0 <= i < j < s.len() ==> (#[trigger] s[i]).path != (#[trigger] s[j]).path
}

/// `c` is the change set of the files `input`: the same files, in ascending
/// path order.
pub open spec fn arranges(c: Seq<FileChangeView>, input: Seq<FileChangeView>) -> bool {
    &&& well_formed_changes(c)
    &&& c.len() == input.len()
    &&& forall|x: FileChangeView| #[trigger] c.contains(x) <==> input.contains(x)
}

/// Two sequences in strictly ascending path order with the same elements
/// are equal.
pub proof fn lemma_ascending_same_elements(a: Seq<FileChangeView>, b: Seq<FileChangeView>)
    requires
        strictly_ascending(paths_of(a)),
        strictly_ascending(paths_of(b)),
        forall|x: FileChangeView|
            #![trigger a.contains(x)]
            #![trigger b.contains(x)]
            a.contains(x) <==> b.contains(x),
    ensures
        a == b,
    decreases a.len(),
{
    if a.len() == 0 || b.len() == 0 {
        if a.len() > 0 {
            assert(a.contains(a[0]));
        }
        if b.len() > 0 {
            assert(b.contains(b[0]));
        }
        assert(a =~= b);
    } else {
        assert(a.contains(a[0]));
        assert(b.contains(b[0]));
        let j = choose|j: int| 0 <= j < b.len() && b[j] == a[0];
        let i = choose|i: int| 0 <= i < a.len() && a[i] == b[0];
        if j > 0 {
            assert(paths_of(b)[0] == b[0].path);
            assert(paths_of(b)[j] == b[j].path);
            if i == 0 {
                lemma_path_lt_irreflexive(a[0].path);
            } else {
                assert(paths_of(a)[0] == a[0].path);
                assert(paths_of(a)[i] == a[i].path);
                lemma_path_lt_asymmetric(a[0].path, a[i].path);
            }
        }
        let a1 = a.drop_first();
        let b1 = b.drop_first();
        assert forall|k: int, l: int| 0 <= k < l < paths_of(a1).len() implies path_lt(
            #[trigger] paths_of(a1)[k],
            #[trigger] paths_of(a1)[l],
        ) by {
            assert(paths_of(a1)[k] == paths_of(a)[k + 1]);
            assert(paths_of(a1)[l] == paths_of(a)[l + 1]);
        };
        assert forall|k: int, l: int| 0 <= k < l < paths_of(b1).len() implies path_lt(
            #[trigger] paths_of(b1)[k],
            #[trigger] paths_of(b1)[l],
        ) by {
            assert(paths_of(b1)[k] == paths_of(b)[k + 1]);
            assert(paths_of(b1)[l] == paths_of(b)[l + 1]);
        };
        assert forall|x: FileChangeView|
            #![trigger a1.contains(x)]
            #![trigger b1.contains(x)]
            a1.contains(x) <==> b1.contains(x) by {
            if a1.contains(x) {
                let k = choose|k: int| 0 <= k < a1.len() && a1[k] == x;
                assert(a.contains(a[k + 1]));
                let m = choose|m: int| 0 <= m < b.len() && b[m] == x;
                if m == 0 {
                    assert(paths_of(a)[0] == a[0].path);
                    assert(paths_of(a)[k + 1] == a[k + 1].path);
                    lemma_path_lt_irreflexive(a[0].path);
                }
                assert(b1[m - 1] == x);
            }
            if b1.contains(x) {
                let k = choose|k: int| 0 <= k < b1.len() && b1[k] == x;
                assert(b.contains(b[k + 1]));
                let m = choose|m: int| 0 <= m < a.len() && a[m] == x;
                if m == 0 {
                    assert(paths_of(b)[0] == b[0].path);
                    assert(paths_of(b)[k + 1] == b[k + 1].path);
                    lemma_path_lt_irreflexive(b[0].path);
                }
                assert(a1[m - 1] == x);
            }
        };
        lemma_ascending_same_elements(a1, b1);
        assert(a =~= seq![a[0]] + a1);
        assert(b =~= seq![b[0]] + b1);
    }
}

/// A change set is determined by its files: the change sets that arrange
/// the same files are equal.
pub proof fn law_change_set_is_determined(
    c: Seq<FileChangeView>,
    d: Seq<FileChangeView>,
    input: Seq<FileChangeView>,
)
    requires
        arranges(c, input),
        arranges(d, input),
    ensures
        c == d,
{
    assert forall|x: FileChangeView|
        #![trigger c.contains(x)]
        #![trigger d.contains(x)]
        c.contains(x) <==> d.contains(x) by {
        assert(c.contains(x) <==> input.contains(x));
        assert(d.contains(x) <==> input.contains(x));
    };
    lemma_ascending_same_elements(c, d);
}

/// A non-empty set of file changes, ordered by ascending worktree-relative
/// path, each path once.
///
/// Only modified, staged, or untracked files are part of a change set.
/// Entries may include tracked paths that are no longer present in the
/// worktree.
#[derive(Debug)]
pub struct RepositoryChanges {
    files: Vec<FileChange>,
    num_modified_files: usize,
    num_staged_files: usize,
    num_untracked_files: usize,
}

impl View for RepositoryChanges {
    type V = Seq<FileChangeView>;

    open spec fn view(&self) -> Seq<FileChangeView> {
        self.model()
    }
}

impl RepositoryChanges {
    /// The files of this change set.
    pub closed spec fn model(&self) -> Seq<FileChangeView> {
        change_views(self.files@)
    }

    #[verifier::type_invariant]
    spec fn inv(&self) -> bool {
        &&& well_formed_changes(change_views(self.files@))
        &&& self.num_modified_files == selected(change_views(self.files@), modified_pred()).len()
        &&& self.num_staged_files == selected(change_views(self.files@), staged_pred()).len()
        &&& self.num_untracked_files == selected(change_views(self.files@), untracked_pred()).len()
    }

    /// Builds a change set from `files`, sorted by ascending path, or `None`
    /// when `files` is empty.
    pub fn new(files: Vec<FileChange>) -> (r: Option<RepositoryChanges>)
        requires
            distinct_paths(change_views(files@)),
        ensures
            r is None <==> files@.len() == 0,
            r matches Some(c) ==> arranges(c@, change_views(files@)),
    {
        let ghost input = change_views(files@);
        let mut rest = files;
        let mut sorted: Vec<FileChange> = Vec::new();
        while rest.len() > 0
            invariant
                strictly_ascending(paths_of(change_views(sorted@))),
                forall|i: int|
                    0 <= i < sorted@.len() ==> (#[trigger] change_views(sorted@)[i]).is_change(),
                distinct_paths(change_views(rest@)),
                forall|i: int, j: int|
                    0 <= i < sorted@.len() && 0 <= j < rest@.len() ==> (#[trigger] sorted@[i])@.path
                        != (#[trigger] rest@[j])@.path,
                sorted@.len() + rest@.len() == input.len(),
                forall|x: FileChangeView|
                    input.contains(x) <==> (change_views(sorted@).contains(x) || change_views(
                        rest@,
                    ).contains(x)),
            decreases rest@.len(),
        {
            let ghost before_sorted = change_views(sorted@);
            let ghost before_rest = change_views(rest@);
            let ghost old_sorted = sorted@;
            let ghost old_rest = rest@;
            let file = rest.pop().unwrap();
            proof {
                use_type_invariant(&file);
                assert(change_views(rest@) =~= before_rest.drop_last());
                assert(before_rest.last() == file@);
            }
            let mut j: usize = 0;
            while j < sorted.len() && path_less(sorted[j].path(), file.path())
                invariant
                    j <= sorted@.len(),
                    forall|k: int| 0 <= k < j ==> path_lt(#[trigger] sorted@[k]@.path, file@.path),
                decreases sorted@.len() - j,
            {
                j = j + 1;
            }
            proof {
                let sv = change_views(sorted@);
                if j < sorted@.len() {
                    assert(sorted@[j as int]@.path != file@.path) by {
                        assert(before_rest[before_rest.len() - 1] == file@);
                        assert(rest@.len() + 1 == before_rest.len());
                    };
                    lemma_path_lt_total(sorted@[j as int]@.path, file@.path);
                }
                assert forall|k: int| j <= k < sorted@.len() implies path_lt(
                    file@.path,
                    #[trigger] sorted@[k]@.path,
                ) by {
                    if k > j {
                        assert(paths_of(sv)[j as int] == sv[j as int].path);
                        assert(paths_of(sv)[k] == sv[k].path);
                        lemma_path_lt_transitive(file@.path, sv[j as int].path, sv[k].path);
                    }
                };
            }
            sorted.insert(j, file);
            proof {
                let sv = change_views(sorted@);
                assert(sv =~= before_sorted.insert(j as int, file@));
                assert forall|a: int, b: int|
                    0 <= a < b < sv.len() implies path_lt(
                    #[trigger] paths_of(sv)[a],
                    #[trigger] paths_of(sv)[b],
                ) by {
                    assert(paths_of(sv)[a] == sv[a].path);
                    assert(paths_of(sv)[b] == sv[b].path);
                    if b < j {
                        assert(paths_of(before_sorted)[a] == before_sorted[a].path);
                        assert(paths_of(before_sorted)[b] == before_sorted[b].path);
                    } else if b == j {
                        assert(sv[a] == before_sorted[a]);
                    } else if a == j {
                        assert(sv[b] == before_sorted[b - 1]);
                        assert(before_sorted[b - 1] == sorted@[b]@);
                    } else if a < j {
                        assert(paths_of(before_sorted)[a] == before_sorted[a].path);
                        assert(paths_of(before_sorted)[b - 1] == before_sorted[b - 1].path);
                    } else {
                        assert(paths_of(before_sorted)[a - 1] == before_sorted[a - 1].path);
                        assert(paths_of(before_sorted)[b - 1] == before_sorted[b - 1].path);
                    }
                };
                assert forall|x: FileChangeView|
                    input.contains(x) <==> (sv.contains(x) || change_views(rest@).contains(x)) by {
                    if before_rest.contains(x) {
                        let k = choose|k: int| 0 <= k < before_rest.len() && before_rest[k] == x;
                        if k < before_rest.len() - 1 {
                            assert(change_views(rest@)[k] == x);
                        } else {
                            assert(sv[j as int] == x);
                        }
                    }
                    if before_sorted.contains(x) {
                        let k = choose|k: int| 0 <= k < before_sorted.len() && before_sorted[k] == x;
                        if k < j {
                            assert(sv[k] == x);
                        } else {
                            assert(sv[k + 1] == x);
                        }
                    }
                    if sv.contains(x) {
                        let k = choose|k: int| 0 <= k < sv.len() && sv[k] == x;
                        if k < j {
                            assert(before_sorted[k] == x);
                        } else if k > j {
                            assert(before_sorted[k - 1] == x);
                        } else {
                            assert(before_rest[before_rest.len() - 1] == x);
                        }
                    }
                    if change_views(rest@).contains(x) {
                        let k = choose|k: int|
                            0 <= k < change_views(rest@).len() && change_views(rest@)[k] == x;
                        assert(before_rest[k] == x);
                    }
                };
                assert forall|a: int, b: int|
                    0 <= a < sorted@.len() && 0 <= b < rest@.len() implies (#[trigger] sorted@[a])@.path
                    != (#[trigger] rest@[b])@.path by {
                    assert(rest@[b] == old_rest[b]);
                    if a < j {
                        assert(sorted@[a] == old_sorted[a]);
                    } else if a > j {
                        assert(sorted@[a] == old_sorted[a - 1]);
                    } else {
                        assert(before_rest[b] == rest@[b]@);
                        assert(before_rest[before_rest.len() - 1] == file@);
                    }
                };
            }
        }
        if sorted.len() == 0 {
            return None;
        }
        let mut num_modified_files: usize = 0;
        let mut num_staged_files: usize = 0;
        let mut num_untracked_files: usize = 0;
        let mut i: usize = 0;
        while i < sorted.len()
            invariant
                i <= sorted@.len(),
                num_modified_files == selected(change_views(sorted@).take(i as int), modified_pred()).len(),
                num_staged_files == selected(change_views(sorted@).take(i as int), staged_pred()).len(),
                num_untracked_files == selected(change_views(sorted@).take(i as int), untracked_pred()).len(),
            decreases sorted@.len() - i,
        {
            let ghost sv = change_views(sorted@);
            proof {
                assert(sv.take(i + 1).drop_last() =~= sv.take(i as int));
                assert(sv.take(i + 1).last() == sorted@[i as int]@);
                lemma_selected_len(sv.take(i as int), modified_pred());
                lemma_selected_len(sv.take(i as int), staged_pred());
                lemma_selected_len(sv.take(i as int), untracked_pred());
            }
            if sorted[i].is_modified() {
                num_modified_files = num_modified_files + 1;
            }
            if sorted[i].is_staged() {
                num_staged_files = num_staged_files + 1;
            }
            if sorted[i].is_untracked() {
                num_untracked_files = num_untracked_files + 1;
            }
            i = i + 1;
        }
        proof {
            assert(change_views(sorted@).take(sorted@.len() as int) =~= change_views(sorted@));
        }
        Some(RepositoryChanges { files: sorted, num_modified_files, num_staged_files, num_untracked_files })
    }
}


impl RepositoryChanges {
    /// Returns all file changes in this change set, in ascending path order.
    pub fn files(&self) -> (r: Files<'_>)
        ensures
            r.remaining() == self@,
            well_formed_changes(self@),
    {
        proof {
            use_type_invariant(self);
        }
        let files = self.files.as_slice();
        proof {
            assert(files@.subrange(0, files@.len() as int) =~= self.files@);
        }
        Files { files, front: 0, back: self.files.len() }
    }

    /// Returns the files with unstaged changes, in ascending path order.
    pub fn modified_files(&self) -> (r: ModifiedFiles<'_>)
        ensures
            r.remaining() == selected(self@, modified_pred()),
    {
        proof {
            use_type_invariant(self);
        }
        let inner = FilteredFiles::over(self.files.as_slice(), Flag::Modified, self.num_modified_files);
        ModifiedFiles { inner }
    }

    /// Returns the files with staged changes, in ascending path order.
    pub fn staged_files(&self) -> (r: StagedFiles<'_>)
        ensures
            r.remaining() == selected(self@, staged_pred()),
    {
        proof {
            use_type_invariant(self);
        }
        let inner = FilteredFiles::over(self.files.as_slice(), Flag::Staged, self.num_staged_files);
        StagedFiles { inner }
    }

    /// Returns the untracked files, in ascending path order.
    pub fn untracked_files(&self) -> (r: UntrackedFiles<'_>)
        ensures
            r.remaining() == selected(self@, untracked_pred()),
    {
        proof {
            use_type_invariant(self);
        }
        let inner = FilteredFiles::over(
            self.files.as_slice(),
            Flag::Untracked,
            self.num_untracked_files,
        );
        UntrackedFiles { inner }
    }

    /// Returns whether some file has unstaged changes.
    ///
    /// This does not include staged changes or untracked files.
    pub fn has_modified_files(&self) -> (r: bool)
        ensures
            r == exists|i: int| 0 <= i < self@.len() && (#[trigger] self@[i]).modified,
    {
        proof {
            use_type_invariant(self);
            lemma_selected_empty(self@, modified_pred());
        }
        self.num_modified_files > 0
    }

    /// Returns whether some file has staged changes.
    pub fn has_staged_files(&self) -> (r: bool)
        ensures
            r == exists|i: int| 0 <= i < self@.len() && (#[trigger] self@[i]).staged,
    {
        proof {
            use_type_invariant(self);
            lemma_selected_empty(self@, staged_pred());
        }
        self.num_staged_files > 0
    }

    /// Returns whether some file is untracked.
    pub fn has_untracked_files(&self) -> (r: bool)
        ensures
            r == exists|i: int| 0 <= i < self@.len() && (#[trigger] self@[i]).untracked,
    {
        proof {
            use_type_invariant(self);
            lemma_selected_empty(self@, untracked_pred());
        }
        self.num_untracked_files > 0
    }

    /// Returns whether some file is dirty: it has unstaged modifications or
    /// is untracked. Staged-only changes are not dirty.
    pub fn has_dirty_files(&self) -> (r: bool)
        ensures
            r == exists|i: int| 0 <= i < self@.len() && (#[trigger] self@[i]).is_dirty(),
    {
        let m = self.has_modified_files();
        let u = self.has_untracked_files();
        proof {
            if exists|i: int| 0 <= i < self@.len() && (#[trigger] self@[i]).is_dirty() {
                let i = choose|i: int| 0 <= i < self@.len() && (#[trigger] self@[i]).is_dirty();
                assert(self@[i].modified || self@[i].untracked);
            }
        }
        m || u
    }
}

impl Clone for RepositoryChanges {
    fn clone(&self) -> (r: Self)
        ensures
            r@ == self@,
    {
        proof {
            use_type_invariant(self);
        }
        let mut files: Vec<FileChange> = Vec::new();
        let mut i: usize = 0;
        while i < self.files.len()
            invariant
                i <= self.files@.len(),
                files@.len() == i,
                change_views(files@) =~= change_views(self.files@).take(i as int),
            decreases self.files@.len() - i,
        {
            let c = self.files[i].clone();
            assert(c@ == self.files@[i as int]@);
            let ghost before = files@;
            files.push(c);
            proof {
                assert forall|k: int| 0 <= k < i + 1 implies #[trigger] change_views(files@)[k]
                    == change_views(self.files@).take(i + 1)[k] by {
                    if k < i {
                        assert(files@[k] == before[k]);
                        assert(change_views(before)[k] == change_views(self.files@).take(i as int)[k]);
                    }
                };
                assert(change_views(files@) =~= change_views(self.files@).take(i + 1));
            }
            i = i + 1;
        }
        proof {
            assert(change_views(self.files@).take(i as int) =~= change_views(self.files@));
        }
        RepositoryChanges {
            files,
            num_modified_files: self.num_modified_files,
            num_staged_files: self.num_staged_files,
            num_untracked_files: self.num_untracked_files,
        }
    }
}

/// The part of `files` from `front` to `back`, by view.
pub open spec fn window(files: Seq<FileChange>, front: int, back: int) -> Seq<FileChangeView> {
    change_views(files.subrange(front, back))
}

/// An iterator over all file changes of a [`RepositoryChanges`], in
/// ascending path order, from either end.
#[derive(Debug)]
pub struct Files<'a> {
    files: &'a [FileChange],
    front: usize,
    back: usize,
}

impl<'a> Files<'a> {
    #[verifier::type_invariant]
    spec fn inv(&self) -> bool {
        self.front <= self.back <= self.files@.len()
    }

    /// The files not yet yielded, in order.
    pub closed spec fn remaining(&self) -> Seq<FileChangeView> {
        window(self.files@, self.front as int, self.back as int)
    }

    /// Yields the first remaining file.
    pub fn next(&mut self) -> (r: Option<&'a FileChange>)
        ensures
            old(self).remaining().len() == 0 ==> r is None && final(self).remaining() == old(
                self,
            ).remaining(),
            old(self).remaining().len() > 0 ==> (r matches Some(f) && f@ == old(self).remaining()[0]
                && final(self).remaining() == old(self).remaining().drop_first()),
    {
        proof {
            use_type_invariant(&*self);
        }
        if self.front == self.back {
            return None;
        }
        let f = &self.files[self.front];
        proof {
            assert(window(self.files@, self.front as int, self.back as int)[0] == f@);
            assert(window(self.files@, self.front + 1, self.back as int) =~= window(
                self.files@,
                self.front as int,
                self.back as int,
            ).drop_first());
        }
        *self = Files { files: self.files, front: self.front + 1, back: self.back };
        Some(f)
    }

    /// Yields the last remaining file.
    pub fn next_back(&mut self) -> (r: Option<&'a FileChange>)
        ensures
            old(self).remaining().len() == 0 ==> r is None && final(self).remaining() == old(
                self,
            ).remaining(),
            old(self).remaining().len() > 0 ==> (r matches Some(f) && f@ == old(self).remaining().last()
                && final(self).remaining() == old(self).remaining().drop_last()),
    {
        proof {
            use_type_invariant(&*self);
        }
        if self.front == self.back {
            return None;
        }
        let f = &self.files[self.back - 1];
        proof {
            assert(window(self.files@, self.front as int, self.back as int).last() == f@);
            assert(window(self.files@, self.front as int, self.back - 1) =~= window(
                self.files@,
                self.front as int,
                self.back as int,
            ).drop_last());
        }
        *self = Files { files: self.files, front: self.front, back: self.back - 1 };
        Some(f)
    }

    /// Returns the bounds on the number of files not yet yielded: exactly
    /// that number, both ways.
    pub fn size_hint(&self) -> (r: (usize, Option<usize>))
        ensures
            r.0 == self.remaining().len(),
            r.1 == Some(r.0),
    {
        let n = self.len();
        (n, Some(n))
    }

    /// Returns the number of files not yet yielded.
    pub fn len(&self) -> (r: usize)
        ensures
            r == self.remaining().len(),
    {
        proof {
            use_type_invariant(self);
        }
        self.back - self.front
    }
}

/// Which state flag a filtered iterator selects.
#[derive(Debug, Clone, Copy)]
enum Flag {
    Modified,
    Staged,
    Untracked,
}

spec fn flag_pred(flag: Flag) -> spec_fn(FileChangeView) -> bool {
    match flag {
        Flag::Modified => modified_pred(),
        Flag::Staged => staged_pred(),
        Flag::Untracked => untracked_pred(),
    }
}

fn has_flag(f: &FileChange, flag: Flag) -> (r: bool)
    ensures
        r == flag_pred(flag)(f@),
{
    match flag {
        Flag::Modified => f.is_modified(),
        Flag::Staged => f.is_staged(),
        Flag::Untracked => f.is_untracked(),
    }
}

/// Splitting a window at a selected element `i` that has nothing selected
/// before it.
proof fn lemma_window_first(
    files: Seq<FileChange>,
    front: int,
    i: int,
    back: int,
    pred: spec_fn(FileChangeView) -> bool,
)
    requires
        0 <= front <= i < back <= files.len(),
        pred(files[i]@),
        forall|k: int| front <= k < i ==> !pred(#[trigger] files[k]@),
    ensures
        selected(window(files, front, back), pred) == seq![files[i]@] + selected(
            window(files, i + 1, back),
            pred,
        ),
{
    let w = window(files, front, back);
    let a = window(files, front, i);
    let b = window(files, i, i + 1);
    let c = window(files, i + 1, back);
    assert(w =~= a + b + c);
    lemma_selected_append(a + b, c, pred);
    lemma_selected_append(a, b, pred);
    assert forall|k: int| 0 <= k < a.len() implies !pred(#[trigger] a[k]) by {
        assert(a[k] == files[front + k]@);
    };
    lemma_selected_empty(a, pred);
    assert(b.drop_last() =~= Seq::<FileChangeView>::empty());
    assert(selected(b.drop_last(), pred) =~= Seq::<FileChangeView>::empty());
    assert(b.last() == files[i]@);
    assert(selected(a, pred) =~= Seq::<FileChangeView>::empty());
    assert(selected(b, pred) =~= seq![files[i]@]);
}

/// Splitting a window at a selected element `i` that has nothing selected
/// after it.
proof fn lemma_window_last(
    files: Seq<FileChange>,
    front: int,
    i: int,
    back: int,
    pred: spec_fn(FileChangeView) -> bool,
)
    requires
        0 <= front <= i < back <= files.len(),
        pred(files[i]@),
        forall|k: int| i < k < back ==> !pred(#[trigger] files[k]@),
    ensures
        selected(window(files, front, back), pred) == selected(window(files, front, i), pred).push(
            files[i]@,
        ),
{
    let w = window(files, front, back);
    let a = window(files, front, i);
    let b = window(files, i, i + 1);
    let c = window(files, i + 1, back);
    assert(w =~= a + b + c);
    lemma_selected_append(a + b, c, pred);
    lemma_selected_append(a, b, pred);
    assert forall|k: int| 0 <= k < c.len() implies !pred(#[trigger] c[k]) by {
        assert(c[k] == files[i + 1 + k]@);
    };
    lemma_selected_empty(c, pred);
    assert(b.drop_last() =~= Seq::<FileChangeView>::empty());
    assert(selected(b.drop_last(), pred) =~= Seq::<FileChangeView>::empty());
    assert(b.last() == files[i]@);
    assert(selected(c, pred) =~= Seq::<FileChangeView>::empty());
    assert(selected(b, pred) =~= seq![files[i]@]);
    assert(selected(a, pred) + selected(b, pred) + selected(c, pred) =~= selected(a, pred).push(
        files[i]@,
    ));
}

/// The shared state of the filtered iterators.
#[derive(Debug)]
struct FilteredFiles<'a> {
    files: &'a [FileChange],
    flag: Flag,
    front: usize,
    back: usize,
    len: usize,
}

impl<'a> FilteredFiles<'a> {
    #[verifier::type_invariant]
    spec fn inv(&self) -> bool {
        &&& self.front <= self.back <= self.files@.len()
        &&& self.len == self.remaining().len()
    }

    spec fn remaining(&self) -> Seq<FileChangeView> {
        selected(window(self.files@, self.front as int, self.back as int), flag_pred(self.flag))
    }

    fn over(files: &'a [FileChange], flag: Flag, len: usize) -> (r: FilteredFiles<'a>)
        requires
            len == selected(change_views(files@), flag_pred(flag)).len(),
        ensures
            r.flag == flag,
            r.remaining() == selected(change_views(files@), flag_pred(flag)),
    {
        proof {
            assert(files@.subrange(0, files@.len() as int) =~= files@);
        }
        FilteredFiles { files, flag, front: 0, back: files.len(), len }
    }

    fn next(&mut self) -> (r: Option<&'a FileChange>)
        ensures
            final(self).flag == old(self).flag,
            old(self).remaining().len() == 0 ==> r is None && final(self).remaining() == old(
                self,
            ).remaining(),
            old(self).remaining().len() > 0 ==> (r matches Some(f) && f@ == old(self).remaining()[0]
                && final(self).remaining() == old(self).remaining().drop_first()),
    {
        proof {
            use_type_invariant(&*self);
        }
        let mut i = self.front;
        while i < self.back && !has_flag(&self.files[i], self.flag)
            invariant
                self.front <= i <= self.back <= self.files@.len(),
                forall|k: int|
                    self.front <= k < i ==> !flag_pred(self.flag)(#[trigger] self.files@[k]@),
            decreases self.back - i,
        {
            i = i + 1;
        }
        if i == self.back {
            proof {
                let w = window(self.files@, self.front as int, self.back as int);
                assert forall|k: int| 0 <= k < w.len() implies !flag_pred(self.flag)(
                    #[trigger] w[k],
                ) by {
                    assert(w[k] == self.files@[self.front + k]@);
                };
                lemma_selected_empty(w, flag_pred(self.flag));
            }
            return None;
        }
        let f = &self.files[i];
        proof {
            lemma_window_first(
                self.files@,
                self.front as int,
                i as int,
                self.back as int,
                flag_pred(self.flag),
            );
        }
        *self = FilteredFiles {
            files: self.files,
            flag: self.flag,
            front: i + 1,
            back: self.back,
            len: self.len - 1,
        };
        Some(f)
    }

    fn next_back(&mut self) -> (r: Option<&'a FileChange>)
        ensures
            final(self).flag == old(self).flag,
            old(self).remaining().len() == 0 ==> r is None && final(self).remaining() == old(
                self,
            ).remaining(),
            old(self).remaining().len() > 0 ==> (r matches Some(f) && f@ == old(self).remaining().last()
                && final(self).remaining() == old(self).remaining().drop_last()),
    {
        proof {
            use_type_invariant(&*self);
        }
        let mut i = self.back;
        while i > self.front && !has_flag(&self.files[i - 1], self.flag)
            invariant
                self.front <= i <= self.back <= self.files@.len(),
                forall|k: int|
                    i <= k < self.back ==> !flag_pred(self.flag)(#[trigger] self.files@[k]@),
            decreases i - self.front,
        {
            i = i - 1;
        }
        if i == self.front {
            proof {
                let w = window(self.files@, self.front as int, self.back as int);
                assert forall|k: int| 0 <= k < w.len() implies !flag_pred(self.flag)(
                    #[trigger] w[k],
                ) by {
                    assert(w[k] == self.files@[self.front + k]@);
                };
                lemma_selected_empty(w, flag_pred(self.flag));
            }
            return None;
        }
        let f = &self.files[i - 1];
        proof {
            lemma_window_last(
                self.files@,
                self.front as int,
                i - 1,
                self.back as int,
                flag_pred(self.flag),
            );
        }
        *self = FilteredFiles {
            files: self.files,
            flag: self.flag,
            front: self.front,
            back: i - 1,
            len: self.len - 1,
        };
        Some(f)
    }

    fn len(&self) -> (r: usize)
        ensures
            r == self.remaining().len(),
    {
        proof {
            use_type_invariant(self);
        }
        self.len
    }
}


/// An iterator over the files with unstaged changes of a [`RepositoryChanges`], in ascending
/// path order, from either end.
#[derive(Debug)]
pub struct ModifiedFiles<'a> {
    inner: FilteredFiles<'a>,
}

impl<'a> ModifiedFiles<'a> {
    #[verifier::type_invariant]
    spec fn inv(&self) -> bool {
        self.inner.flag == Flag::Modified
    }

    /// The files not yet yielded, in order.
    pub closed spec fn remaining(&self) -> Seq<FileChangeView> {
        self.inner.remaining()
    }

    /// Yields the first remaining file.
    pub fn next(&mut self) -> (r: Option<&'a FileChange>)
        ensures
            old(self).remaining().len() == 0 ==> r is None && final(self).remaining() == old(
                self,
            ).remaining(),
            old(self).remaining().len() > 0 ==> (r matches Some(f) && f@ == old(self).remaining()[0]
                && final(self).remaining() == old(self).remaining().drop_first()),
    {
        proof {
            use_type_invariant(&*self);
            use_type_invariant(&self.inner);
        }
        let mut inner = FilteredFiles {
            files: self.inner.files,
            flag: self.inner.flag,
            front: self.inner.front,
            back: self.inner.back,
            len: self.inner.len,
        };
        let r = inner.next();
        *self = ModifiedFiles { inner };
        r
    }

    /// Yields the last remaining file.
    pub fn next_back(&mut self) -> (r: Option<&'a FileChange>)
        ensures
            old(self).remaining().len() == 0 ==> r is None && final(self).remaining() == old(
                self,
            ).remaining(),
            old(self).remaining().len() > 0 ==> (r matches Some(f) && f@ == old(self).remaining().last()
                && final(self).remaining() == old(self).remaining().drop_last()),
    {
        proof {
            use_type_invariant(&*self);
            use_type_invariant(&self.inner);
        }
        let mut inner = FilteredFiles {
            files: self.inner.files,
            flag: self.inner.flag,
            front: self.inner.front,
            back: self.inner.back,
            len: self.inner.len,
        };
        let r = inner.next_back();
        *self = ModifiedFiles { inner };
        r
    }

    /// Returns the bounds on the number of files not yet yielded: exactly
    /// that number, both ways.
    pub fn size_hint(&self) -> (r: (usize, Option<usize>))
        ensures
            r.0 == self.remaining().len(),
            r.1 == Some(r.0),
    {
        let n = self.len();
        (n, Some(n))
    }

    /// Returns the number of files not yet yielded.
    pub fn len(&self) -> (r: usize)
        ensures
            r == self.remaining().len(),
    {
        self.inner.len()
    }
}

/// An iterator over the files with staged changes of a [`RepositoryChanges`], in ascending
/// path order, from either end.
#[derive(Debug)]
pub struct StagedFiles<'a> {
    inner: FilteredFiles<'a>,
}

impl<'a> StagedFiles<'a> {
    #[verifier::type_invariant]
    spec fn inv(&self) -> bool {
        self.inner.flag == Flag::Staged
    }

    /// The files not yet yielded, in order.
    pub closed spec fn remaining(&self) -> Seq<FileChangeView> {
        self.inner.remaining()
    }

    /// Yields the first remaining file.
    pub fn next(&mut self) -> (r: Option<&'a FileChange>)
        ensures
            old(self).remaining().len() == 0 ==> r is None && final(self).remaining() == old(
                self,
            ).remaining(),
            old(self).remaining().len() > 0 ==> (r matches Some(f) && f@ == old(self).remaining()[0]
                && final(self).remaining() == old(self).remaining().drop_first()),
    {
        proof {
            use_type_invariant(&*self);
            use_type_invariant(&self.inner);
        }
        let mut inner = FilteredFiles {
            files: self.inner.files,
            flag: self.inner.flag,
            front: self.inner.front,
            back: self.inner.back,
            len: self.inner.len,
        };
        let r = inner.next();
        *self = StagedFiles { inner };
        r
    }

    /// Yields the last remaining file.
    pub fn next_back(&mut self) -> (r: Option<&'a FileChange>)
        ensures
            old(self).remaining().len() == 0 ==> r is None && final(self).remaining() == old(
                self,
            ).remaining(),
            old(self).remaining().len() > 0 ==> (r matches Some(f) && f@ == old(self).remaining().last()
                && final(self).remaining() == old(self).remaining().drop_last()),
    {
        proof {
            use_type_invariant(&*self);
            use_type_invariant(&self.inner);
        }
        let mut inner = FilteredFiles {
            files: self.inner.files,
            flag: self.inner.flag,
            front: self.inner.front,
            back: self.inner.back,
            len: self.inner.len,
        };
        let r = inner.next_back();
        *self = StagedFiles { inner };
        r
    }

    /// Returns the bounds on the number of files not yet yielded: exactly
    /// that number, both ways.
    pub fn size_hint(&self) -> (r: (usize, Option<usize>))
        ensures
            r.0 == self.remaining().len(),
            r.1 == Some(r.0),
    {
        let n = self.len();
        (n, Some(n))
    }

    /// Returns the number of files not yet yielded.
    pub fn len(&self) -> (r: usize)
        ensures
            r == self.remaining().len(),
    {
        self.inner.len()
    }
}

/// An iterator over the untracked files of a [`RepositoryChanges`], in ascending
/// path order, from either end.
#[derive(Debug)]
pub struct UntrackedFiles<'a> {
    inner: FilteredFiles<'a>,
}

impl<'a> UntrackedFiles<'a> {
    #[verifier::type_invariant]
    spec fn inv(&self) -> bool {
        self.inner.flag == Flag::Untracked
    }

    /// The files not yet yielded, in order.
    pub closed spec fn remaining(&self) -> Seq<FileChangeView> {
        self.inner.remaining()
    }

    /// Yields the first remaining file.
    pub fn next(&mut self) -> (r: Option<&'a FileChange>)
        ensures
            old(self).remaining().len() == 0 ==> r is None && final(self).remaining() == old(
                self,
            ).remaining(),
            old(self).remaining().len() > 0 ==> (r matches Some(f) && f@ == old(self).remaining()[0]
                && final(self).remaining() == old(self).remaining().drop_first()),
    {
        proof {
            use_type_invariant(&*self);
            use_type_invariant(&self.inner);
        }
        let mut inner = FilteredFiles {
            files: self.inner.files,
            flag: self.inner.flag,
            front: self.inner.front,
            back: self.inner.back,
            len: self.inner.len,
        };
        let r = inner.next();
        *self = UntrackedFiles { inner };
        r
    }

    /// Yields the last remaining file.
    pub fn next_back(&mut self) -> (r: Option<&'a FileChange>)
        ensures
            old(self).remaining().len() == 0 ==> r is None && final(self).remaining() == old(
                self,
            ).remaining(),
            old(self).remaining().len() > 0 ==> (r matches Some(f) && f@ == old(self).remaining().last()
                && final(self).remaining() == old(self).remaining().drop_last()),
    {
        proof {
            use_type_invariant(&*self);
            use_type_invariant(&self.inner);
        }
        let mut inner = FilteredFiles {
            files: self.inner.files,
            flag: self.inner.flag,
            front: self.inner.front,
            back: self.inner.back,
            len: self.inner.len,
        };
        let r = inner.next_back();
        *self = UntrackedFiles { inner };
        r
    }

    /// Returns the bounds on the number of files not yet yielded: exactly
    /// that number, both ways.
    pub fn size_hint(&self) -> (r: (usize, Option<usize>))
        ensures
            r.0 == self.remaining().len(),
            r.1 == Some(r.0),
    {
        let n = self.len();
        (n, Some(n))
    }

    /// Returns the number of files not yet yielded.
    pub fn len(&self) -> (r: usize)
        ensures
            r == self.remaining().len(),
    {
        self.inner.len()
    }
}


/// Returns whether two byte strings are equal.
pub(crate) fn same_bytes(a: &[u8], b: &[u8]) -> (r: bool)
    ensures
        r == (a@ == b@),
{
    if a.len() != b.len() {
        return false;
    }
    let mut i: usize = 0;
    while i < a.len()
        invariant
            i <= a@.len() == b@.len(),
            forall|k: int| 0 <= k < i ==> a@[k] == b@[k],
        decreases a@.len() - i,
    {
        if a[i] != b[i] {
            return false;
        }
        i = i + 1;
    }
    proof {
        assert(a@ =~= b@);
    }
    true
}

/// Returns whether the files of `files` have pairwise different paths, the
/// condition under which they form a change set.
pub fn paths_are_distinct(files: &[FileChange]) -> (r: bool)
    ensures
        r == distinct_paths(change_views(files@)),
{
    let ghost v = change_views(files@);
    let mut j: usize = 0;
    while j < files.len()
        invariant
            j <= files@.len(),
            v == change_views(files@),
            forall|a: int, b: int| 0 <= a < b < j ==> (#[trigger] v[a]).path != (#[trigger] v[b]).path,
        decreases files@.len() - j,
    {
        let mut i: usize = 0;
        while i < j
            invariant
                i <= j < files@.len(),
                v == change_views(files@),
                forall|a: int| 0 <= a < i ==> (#[trigger] v[a]).path != v[j as int].path,
            decreases j - i,
        {
            let same = same_bytes(files[i].path(), files[j].path());
            if same {
                proof {
                    assert(v[i as int].path == v[j as int].path);
                }
                return false;
            }
            i = i + 1;
        }
        j = j + 1;
    }
    true
}


/// What a [`RepositoryStatus`] holds: the paths of modified, staged, and
/// untracked files.
pub struct RepositoryStatusView {
    pub modified: Seq<Seq<u8>>,
    pub staged: Seq<Seq<u8>>,
    pub untracked: Seq<Seq<u8>>,
}

/// A summary of repository state relevant to `--allow-*` checks: the sets
/// of modified, staged, and untracked paths, each in ascending path order.
///
/// Paths may include tracked paths that are no longer present in the
/// worktree.
#[derive(Debug)]
pub struct RepositoryStatus {
    modified: Vec<Vec<u8>>,
    staged: Vec<Vec<u8>>,
    untracked: Vec<Vec<u8>>,
}

/// The contents of a list of paths.
pub open spec fn path_views(v: Seq<Vec<u8>>) -> Seq<Seq<u8>> {
    v.map_values(|p: Vec<u8>| p@)
}

/// The status summary of a change set (`None`: no changes).
pub open spec fn status_of_changes(changes: Option<Seq<FileChangeView>>) -> RepositoryStatusView {
    match changes {
        None => RepositoryStatusView { modified: seq![], staged: seq![], untracked: seq![] },
        Some(c) => RepositoryStatusView {
            modified: paths_of(selected(c, modified_pred())),
            staged: paths_of(selected(c, staged_pred())),
            untracked: paths_of(selected(c, untracked_pred())),
        },
    }
}

impl View for RepositoryStatus {
    type V = RepositoryStatusView;

    open spec fn view(&self) -> RepositoryStatusView {
        self.model()
    }
}

/// Collects the paths of the files of `changes` that `flag` selects.
fn collect_flagged(changes: &RepositoryChanges, flag: Flag) -> (r: Vec<Vec<u8>>)
    ensures
        path_views(r@) == paths_of(selected(changes@, flag_pred(flag))),
{
    let ghost all = changes@;
    let ghost pred = flag_pred(flag);
    let mut files = changes.files();
    let mut out: Vec<Vec<u8>> = Vec::new();
    let ghost mut k: int = 0;
    while files.len() > 0
        invariant
            0 <= k <= all.len(),
            pred == flag_pred(flag),
            files.remaining() == all.skip(k),
            path_views(out@) == paths_of(selected(all.take(k), pred)),
        decreases all.len() - k,
    {
        let ghost before = out@;
        let f = files.next().unwrap();
        proof {
            assert(all.skip(k)[0] == all[k]);
            assert(all.skip(k).drop_first() =~= all.skip(k + 1));
            assert(all.take(k + 1).drop_last() =~= all.take(k));
            assert(all.take(k + 1).last() == all[k]);
        }
        if has_flag(f, flag) {
            out.push(slice_to_vec(f.path()));
            proof {
                assert(path_views(out@) =~= path_views(before).push(f@.path));
                assert(paths_of(selected(all.take(k), pred).push(f@)) =~= paths_of(
                    selected(all.take(k), pred),
                ).push(f@.path));
            }
        }
        proof {
            k = k + 1;
        }
    }
    proof {
        assert(all.skip(k).len() == 0);
        assert(all.take(k) =~= all);
    }
    out
}

impl RepositoryStatus {
    /// What this summary holds.
    pub closed spec fn model(&self) -> RepositoryStatusView {
        RepositoryStatusView {
            modified: path_views(self.modified@),
            staged: path_views(self.staged@),
            untracked: path_views(self.untracked@),
        }
    }

    /// Summarizes a change set; `None` (no changes) gives empty sets.
    pub fn from_changes(changes: Option<&RepositoryChanges>) -> (r: RepositoryStatus)
        ensures
            r@ == status_of_changes(
                match changes {
                    Some(c) => Some(c@),
                    None => None,
                },
            ),
    {
        match changes {
            None => {
                let r = RepositoryStatus { modified: Vec::new(), staged: Vec::new(), untracked: Vec::new() };
                proof {
                    assert(r@.modified =~= Seq::<Seq<u8>>::empty());
                    assert(r@.staged =~= Seq::<Seq<u8>>::empty());
                    assert(r@.untracked =~= Seq::<Seq<u8>>::empty());
                }
                r
            },
            Some(c) => RepositoryStatus {
                modified: collect_flagged(c, Flag::Modified),
                staged: collect_flagged(c, Flag::Staged),
                untracked: collect_flagged(c, Flag::Untracked),
            },
        }
    }

    /// Returns whether the repository has tracked worktree changes. This
    /// does not include staged changes or untracked files.
    pub fn has_worktree_changes(&self) -> (r: bool)
        ensures
            r == (self@.modified.len() > 0),
    {
        self.modified.len() > 0
    }

    /// Returns the tracked paths with worktree changes, in ascending order.
    pub fn modified_files(&self) -> (r: &[Vec<u8>])
        ensures
            path_views(r@) == self@.modified,
    {
        self.modified.as_slice()
    }

    /// Returns whether the repository has staged changes in the index.
    pub fn has_staged_changes(&self) -> (r: bool)
        ensures
            r == (self@.staged.len() > 0),
    {
        self.staged.len() > 0
    }

    /// Returns the tracked paths with staged changes, in ascending order.
    pub fn staged_files(&self) -> (r: &[Vec<u8>])
        ensures
            path_views(r@) == self@.staged,
    {
        self.staged.as_slice()
    }

    /// Returns whether the repository has untracked files.
    pub fn has_untracked_files(&self) -> (r: bool)
        ensures
            r == (self@.untracked.len() > 0),
    {
        self.untracked.len() > 0
    }

    /// Returns the untracked paths, in ascending order.
    pub fn untracked_files(&self) -> (r: &[Vec<u8>])
        ensures
            path_views(r@) == self@.untracked,
    {
        self.untracked.as_slice()
    }

    /// Returns whether the repository has any worktree, staged, or
    /// untracked changes.
    pub fn is_dirty(&self) -> (r: bool)
        ensures
            r == (self@.modified.len() > 0 || self@.staged.len() > 0 || self@.untracked.len() > 0),
    {
        self.has_worktree_changes() || self.has_staged_changes() || self.has_untracked_files()
    }
}

/// The status of a single file: its path and whether it is modified,
/// staged, or untracked. A clean file has no flag set; more than one flag
/// may be set for the same file.
#[derive(Debug)]
pub struct FileStatus {
    path: Vec<u8>,
    modified: bool,
    staged: bool,
    untracked: bool,
}

impl View for FileStatus {
    type V = FileChangeView;

    open spec fn view(&self) -> FileChangeView {
        self.model()
    }
}

impl FileStatus {
    /// What this status holds.
    pub closed spec fn model(&self) -> FileChangeView {
        FileChangeView {
            path: self.path@,
            modified: self.modified,
            staged: self.staged,
            untracked: self.untracked,
        }
    }

    /// The status of the file at `path` whose change query answered
    /// `change`: the change's flags and path, or a clean file at `path`.
    pub fn from_change(path: Vec<u8>, change: Option<FileChange>) -> (r: FileStatus)
        ensures
            match change {
                Some(c) => r@ == c@,
                None => r@ == FileChangeView {
                    path: path@,
                    modified: false,
                    staged: false,
                    untracked: false,
                },
            },
    {
        match change {
            None => FileStatus { path, modified: false, staged: false, untracked: false },
            Some(c) => FileStatus {
                path: slice_to_vec(c.path()),
                modified: c.is_modified(),
                staged: c.is_staged(),
                untracked: c.is_untracked(),
            },
        }
    }

    /// Returns the bytes of the path of the file, relative to the worktree.
    pub fn path(&self) -> (r: &[u8])
        ensures
            r@ == self@.path,
    {
        self.path.as_slice()
    }

    /// Returns whether the file has tracked worktree changes.
    pub fn is_modified(&self) -> (r: bool)
        ensures
            r == self@.modified,
    {
        self.modified
    }

    /// Returns whether the file has staged changes in the index.
    pub fn is_staged(&self) -> (r: bool)
        ensures
            r == self@.staged,
    {
        self.staged
    }

    /// Returns whether the file is untracked.
    pub fn is_untracked(&self) -> (r: bool)
        ensures
            r == self@.untracked,
    {
        self.untracked
    }

    /// Returns whether the file is modified, staged, or untracked.
    pub fn is_dirty(&self) -> (r: bool)
        ensures
            r == (self@.modified || self@.staged || self@.untracked),
    {
        self.modified || self.staged || self.untracked
    }
}

} // verus!
