//! `--allow-*` style safety checks before modifying files.
//!
//! The options follow `cargo fix`:
//!
//! - `allow_no_vcs` treats modification as safe and skips repository
//!   discovery and repository state checks entirely;
//! - `allow_dirty` still requires repository discovery, but treats dirty
//!   files and staged changes as safe (it implies `allow_staged`);
//! - `allow_staged` still requires discovery and change queries; staged
//!   changes are safe, dirty files are not.
//!
//! A check runs as a [`SafetyCheck`]: it names the repository query it needs
//! next as a [`CheckAction`], the caller performs the query and hands the
//! answer back, until the action is [`CheckAction::Done`].
use vstd::prelude::*;
use vstd::slice::slice_to_vec;

use crate::path_order::strictly_ascending;
use crate::repository::{
    dirty_pred, law_selection_keeps_path_order, lemma_selected_empty, path_views, paths_of, selected,
    staged_pred, well_formed_changes, FileChangeView, RepositoryChanges,
};

verus! {

/// What an [`AllowOptions`] value holds.
pub struct AllowOptionsView {
    pub allow_no_vcs: bool,
    pub allow_dirty: bool,
    pub allow_staged: bool,
    pub check_entire_repository: bool,
}

/// Options for `--allow-*` style safety checks before modifying files.
///
/// By default, checks are scoped to the queried path; see
/// [`Self::check_entire_repository`].
#[derive(Debug)]
pub struct AllowOptions {
    allow_no_vcs: bool,
    allow_dirty: bool,
    allow_staged: bool,
    check_entire_repository: bool,
}

impl View for AllowOptions {
    type V = AllowOptionsView;

    open spec fn view(&self) -> AllowOptionsView {
        self.model()
    }
}

impl AllowOptions {
    /// What these options hold.
    pub closed spec fn model(&self) -> AllowOptionsView {
        AllowOptionsView {
            allow_no_vcs: self.allow_no_vcs,
            allow_dirty: self.allow_dirty,
            allow_staged: self.allow_staged,
            check_entire_repository: self.check_entire_repository,
        }
    }

    /// Creates options with every `--allow-*` option disabled and checks
    /// scoped to the queried path.
    pub fn new() -> (r: AllowOptions)
        ensures
            r@ == (AllowOptionsView {
                allow_no_vcs: false,
                allow_dirty: false,
                allow_staged: false,
                check_entire_repository: false,
            }),
    {
        AllowOptions {
            allow_no_vcs: false,
            allow_dirty: false,
            allow_staged: false,
            check_entire_repository: false,
        }
    }

    /// Sets whether to use `cargo fix`-style `--allow-no-vcs` behavior: skip
    /// repository discovery and repository state checks entirely.
    pub fn allow_no_vcs(self, enabled: bool) -> (r: AllowOptions)
        ensures
            r@ == (AllowOptionsView { allow_no_vcs: enabled, ..self@ }),
    {
        AllowOptions { allow_no_vcs: enabled, ..self }
    }

    /// Sets whether to use `cargo fix`-style `--allow-dirty` behavior: dirty
    /// files and staged changes are safe, a repository is still required.
    pub fn allow_dirty(self, enabled: bool) -> (r: AllowOptions)
        ensures
            r@ == (AllowOptionsView { allow_dirty: enabled, ..self@ }),
    {
        AllowOptions { allow_dirty: enabled, ..self }
    }

    /// Sets whether to use `cargo fix`-style `--allow-staged` behavior:
    /// staged changes are safe, dirty files are not.
    pub fn allow_staged(self, enabled: bool) -> (r: AllowOptions)
        ensures
            r@ == (AllowOptionsView { allow_staged: enabled, ..self@ }),
    {
        AllowOptions { allow_staged: enabled, ..self }
    }

    /// Sets whether the check covers the entire containing repository rather
    /// than only the queried path.
    pub fn check_entire_repository(self, enabled: bool) -> (r: AllowOptions)
        ensures
            r@ == (AllowOptionsView { check_entire_repository: enabled, ..self@ }),
    {
        AllowOptions { check_entire_repository: enabled, ..self }
    }
}

impl Clone for AllowOptions {
    fn clone(&self) -> (r: AllowOptions)
        ensures
            r@ == self@,
    {
        AllowOptions {
            allow_no_vcs: self.allow_no_vcs,
            allow_dirty: self.allow_dirty,
            allow_staged: self.allow_staged,
            check_entire_repository: self.check_entire_repository,
        }
    }
}

impl Default for AllowOptions {
    fn default() -> (r: AllowOptions)
        ensures
            r@ == (AllowOptionsView {
                allow_no_vcs: false,
                allow_dirty: false,
                allow_staged: false,
                check_entire_repository: false,
            }),
    {
        AllowOptions::new()
    }
}

/// The reason modification of the queried target is unsafe.
#[derive(Debug)]
pub enum UnsafeModificationReason {
    /// No supported VCS repository was found for the queried target.
    NoVcs,
    /// Dirty files were found.
    ///
    /// `staged_files` is non-empty only when staged changes also make the
    /// modification unsafe.
    Dirty {
        /// The root directory of the containing repository worktree.
        worktree: String,
        /// Worktree-relative paths of dirty (modified or untracked) files.
        dirty_files: Vec<Vec<u8>>,
        /// Worktree-relative paths of staged files that also make the
        /// modification unsafe.
        staged_files: Vec<Vec<u8>>,
    },
    /// Staged changes were found.
    Staged {
        /// The root directory of the containing repository worktree.
        worktree: String,
        /// Worktree-relative paths of staged files.
        staged_files: Vec<Vec<u8>>,
    },
}

/// Whether modification of the queried target is safe under the configured
/// `--allow-*` policy.
#[derive(Debug)]
pub enum ModificationSafety {
    /// Modification is safe.
    Safe,
    /// Modification is unsafe, for the given reason.
    Unsafe(UnsafeModificationReason),
}

impl From<UnsafeModificationReason> for ModificationSafety {
    fn from(reason: UnsafeModificationReason) -> (r: ModificationSafety)
        ensures
            r == ModificationSafety::Unsafe(reason),
    {
        ModificationSafety::Unsafe(reason)
    }
}

impl vstd::std_specs::convert::FromSpecImpl<UnsafeModificationReason> for ModificationSafety {
    open spec fn obeys_from_spec() -> bool {
        true
    }

    open spec fn from_spec(reason: UnsafeModificationReason) -> ModificationSafety {
        ModificationSafety::Unsafe(reason)
    }
}

/// What an [`UnsafeModificationReason`] holds.
pub enum ReasonView {
    NoVcs,
    Dirty { worktree: Seq<char>, dirty_files: Seq<Seq<u8>>, staged_files: Seq<Seq<u8>> },
    Staged { worktree: Seq<char>, staged_files: Seq<Seq<u8>> },
}

/// What a [`ModificationSafety`] holds.
pub enum SafetyView {
    Safe,
    Unsafe(ReasonView),
}

impl View for UnsafeModificationReason {
    type V = ReasonView;

    open spec fn view(&self) -> ReasonView {
        match self {
            UnsafeModificationReason::NoVcs => ReasonView::NoVcs,
            UnsafeModificationReason::Dirty { worktree, dirty_files, staged_files } => {
                ReasonView::Dirty {
                    worktree: worktree@,
                    dirty_files: path_views(dirty_files@),
                    staged_files: path_views(staged_files@),
                }
            },
            UnsafeModificationReason::Staged { worktree, staged_files } => ReasonView::Staged {
                worktree: worktree@,
                staged_files: path_views(staged_files@),
            },
        }
    }
}

impl View for ModificationSafety {
    type V = SafetyView;

    open spec fn view(&self) -> SafetyView {
        match self {
            ModificationSafety::Safe => SafetyView::Safe,
            ModificationSafety::Unsafe(reason) => SafetyView::Unsafe(reason@),
        }
    }
}

/// The paths of the dirty files of a change set, in its order.
pub open spec fn dirty_paths(changes: Seq<FileChangeView>) -> Seq<Seq<u8>> {
    paths_of(selected(changes, dirty_pred()))
}

/// The paths of the staged files of a change set, in its order.
pub open spec fn staged_paths(changes: Seq<FileChangeView>) -> Seq<Seq<u8>> {
    paths_of(selected(changes, staged_pred()))
}

/// The verdict on a discovered repository with worktree `worktree` whose
/// queried changes are `changes` (`None` when there are none), for options
/// without `allow_no_vcs` and `allow_dirty`.
pub open spec fn assess(
    options: AllowOptionsView,
    worktree: Seq<char>,
    changes: Option<Seq<FileChangeView>>,
) -> SafetyView {
    match changes {
        None => SafetyView::Safe,
        Some(c) => {
            let dirty = dirty_paths(c);
            if options.allow_staged {
                if dirty.len() == 0 {
                    SafetyView::Safe
                } else {
                    SafetyView::Unsafe(
                        ReasonView::Dirty { worktree, dirty_files: dirty, staged_files: seq![] },
                    )
                }
            } else {
                let staged = staged_paths(c);
                if dirty.len() == 0 {
                    SafetyView::Unsafe(ReasonView::Staged { worktree, staged_files: staged })
                } else {
                    SafetyView::Unsafe(
                        ReasonView::Dirty { worktree, dirty_files: dirty, staged_files: staged },
                    )
                }
            }
        },
    }
}

/// The verdict of a whole check: `worktree` is the worktree of the
/// discovered repository (`None` when none was found), `changes` the
/// answer of the change query (`None` when there are no changes).
pub open spec fn check_outcome(
    options: AllowOptionsView,
    worktree: Option<Seq<char>>,
    changes: Option<Seq<FileChangeView>>,
) -> SafetyView {
    if options.allow_no_vcs {
        SafetyView::Safe
    } else {
        match worktree {
            None => SafetyView::Unsafe(ReasonView::NoVcs),
            Some(w) => if options.allow_dirty {
                SafetyView::Safe
            } else {
                assess(options, w, changes)
            },
        }
    }
}

/// The next step of a [`SafetyCheck`].
#[derive(Debug)]
pub enum CheckAction {
    /// Discover the repository containing the queried path.
    Discover,
    /// Resolve the queried path to a worktree-relative path.
    ResolvePath,
    /// Query the changes under the given worktree-relative path.
    QueryPathChanges(String),
    /// Query the changes of the entire repository.
    QueryRepositoryChanges,
    /// The check is complete.
    Done(ModificationSafety),
}

/// What a [`CheckAction`] holds.
pub enum ActionView {
    Discover,
    ResolvePath,
    QueryPathChanges(Seq<char>),
    QueryRepositoryChanges,
    Done(SafetyView),
}

impl View for CheckAction {
    type V = ActionView;

    open spec fn view(&self) -> ActionView {
        match self {
            CheckAction::Discover => ActionView::Discover,
            CheckAction::ResolvePath => ActionView::ResolvePath,
            CheckAction::QueryPathChanges(p) => ActionView::QueryPathChanges(p@),
            CheckAction::QueryRepositoryChanges => ActionView::QueryRepositoryChanges,
            CheckAction::Done(s) => ActionView::Done(s@),
        }
    }
}

/// The first action of a check.
pub open spec fn first_action(options: AllowOptionsView) -> ActionView {
    if options.allow_no_vcs {
        ActionView::Done(SafetyView::Safe)
    } else {
        ActionView::Discover
    }
}

/// The action after discovery found `worktree` (`None`: no repository).
pub open spec fn action_after_discovery(
    options: AllowOptionsView,
    worktree: Option<Seq<char>>,
) -> ActionView {
    match worktree {
        None => ActionView::Done(SafetyView::Unsafe(ReasonView::NoVcs)),
        Some(_) => if options.allow_dirty {
            ActionView::Done(SafetyView::Safe)
        } else if options.check_entire_repository {
            ActionView::QueryRepositoryChanges
        } else {
            ActionView::ResolvePath
        },
    }
}

/// The state of a check in progress.
pub struct SafetyCheckView {
    pub options: AllowOptionsView,
    pub worktree: Seq<char>,
    pub action: ActionView,
}

/// A `--allow-*` safety check in progress.
///
/// [`Self::action`] names what the check needs next; the caller performs it
/// and reports the answer with [`Self::discovered`], [`Self::resolved`] or
/// [`Self::changes_found`], until the action is [`CheckAction::Done`].
#[derive(Debug)]
pub struct SafetyCheck {
    options: AllowOptions,
    worktree: String,
    action: CheckAction,
}

impl View for SafetyCheck {
    type V = SafetyCheckView;

    open spec fn view(&self) -> SafetyCheckView {
        self.model()
    }
}

impl AllowOptions {
    /// Starts a safety check under these options.
    pub fn start_check(&self) -> (r: SafetyCheck)
        ensures
            r@.options == self@,
            r@.action == first_action(self@),
    {
        let options = self.clone();
        let action = if self.allow_no_vcs {
            CheckAction::Done(ModificationSafety::Safe)
        } else {
            CheckAction::Discover
        };
        SafetyCheck { options, worktree: String::new(), action }
    }
}

impl SafetyCheck {
    /// A check asks for a repository only without `allow_no_vcs`, and for
    /// changes only without `allow_dirty` either.
    #[verifier::type_invariant]
    spec fn steps_follow_options(&self) -> bool {
        &&& self.action is Discover ==> !self.options.allow_no_vcs
        &&& (self.action is ResolvePath || self.action is QueryPathChanges
            || self.action is QueryRepositoryChanges) ==> !self.options.allow_no_vcs
            && !self.options.allow_dirty
    }

    /// The state of this check.
    pub closed spec fn model(&self) -> SafetyCheckView {
        SafetyCheckView { options: self.options@, worktree: self.worktree@, action: self.action@ }
    }

    /// Returns the next step of this check.
    pub fn action(&self) -> (r: &CheckAction)
        ensures
            r@ == self@.action,
    {
        &self.action
    }

    /// Reports the result of repository discovery: the worktree of the
    /// repository found, or `None` when there is none. The worktree is held
    /// as UTF-8 text; a worktree whose path is not valid UTF-8 cannot be
    /// reported.
    pub fn discovered(&mut self, worktree: Option<String>)
        requires
            old(self)@.action is Discover,
        ensures
            final(self)@.options == old(self)@.options,
            final(self)@.action == action_after_discovery(
                old(self)@.options,
                match worktree {
                    Some(w) => Some(w@),
                    None => None,
                },
            ),
            worktree matches Some(w) ==> final(self)@.worktree == w@,
            worktree is None ==> final(self)@.worktree == old(self)@.worktree,
    {
        proof {
            use_type_invariant(&*self);
        }
        match worktree {
            None => {
                self.action = CheckAction::Done(
                    ModificationSafety::Unsafe(UnsafeModificationReason::NoVcs),
                );
            },
            Some(w) => {
                self.worktree = w;
                if self.options.allow_dirty {
                    self.action = CheckAction::Done(ModificationSafety::Safe);
                } else if self.options.check_entire_repository {
                    self.action = CheckAction::QueryRepositoryChanges;
                } else {
                    self.action = CheckAction::ResolvePath;
                }
            },
        }
    }

    /// Reports the worktree-relative path that the queried path resolved to.
    pub fn resolved(&mut self, wt_path: String)
        requires
            old(self)@.action is ResolvePath,
        ensures
            final(self)@.options == old(self)@.options,
            final(self)@.worktree == old(self)@.worktree,
            final(self)@.action == ActionView::QueryPathChanges(wt_path@),
    {
        proof {
            use_type_invariant(&*self);
        }
        self.action = CheckAction::QueryPathChanges(wt_path);
    }

    /// Reports the answer of the change query: the changes found, or `None`
    /// when there are none.
    pub fn changes_found(&mut self, changes: Option<RepositoryChanges>)
        requires
            old(self)@.action is QueryPathChanges || old(self)@.action is QueryRepositoryChanges,
        ensures
            !old(self)@.options.allow_no_vcs,
            !old(self)@.options.allow_dirty,
            final(self)@.options == old(self)@.options,
            final(self)@.worktree == old(self)@.worktree,
            final(self)@.action == ActionView::Done(
                assess(
                    old(self)@.options,
                    old(self)@.worktree,
                    match changes {
                        Some(c) => Some(c@),
                        None => None,
                    },
                ),
            ),
    {
        proof {
            use_type_invariant(&*self);
        }
        let safety = assess_changes(&self.options, &self.worktree, changes);
        self.action = CheckAction::Done(safety);
    }

    /// Returns the verdict of a completed check, or `None` while the check
    /// still needs an answer.
    pub fn finish(self) -> (r: Option<ModificationSafety>)
        ensures
            r is Some <==> self@.action is Done,
            r matches Some(s) ==> self@.action == ActionView::Done(s@),
    {
        match self.action {
            CheckAction::Done(safety) => Some(safety),
            _ => None,
        }
    }
}

/// Collects the paths of the files of `changes` that are dirty (or staged,
/// when `staged` is set), in order.
fn collect_paths(changes: &RepositoryChanges, staged: bool) -> (r: Vec<Vec<u8>>)
    ensures
        path_views(r@) == if staged {
            staged_paths(changes@)
        } else {
            dirty_paths(changes@)
        },
{
    let ghost pred = if staged {
        staged_pred()
    } else {
        dirty_pred()
    };
    let ghost all = changes@;
    let mut files = changes.files();
    let mut out: Vec<Vec<u8>> = Vec::new();
    let ghost mut k: int = 0;
    while files.len() > 0
        invariant
            0 <= k <= all.len(),
            files.remaining() == all.skip(k),
            path_views(out@) == paths_of(selected(all.take(k), pred)),
            pred == if staged {
                staged_pred()
            } else {
                dirty_pred()
            },
        decreases all.len() - k,
    {
        let ghost before = out@;
        let f = files.next().unwrap();
        proof {
            assert(all.skip(k)[0] == all[k]);
            assert(all.skip(k).drop_first() =~= all.skip(k + 1));
            assert(all.take(k + 1).drop_last() =~= all.take(k));
            assert(all.take(k + 1).last() == all[k]);
        }
        let keep = if staged {
            f.is_staged()
        } else {
            f.is_dirty()
        };
        if keep {
            out.push(slice_to_vec(f.path()));
            proof {
                assert(path_views(out@) =~= path_views(before).push(f@.path));
                assert(paths_of(selected(all.take(k), pred).push(f@)) =~= paths_of(
                    selected(all.take(k), pred),
                ).push(f@.path));
            }
        }
        proof {
            k = k + 1;
        }
    }
    proof {
        assert(all.skip(k).len() == 0);
        assert(all.take(k) =~= all);
    }
    out
}

/// The verdict of [`assess`], computed.
fn assess_changes(options: &AllowOptions, worktree: &String, changes: Option<RepositoryChanges>) -> (r:
    ModificationSafety)
    ensures
        r@ == assess(
            options@,
            worktree@,
            match changes {
                Some(c) => Some(c@),
                None => None,
            },
        ),
{
    let changes = match changes {
        None => return ModificationSafety::Safe,
        Some(c) => c,
    };
    let dirty_files = collect_paths(&changes, false);
    if options.allow_staged {
        if dirty_files.len() > 0 {
            let staged_files: Vec<Vec<u8>> = Vec::new();
            proof {
                assert(path_views(staged_files@) =~= Seq::<Seq<u8>>::empty());
            }
            return ModificationSafety::Unsafe(
                UnsafeModificationReason::Dirty { worktree: worktree.clone(), dirty_files, staged_files },
            );
        }
        return ModificationSafety::Safe;
    }
    let staged_files = collect_paths(&changes, true);
    if dirty_files.len() == 0 {
        return ModificationSafety::Unsafe(
            UnsafeModificationReason::Staged { worktree: worktree.clone(), staged_files },
        );
    }
    ModificationSafety::Unsafe(
        UnsafeModificationReason::Dirty { worktree: worktree.clone(), dirty_files, staged_files },
    )
}


/// The steps of a [`SafetyCheck`] reach the verdict [`check_outcome`]: a check
/// that is done after its first step, after discovery, or after its change
/// query has the verdict of the whole check on the same answers.
pub proof fn law_steps_reach_outcome(
    options: AllowOptionsView,
    worktree: Option<Seq<char>>,
    changes: Option<Seq<FileChangeView>>,
)
    ensures
        first_action(options) matches ActionView::Done(v) ==> v == check_outcome(
            options,
            worktree,
            changes,
        ),
        first_action(options) is Discover ==> (action_after_discovery(
            options,
            worktree,
        ) matches ActionView::Done(v) ==> v == check_outcome(options, worktree, changes)),
        first_action(options) is Discover && !(action_after_discovery(options, worktree) is Done)
            ==> (worktree matches Some(w) && !options.allow_no_vcs && !options.allow_dirty
            && assess(options, w, changes) == check_outcome(options, worktree, changes)),
{
}

/// With `allow_no_vcs`, modification is safe whatever the repository holds,
/// and the check is done before discovery.
pub proof fn law_allow_no_vcs_is_safe(
    options: AllowOptionsView,
    worktree: Option<Seq<char>>,
    changes: Option<Seq<FileChangeView>>,
)
    requires
        options.allow_no_vcs,
    ensures
        check_outcome(options, worktree, changes) == SafetyView::Safe,
        first_action(options) == ActionView::Done(SafetyView::Safe),
{
}

/// Without `allow_no_vcs`, a missing repository makes modification unsafe,
/// whatever the other options say.
pub proof fn law_no_repository_is_unsafe(
    options: AllowOptionsView,
    changes: Option<Seq<FileChangeView>>,
)
    requires
        !options.allow_no_vcs,
    ensures
        check_outcome(options, None, changes) == SafetyView::Unsafe(ReasonView::NoVcs),
{
}

/// With `allow_dirty`, modification in a discovered repository is safe and
/// no change query is made.
pub proof fn law_allow_dirty_is_safe(
    options: AllowOptionsView,
    worktree: Seq<char>,
    changes: Option<Seq<FileChangeView>>,
)
    requires
        options.allow_dirty,
    ensures
        check_outcome(options, Some(worktree), changes) == SafetyView::Safe,
        !options.allow_no_vcs ==> action_after_discovery(options, Some(worktree)) == ActionView::Done(
            SafetyView::Safe,
        ),
{
}

/// `allow_dirty` implies `allow_staged`: whatever `allow_staged` makes safe,
/// `allow_dirty` makes safe too.
pub proof fn law_allow_dirty_implies_allow_staged(
    options: AllowOptionsView,
    worktree: Option<Seq<char>>,
    changes: Option<Seq<FileChangeView>>,
)
    requires
        check_outcome(AllowOptionsView { allow_staged: true, ..options }, worktree, changes)
            == SafetyView::Safe,
    ensures
        check_outcome(AllowOptionsView { allow_dirty: true, ..options }, worktree, changes)
            == SafetyView::Safe,
{
}

/// Enabling more `--allow-*` options never turns a safe verdict unsafe.
pub proof fn law_more_options_never_block(
    weaker: AllowOptionsView,
    stronger: AllowOptionsView,
    worktree: Option<Seq<char>>,
    changes: Option<Seq<FileChangeView>>,
)
    requires
        weaker.allow_no_vcs ==> stronger.allow_no_vcs,
        weaker.allow_dirty ==> stronger.allow_dirty,
        weaker.allow_staged ==> stronger.allow_staged,
        check_outcome(weaker, worktree, changes) == SafetyView::Safe,
    ensures
        check_outcome(stronger, worktree, changes) == SafetyView::Safe,
{
    if !stronger.allow_no_vcs && !stronger.allow_dirty && worktree is Some {
        if let Some(c) = changes {
            if !weaker.allow_staged {
                assert(false);
            }
        }
    }
}

/// Dirty files stay unsafe under `allow_staged`: without `allow_no_vcs` and
/// `allow_dirty`, a change set with a dirty file gives the `Dirty` reason
/// naming the dirty files, with staged files listed only when
/// `allow_staged` is off.
pub proof fn law_dirty_files_are_unsafe(
    options: AllowOptionsView,
    worktree: Seq<char>,
    changes: Seq<FileChangeView>,
)
    requires
        !options.allow_no_vcs,
        !options.allow_dirty,
        exists|i: int| 0 <= i < changes.len() && (#[trigger] changes[i]).is_dirty(),
    ensures
        check_outcome(options, Some(worktree), Some(changes)) == SafetyView::Unsafe(
            ReasonView::Dirty {
                worktree,
                dirty_files: dirty_paths(changes),
                staged_files: if options.allow_staged {
                    seq![]
                } else {
                    staged_paths(changes)
                },
            },
        ),
{
    lemma_selected_empty(changes, dirty_pred());
    let i = choose|i: int| 0 <= i < changes.len() && (#[trigger] changes[i]).is_dirty();
    assert(dirty_pred()(changes[i]));
}

/// A change set made of staged-only files is unsafe without `allow_staged`
/// and safe with it (given neither `allow_no_vcs` nor `allow_dirty`).
pub proof fn law_staged_only_changes(
    options: AllowOptionsView,
    worktree: Seq<char>,
    changes: Seq<FileChangeView>,
)
    requires
        !options.allow_no_vcs,
        !options.allow_dirty,
        forall|i: int| 0 <= i < changes.len() ==> !(#[trigger] changes[i]).is_dirty(),
    ensures
        check_outcome(options, Some(worktree), Some(changes)) == if options.allow_staged {
            SafetyView::Safe
        } else {
            SafetyView::Unsafe(
                ReasonView::Staged { worktree, staged_files: staged_paths(changes) },
            )
        },
{
    assert forall|i: int| 0 <= i < changes.len() implies !dirty_pred()(#[trigger] changes[i]) by {
        assert(!changes[i].is_dirty());
    };
    lemma_selected_empty(changes, dirty_pred());
}

/// The files a verdict names are the offending files of the change set, in
/// ascending path order: a `Dirty` reason names at least one dirty file and
/// no staged file under `allow_staged`; a `Staged` reason names at least one
/// staged file and comes only when no file is dirty.
pub proof fn law_reasons_name_offending_files(
    options: AllowOptionsView,
    worktree: Option<Seq<char>>,
    changes: Option<Seq<FileChangeView>>,
)
    requires
        changes matches Some(c) ==> well_formed_changes(c),
    ensures
        check_outcome(options, worktree, changes) matches SafetyView::Unsafe(
            ReasonView::Dirty { dirty_files, staged_files, .. },
        ) ==> {
            &&& changes matches Some(c) && dirty_files == dirty_paths(c)
            &&& dirty_files.len() > 0
            &&& strictly_ascending(dirty_files)
            &&& strictly_ascending(staged_files)
            &&& options.allow_staged ==> staged_files.len() == 0
        },
        check_outcome(options, worktree, changes) matches SafetyView::Unsafe(
            ReasonView::Staged { staged_files, .. },
        ) ==> {
            &&& changes matches Some(c) && staged_files == staged_paths(c) && forall|i: int|
                0 <= i < c.len() ==> !(#[trigger] c[i]).is_dirty()
            &&& staged_files.len() > 0
            &&& strictly_ascending(staged_files)
        },
{
    if let Some(c) = changes {
        law_selection_keeps_path_order(c, dirty_pred());
        law_selection_keeps_path_order(c, staged_pred());
        lemma_selected_empty(c, dirty_pred());
        lemma_selected_empty(c, staged_pred());
        assert(strictly_ascending(Seq::<Seq<u8>>::empty()));
        if dirty_paths(c).len() == 0 {
            assert forall|i: int| 0 <= i < c.len() implies !(#[trigger] c[i]).is_dirty() by {
                assert(!dirty_pred()(c[i]));
            };
            if c.len() > 0 {
                assert(c[0].is_change());
                assert(staged_pred()(c[0]));
            }
        }
    }
}

/// Exactly when modification is safe: with `allow_no_vcs`; or in a
/// discovered repository with `allow_dirty`, with no changes, or with
/// `allow_staged` and no dirty file.
pub proof fn law_safe_exactly_when(
    options: AllowOptionsView,
    worktree: Option<Seq<char>>,
    changes: Option<Seq<FileChangeView>>,
)
    requires
        changes matches Some(c) ==> well_formed_changes(c),
    ensures
        (check_outcome(options, worktree, changes) == SafetyView::Safe) <==> (options.allow_no_vcs
            || (worktree is Some && (options.allow_dirty || changes is None || (
        options.allow_staged && (changes matches Some(c) && forall|i: int|
            0 <= i < c.len() ==> !(#[trigger] c[i]).is_dirty()))))),
{
    if let Some(c) = changes {
        lemma_selected_empty(c, dirty_pred());
        assert((forall|i: int| 0 <= i < c.len() ==> !(#[trigger] c[i]).is_dirty()) <==> (forall|
            i: int,
        |
            0 <= i < c.len() ==> !dirty_pred()(#[trigger] c[i])));
    }
}

} // verus!
