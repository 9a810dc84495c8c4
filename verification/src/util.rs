//! Worktree-relative paths.
use vstd::prelude::*;
use vstd::slice::slice_to_vec;
use vstd::utf8::encode_utf8;
use vstd::string::{StrSliceExecFns, StringExecFns};

use crate::error::ModifyGuardError;

verus! {

/// What a [`NormalizedWorktreePath`] holds.
pub struct NormalizedPathView {
    /// The path exists in the worktree.
    pub existing: bool,
    /// The path.
    pub path: Seq<char>,
}

/// A path whose existing prefix has been canonicalized: the whole path
/// exists, or a suffix of plain names does not.
#[derive(Debug)]
pub enum NormalizedWorktreePath {
    /// The whole path exists.
    Existing(String),
    /// A trailing part of the path does not exist.
    Missing(String),
}

impl View for NormalizedWorktreePath {
    type V = NormalizedPathView;

    open spec fn view(&self) -> NormalizedPathView {
        match self {
            NormalizedWorktreePath::Existing(p) => NormalizedPathView { existing: true, path: p@ },
            NormalizedWorktreePath::Missing(p) => NormalizedPathView { existing: false, path: p@ },
        }
    }
}

impl NormalizedWorktreePath {
    /// Returns the path.
    pub fn as_path(&self) -> (r: &str)
        ensures
            r@ == self@.path,
    {
        match self {
            NormalizedWorktreePath::Existing(p) => p.as_str(),
            NormalizedWorktreePath::Missing(p) => p.as_str(),
        }
    }

    /// Returns whether the path is empty, which names the worktree root.
    pub fn is_empty(&self) -> (r: bool)
        ensures
            r == (self@.path.len() == 0),
    {
        self.as_path().is_empty()
    }

    /// Returns the path, dropping whether it exists.
    pub fn into_path(self) -> (r: String)
        ensures
            r@ == self@.path,
    {
        match self {
            NormalizedWorktreePath::Existing(p) => p,
            NormalizedWorktreePath::Missing(p) => p,
        }
    }
}


/// Returns the bytes of the path `path`: its UTF-8 encoding.
pub fn path_bytes(path: &str) -> (r: Vec<u8>)
    ensures
        r@ == encode_utf8(path@),
{
    slice_to_vec(path.as_bytes())
}

/// A component of a path, as `std::path::Component` names them.
#[derive(Debug)]
pub enum PathComponent {
    /// A Windows path prefix, such as `C:`.
    Prefix(String),
    /// The root directory.
    RootDir,
    /// `.`
    CurDir,
    /// `..`
    ParentDir,
    /// A plain name.
    Normal(String),
}

/// The `/` separator.
pub open spec fn separator() -> char {
    '/'
}

/// `base` extended by the plain name `name`, with a separator between them
/// unless `base` is empty or ends with one.
pub open spec fn pushed(base: Seq<char>, name: Seq<char>) -> Seq<char> {
    if base.len() == 0 || base.last() == separator() {
        base + name
    } else {
        base.push(separator()) + name
    }
}

/// `base` extended by the plain names `names`, in order.
pub open spec fn pushed_all(base: Seq<char>, names: Seq<Seq<char>>) -> Seq<char>
    decreases names.len(),
{
    if names.len() == 0 {
        base
    } else {
        pushed(pushed_all(base, names.drop_last()), names.last())
    }
}

/// Whether a component is a plain name.
pub open spec fn is_normal(c: PathComponent) -> bool {
    c is Normal
}

/// The names of plain-name components.
pub open spec fn names_of(cs: Seq<PathComponent>) -> Seq<Seq<char>> {
    cs.map_values(|c: PathComponent| match c {
        PathComponent::Normal(n) => n@,
        _ => Seq::<char>::empty(),
    })
}

/// The next step of a [`PathNormalizer`].
#[derive(Debug)]
pub enum NormalizeStep {
    /// Canonicalize the path made of the first `n` components.
    Canonicalize(usize),
    /// Normalization is complete.
    Done(Result<NormalizedWorktreePath, ModifyGuardError>),
}

/// Normalization of a path in progress.
///
/// The longest prefix of the path's components that canonicalizes is kept;
/// the components trimmed from its end must be plain names, which are
/// appended to the canonical prefix. [`Self::step`] names the prefix to
/// canonicalize next; the caller reports the canonical path, or `None` when
/// the prefix does not exist, with [`Self::canonicalized`].
#[derive(Debug)]
pub struct PathNormalizer {
    path: String,
    components: Vec<PathComponent>,
    step: NormalizeStep,
}

impl PathNormalizer {
    /// The path being normalized.
    pub closed spec fn path(&self) -> Seq<char> {
        self.path@
    }

    /// Its components.
    pub closed spec fn components(&self) -> Seq<PathComponent> {
        self.components@
    }

    /// The next step.
    pub closed spec fn next_step(&self) -> &NormalizeStep {
        &self.step
    }

    #[verifier::type_invariant]
    spec fn inv(&self) -> bool {
        self.step matches NormalizeStep::Canonicalize(n) ==> {
            &&& n <= self.components@.len()
            &&& forall|i: int| n <= i < self.components@.len() ==> is_normal(
                #[trigger] self.components@[i],
            )
        }
    }

    /// Starts normalizing `path`, whose components are `components`: first
    /// the whole path is canonicalized.
    pub fn new(path: String, components: Vec<PathComponent>) -> (r: PathNormalizer)
        ensures
            r.path() == path@,
            r.components() == components@,
            r.next_step() matches NormalizeStep::Canonicalize(n) && n == components@.len(),
    {
        let n = components.len();
        PathNormalizer { path, components, step: NormalizeStep::Canonicalize(n) }
    }

    /// Returns the next step.
    pub fn step(&self) -> (r: &NormalizeStep)
        ensures
            r == self.next_step(),
    {
        &self.step
    }

    /// Reports the canonical form of the prefix named by the step, or `None`
    /// when that prefix does not exist.
    ///
    /// A canonical prefix completes normalization: the path exists when no
    /// component was trimmed, and otherwise is the canonical prefix extended
    /// by the trimmed names. A missing prefix trims its last component,
    /// which must be a plain name; a path with no component left, or whose
    /// last kept component is not a plain name, does not resolve to a path
    /// within the worktree.
    pub fn canonicalized(&mut self, canonical: Option<String>)
        requires
            old(self).next_step() is Canonicalize,
        ensures
            final(self).path() == old(self).path(),
            final(self).components() == old(self).components(),
            ({
                let n = old(self).next_step()->Canonicalize_0;
                let cs = old(self).components();
                match canonical {
                    Some(c) => final(self).next_step() matches NormalizeStep::Done(Ok(p)) && if n
                        == cs.len() {
                        p@ == NormalizedPathView { existing: true, path: c@ }
                    } else {
                        p@ == NormalizedPathView {
                            existing: false,
                            path: pushed_all(c@, names_of(cs.skip(n as int))),
                        }
                    },
                    None => if n > 0 && is_normal(cs[n - 1]) {
                        final(self).next_step() matches NormalizeStep::Canonicalize(m) && m == n - 1
                    } else {
                        final(self).next_step() matches NormalizeStep::Done(
                            Err(ModifyGuardError::InvalidWorktreeRelativePath { path: e }),
                        ) && e@ == old(self).path()
                    },
                }
            }),
    {
        proof {
            use_type_invariant(&*self);
        }
        let kept = match &self.step {
            NormalizeStep::Canonicalize(k) => *k,
            NormalizeStep::Done(_) => 0,
        };
        match canonical {
            Some(c) => {
                let n = self.components.len();
                let mut out = c;
                let mut i = kept;
                let ghost base = out@;
                proof {
                    assert(self.components@.subrange(kept as int, kept as int)
                        =~= Seq::<PathComponent>::empty());
                    assert(names_of(self.components@.subrange(kept as int, kept as int))
                        =~= Seq::<Seq<char>>::empty());
                }
                while i < n
                    invariant
                        kept <= i <= n == self.components@.len(),
                        forall|k: int| kept <= k < n ==> is_normal(
                            #[trigger] self.components@[k],
                        ),
                        out@ == pushed_all(
                            base,
                            names_of(self.components@.subrange(kept as int, i as int)),
                        ),
                    decreases n - i,
                {
                    match &self.components[i] {
                        PathComponent::Normal(name) => {
                            push_name(&mut out, name.as_str());
                            proof {
                                let ns = names_of(
                                    self.components@.subrange(kept as int, i + 1),
                                );
                                assert(ns.drop_last() =~= names_of(
                                    self.components@.subrange(kept as int, i as int),
                                ));
                                assert(ns.last() == name@);
                            }
                        },
                        _ => {
                            proof {
                                assert(is_normal(self.components@[i as int]));
                            }
                        },
                    }
                    i = i + 1;
                }
                proof {
                    assert(self.components@.subrange(kept as int, n as int) =~= self.components@.skip(
                        kept as int,
                    ));
                }
                let result = if kept == n {
                    NormalizedWorktreePath::Existing(out)
                } else {
                    NormalizedWorktreePath::Missing(out)
                };
                self.step = NormalizeStep::Done(Ok(result));
            },
            None => {
                if kept > 0 && is_normal_component(&self.components[kept - 1]) {
                    self.step = NormalizeStep::Canonicalize(kept - 1);
                } else {
                    let path = self.path.clone();
                    self.step = NormalizeStep::Done(
                        Err(ModifyGuardError::InvalidWorktreeRelativePath { path }),
                    );
                }
            },
        }
    }

    /// Returns the result of a completed normalization, or `None` while it
    /// still needs a canonical path.
    pub fn finish(self) -> (r: Option<Result<NormalizedWorktreePath, ModifyGuardError>>)
        ensures
            r is Some <==> self.next_step() is Done,
            r matches Some(x) ==> self.next_step() == NormalizeStep::Done(x),
    {
        match self.step {
            NormalizeStep::Done(x) => Some(x),
            _ => None,
        }
    }
}

fn is_normal_component(c: &PathComponent) -> (r: bool)
    ensures
        r == is_normal(*c),
{
    match c {
        PathComponent::Normal(_) => true,
        _ => false,
    }
}

/// Appends the plain name `name` to `path`, with a separator between them
/// unless `path` is empty or ends with one.
pub fn push_name(path: &mut String, name: &str)
    ensures
        final(path)@ == pushed(old(path)@, name@),
{
    let n = path.as_str().unicode_len();
    if n > 0 && path.as_str().get_char(n - 1) != '/' {
        path.append("/");
        proof {
            reveal_strlit("/");
        }
    }
    path.append(name);
    proof {
        if !(old(path)@.len() == 0 || old(path)@.last() == separator()) {
            assert(old(path)@ + "/"@ =~= old(path)@.push(separator()));
        }
    }
}


/// `p` relative to `base`, for paths in normal form (no empty, `.` or `..`
/// components, no trailing separator but in the root): `p` without the
/// components of `base`, or `None` when `base` is not a leading part of
/// `p`.
pub open spec fn stripped(p: Seq<char>, base: Seq<char>) -> Option<Seq<char>> {
    if base.len() == 0 {
        Some(p)
    } else if base.len() <= p.len() && p.take(base.len() as int) == base {
        if p.len() == base.len() {
            Some(seq![])
        } else if base.last() == separator() {
            Some(p.skip(base.len() as int))
        } else if p[base.len() as int] == separator() {
            Some(p.skip(base.len() as int + 1))
        } else {
            None
        }
    } else {
        None
    }
}

/// `relative` taken from `base`: `base` itself for the empty path, and
/// otherwise `relative` pushed onto `base`.
pub open spec fn rejoined(base: Seq<char>, relative: Seq<char>) -> Seq<char> {
    if relative.len() == 0 {
        base
    } else {
        pushed(base, relative)
    }
}

/// A path made relative to `base` names the same path again when taken from
/// `base`: a worktree-relative result of [`worktree_relative`], joined to
/// the worktree, is the normalized path it came from. The one exception is
/// `base` followed by a lone trailing separator, which is relative path
/// `""` as `base` itself is.
pub proof fn law_relative_path_rejoins(p: Seq<char>, base: Seq<char>)
    requires
        stripped(p, base) is Some,
        p != base.push(separator()),
    ensures
        rejoined(base, stripped(p, base)->0) == p,
{
    let q = stripped(p, base)->0;
    if base.len() == 0 {
        if q.len() > 0 {
            assert(base + q =~= q);
        } else {
            assert(base =~= p);
        }
    } else if p.len() == base.len() {
        assert(p =~= p.take(base.len() as int));
    } else if base.last() == separator() {
        assert(base + q =~= p) by {
            assert(p =~= p.take(base.len() as int) + p.skip(base.len() as int));
        };
    } else {
        assert(p =~= p.take(base.len() as int) + p.skip(base.len() as int));
        assert(p.skip(base.len() as int) =~= seq![separator()] + p.skip(base.len() as int + 1));
        if q.len() == 0 {
            assert(p =~= base.push(separator()));
        }
        assert(base.push(separator()) + q =~= p);
    }
}

/// Computes [`stripped`].
fn strip_base(p: &str, base: &str) -> (r: Option<String>)
    ensures
        match stripped(p@, base@) {
            Some(q) => r matches Some(x) && x@ == q,
            None => r is None,
        },
{
    let pn = p.unicode_len();
    let bn = base.unicode_len();
    if bn == 0 {
        return Some(p.to_owned());
    }
    if bn > pn {
        return None;
    }
    let mut i: usize = 0;
    while i < bn
        invariant
            i <= bn <= pn,
            bn == base@.len(),
            pn == p@.len(),
            forall|k: int| 0 <= k < i ==> p@[k] == base@[k],
        decreases bn - i,
    {
        if p.get_char(i) != base.get_char(i) {
            proof {
                assert(p@.take(bn as int)[i as int] != base@[i as int]);
            }
            return None;
        }
        i = i + 1;
    }
    proof {
        assert(p@.take(bn as int) =~= base@);
    }
    if pn == bn {
        return Some(String::new());
    }
    if base.get_char(bn - 1) == '/' {
        return Some(p.substring_char(bn, pn).to_owned());
    }
    if p.get_char(bn) == '/' {
        return Some(p.substring_char(bn + 1, pn).to_owned());
    }
    None
}

impl NormalizedWorktreePath {
    /// This path relative to `base` (see [`stripped`]), keeping whether it
    /// exists, or `None` when `base` is not a leading part of it.
    pub fn strip_prefix(&self, base: &str) -> (r: Option<NormalizedWorktreePath>)
        ensures
            match stripped(self@.path, base@) {
                Some(q) => r matches Some(x) && x@ == NormalizedPathView {
                    existing: self@.existing,
                    path: q,
                },
                None => r is None,
            },
    {
        match strip_base(self.as_path(), base) {
            None => None,
            Some(q) => match self {
                NormalizedWorktreePath::Existing(_) => Some(NormalizedWorktreePath::Existing(q)),
                NormalizedWorktreePath::Missing(_) => Some(NormalizedWorktreePath::Missing(q)),
            },
        }
    }
}

/// The worktree-relative form of `entry`, the normalized path of `path`
/// joined to the canonical `worktree`; an entry outside the worktree is an
/// error naming `path`.
pub fn worktree_relative(entry: &NormalizedWorktreePath, worktree: &str, path: &str) -> (r: Result<
    NormalizedWorktreePath,
    ModifyGuardError,
>)
    ensures
        match stripped(entry@.path, worktree@) {
            Some(q) => r matches Ok(x) && x@ == NormalizedPathView {
                existing: entry@.existing,
                path: q,
            },
            None => r matches Err(ModifyGuardError::InvalidWorktreeRelativePath { path: e }) && e@
                == path@,
        },
{
    match entry.strip_prefix(worktree) {
        Some(x) => Ok(x),
        None => Err(ModifyGuardError::InvalidWorktreeRelativePath { path: path.to_owned() }),
    }
}


/// Stripping is complete: a path below `base`, that is `base`, a separator
/// (unless `base` is empty or already ends with one) and any rest, is that
/// rest relative to `base`, whatever the rest holds (names starting with
/// `.` included).
pub proof fn law_path_below_base_strips_to_rest(base: Seq<char>, rest: Seq<char>)
    ensures
        base.len() == 0 ==> stripped(rest, base) == Some(rest),
        base.len() > 0 && base.last() == separator() ==> stripped(base + rest, base) == Some(rest),
        base.len() > 0 && base.last() != separator() ==> stripped(
            base.push(separator()) + rest,
            base,
        ) == Some(rest),
{
    if base.len() > 0 {
        let p1 = base + rest;
        assert(p1.take(base.len() as int) =~= base);
        if base.last() == separator() && rest.len() == 0 {
            assert(p1.len() == base.len());
        }
        assert(p1.skip(base.len() as int) =~= rest);
        let p2 = base.push(separator()) + rest;
        assert(p2.take(base.len() as int) =~= base);
        assert(p2[base.len() as int] == separator());
        assert(p2.skip(base.len() as int + 1) =~= rest);
    }
}

} // verus!
