//! Making a directory, with its ancestors where they are missing.
//!
//! The work is a conversation with the file system: try to make the
//! directory; where an ancestor is missing, make that first; where
//! something is in the way, look whether it is a directory already, made
//! perhaps by someone else a moment ago. [`MkdirAll`] holds the library's
//! side of it. It says what to do next ([`MkdirAll::action`]), and is told
//! how that went ([`MkdirAll::created`], [`MkdirAll::inspected`]).

use vstd::prelude::*;
use crate::error::Error;
use crate::open::{dirfd_or_cwd, spec_dirfd_or_cwd};
use crate::platform::Platform;

verus! {

/// The mode that missing ancestors are made with. The process's umask
/// narrows it; only the directory that was asked for gets the caller's mode.
pub const ANCESTOR_MODE: u32 = 0o777;

/// What `Path::parent` of the standard library makes of a path: the path
/// without its last component, or nothing where it has none.
pub uninterp spec fn parent_path(path: Seq<char>) -> Option<Seq<char>>;

/// `Path::parent` of the standard library. The result is named by
/// [`parent_path`]; of the parent the contract claims only that it is
/// shorter than the path, a component having been taken off its end.
#[verifier::external_body]
fn path_parent(path: &str) -> (r: Option<String>)
    ensures
        match r {
            Some(parent) => parent_path(path@) == Some(parent@) && parent@.len() < path@.len(),
            None => parent_path(path@) is None,
        },
{
    match std::path::Path::new(path).parent() {
        Some(parent) => Some(parent.to_string_lossy().into_owned()),
        None => None,
    }
}

/// Where the work stands.
#[derive(Clone, Copy, Debug, PartialEq, Eq)]
pub enum Phase {
    /// The current directory is being made for the first time.
    First,
    /// The current directory is being made again, its parent being there
    /// now.
    Retry,
    /// Making the current directory failed with this error; whether it is
    /// there all the same is being looked up.
    Failed(Error),
    /// The work is over, with this result.
    Finished(Result<(), Error>),
}

/// What is to be done next.
#[derive(Debug, PartialEq, Eq)]
pub enum MkdirStep {
    /// `mkdirat(dirfd, path, mode)`; the result goes to
    /// [`MkdirAll::created`].
    Create { dirfd: i32, path: String, mode: u32 },
    /// Find out whether `path` is a directory; the answer goes to
    /// [`MkdirAll::inspected`].
    Inspect { path: String },
    /// Nothing more: this is the result.
    Done(Result<(), Error>),
}

/// The state of the work, as contracts speak of it.
pub struct MkdirModel {
    pub platform: Platform,
    pub dirfd: i32,
    pub mode: u32,
    pub recursive: bool,
    /// The directories that are still to be made: first the one that was
    /// asked for, then each one's parent. The last is the current one.
    pub pending: Seq<Seq<char>>,
    pub phase: Phase,
}

/// What is to be done next, as contracts speak of it.
pub enum ModelStep {
    Create { dirfd: i32, path: Seq<char>, mode: u32 },
    Inspect { path: Seq<char> },
    Done(Result<(), Error>),
}

impl MkdirModel {
    /// The state in which nothing is left to do.
    pub open spec fn finish(self, result: Result<(), Error>) -> MkdirModel {
        MkdirModel { pending: Seq::empty(), phase: Phase::Finished(result), ..self }
    }

    /// The state at the start of the work on `path`.
    pub open spec fn start(p: Platform, dirfd: Option<i32>, path: Seq<char>, mode: u32, recursive: bool) -> MkdirModel {
        let m = MkdirModel {
            platform: p,
            dirfd: spec_dirfd_or_cwd(p, dirfd),
            mode,
            recursive,
            pending: seq![path],
            phase: Phase::First,
        };
        if recursive && path.len() == 0 {
            m.finish(Ok(()))
        } else {
            m
        }
    }

    /// Every state that the work passes through is like this: until it is
    /// over, and only until then, there is a current directory; each pending
    /// directory is the
    /// parent of the one before it; and, where ancestors are made, none has
    /// an empty path.
    pub open spec fn wf(self) -> bool {
        &&& self.phase is Finished <==> self.pending.len() == 0
        &&& !self.recursive ==> self.pending.len() <= 1
        &&& self.recursive ==> forall|i: int| 0 <= i < self.pending.len() ==> (#[trigger] self.pending[i]).len() > 0
        &&& forall|i: int|
            0 <= i < self.pending.len() - 1 ==> parent_path(#[trigger] self.pending[i]) == Some(
                self.pending[i + 1],
            )
    }

    /// The mode for the current directory: the caller's for the directory
    /// that was asked for, [`ANCESTOR_MODE`] for an ancestor.
    pub open spec fn current_mode(self) -> u32 {
        if self.pending.len() == 1 {
            self.mode
        } else {
            ANCESTOR_MODE
        }
    }

    pub open spec fn action(self) -> ModelStep {
        match self.phase {
            Phase::First | Phase::Retry => ModelStep::Create {
                dirfd: self.dirfd,
                path: self.pending.last(),
                mode: self.current_mode(),
            },
            Phase::Failed(_) => ModelStep::Inspect { path: self.pending.last() },
            Phase::Finished(result) => ModelStep::Done(result),
        }
    }

    /// The state once the current directory is there: the work goes back to
    /// the directory that waited for it, or is over.
    pub open spec fn complete(self) -> MkdirModel {
        if self.pending.len() <= 1 {
            self.finish(Ok(()))
        } else {
            MkdirModel { pending: self.pending.drop_last(), phase: Phase::Retry, ..self }
        }
    }

    /// The state after `mkdirat` on the current directory came to `result`.
    ///
    /// Success completes the directory. Without `recursive`, a failure is
    /// the result. With it: a first attempt that fails for a missing
    /// ancestor goes on with the parent, or, where the parent is the empty
    /// path, with a second attempt; where there is no parent, the tree
    /// cannot be rooted and permission is denied. Every other failure is
    /// looked into.
    pub open spec fn created(self, result: Result<(), Error>) -> MkdirModel {
        if !(self.phase is First || self.phase is Retry) {
            self
        } else if !self.recursive {
            self.finish(result)
        } else {
            match result {
                Ok(()) => self.complete(),
                Err(e) => if self.phase is First && e == Error::Sys(self.platform.errno.enoent) {
                    match parent_path(self.pending.last()) {
                        None => self.finish(Err(Error::Sys(self.platform.errno.eacces))),
                        Some(parent) => if parent.len() == 0 {
                            MkdirModel { phase: Phase::Retry, ..self }
                        } else {
                            MkdirModel { pending: self.pending.push(parent), phase: Phase::First, ..self }
                        },
                    }
                } else {
                    MkdirModel { phase: Phase::Failed(e), ..self }
                },
            }
        }
    }

    /// The state after the look at the current directory: if it is a
    /// directory, it counts as made; if not, the error that led to the look
    /// is the result.
    pub open spec fn inspected(self, is_dir: bool) -> MkdirModel {
        match self.phase {
            Phase::Failed(e) => if is_dir {
                self.complete()
            } else {
                self.finish(Err(e))
            },
            _ => self,
        }
    }

    /// A bound on the number of answers that the work can still take.
    pub open spec fn budget(self) -> nat {
        match self.phase {
            Phase::First => 4 * self.pending.last().len() + 3 * self.pending.len(),
            Phase::Retry => 3 * self.pending.len(),
            Phase::Failed(_) => (3 * self.pending.len() - 1) as nat,
            Phase::Finished(_) => 0,
        }
    }
}

/// The work of making one directory, with its ancestors if asked.
pub struct MkdirAll {
    platform: Platform,
    dirfd: i32,
    mode: u32,
    recursive: bool,
    pending: Vec<String>,
    phase: Phase,
}

impl View for MkdirAll {
    type V = MkdirModel;

    closed spec fn view(&self) -> MkdirModel {
        MkdirModel {
            platform: self.platform,
            dirfd: self.dirfd,
            mode: self.mode,
            recursive: self.recursive,
            pending: self.pending@.map_values(|s: String| s@),
            phase: self.phase,
        }
    }
}

/// Begins the work of making the directory `path`, relative to `dirfd` (the
/// current directory for `None`), with the permission bits `mode`. With
/// `recursive`, missing ancestors are made too, an existing directory is
/// success, and the empty path is done at once.
pub fn mkdirat(p: Platform, dirfd: Option<i32>, path: &str, mode: u32, recursive: bool) -> (m: MkdirAll)
    ensures
        m@ == MkdirModel::start(p, dirfd, path@, mode, recursive),
        m@.wf(),
{
    let fd: i32 = dirfd_or_cwd(p, dirfd);
    if recursive && path.is_empty() {
        let m = MkdirAll {
            platform: p,
            dirfd: fd,
            mode,
            recursive,
            pending: Vec::new(),
            phase: Phase::Finished(Ok(())),
        };
        assert(m@.pending =~= Seq::empty());
        return m;
    }
    let mut pending: Vec<String> = Vec::new();
    pending.push(path.to_owned());
    let m = MkdirAll { platform: p, dirfd: fd, mode, recursive, pending, phase: Phase::First };
    assert(m@.pending =~= seq![path@]);
    m
}

impl MkdirAll {
    /// The path of the current directory.
    fn current(&self) -> (path: String)
        requires
            self.pending@.len() >= 1,
        ensures
            path@ == self@.pending.last(),
    {
        self.pending[self.pending.len() - 1].clone()
    }

    /// Takes the current directory, which is there now, off the list.
    fn complete(&mut self)
        requires
            old(self)@.wf(),
            !(old(self)@.phase is Finished),
        ensures
            final(self)@ == old(self)@.complete(),
            final(self)@.wf(),
    {
        if self.pending.len() <= 1 {
            self.pending = Vec::new();
            self.phase = Phase::Finished(Ok(()));
            assert(self@.pending =~= Seq::empty());
        } else {
            let ghost before = self@.pending;
            self.pending.pop();
            self.phase = Phase::Retry;
            assert(self@.pending =~= before.drop_last());
        }
    }

    /// What is to be done next.
    pub fn action(&self) -> (step: MkdirStep)
        requires
            self@.wf(),
        ensures
            match step {
                MkdirStep::Create { dirfd, path, mode } => self@.action() == (ModelStep::Create {
                    dirfd,
                    path: path@,
                    mode,
                }),
                MkdirStep::Inspect { path } => self@.action() == (ModelStep::Inspect { path: path@ }),
                MkdirStep::Done(result) => self@.action() == ModelStep::Done(result),
            },
    {
        match self.phase {
            Phase::First | Phase::Retry => {
                let mode: u32 = if self.pending.len() == 1 {
                    self.mode
                } else {
                    ANCESTOR_MODE
                };
                MkdirStep::Create { dirfd: self.dirfd, path: self.current(), mode }
            },
            Phase::Failed(_) => MkdirStep::Inspect { path: self.current() },
            Phase::Finished(result) => MkdirStep::Done(result),
        }
    }

    /// Takes the result of the `mkdirat` that [`action`](Self::action) asked
    /// for. Where none was asked for, nothing changes. Each answer that was
    /// asked for brings the end nearer.
    pub fn created(&mut self, result: Result<(), Error>)
        requires
            old(self)@.wf(),
        ensures
            final(self)@ == old(self)@.created(result),
            final(self)@.wf(),
            old(self)@.phase is First || old(self)@.phase is Retry ==> final(self)@.budget() < old(
                self,
            )@.budget(),
    {
        match self.phase {
            Phase::First | Phase::Retry => {},
            _ => {
                return ;
            },
        }
        if !self.recursive {
            self.pending = Vec::new();
            self.phase = Phase::Finished(result);
            assert(self@.pending =~= Seq::empty());
            return ;
        }
        match result {
            Ok(()) => {
                self.complete();
            },
            Err(e) => {
                let first: bool = match self.phase {
                    Phase::First => true,
                    _ => false,
                };
                if first && e.is_errno(self.platform.errno.enoent) {
                    let path: String = self.current();
                    match path_parent(path.as_str()) {
                        None => {
                            self.pending = Vec::new();
                            self.phase = Phase::Finished(Err(Error::Sys(self.platform.errno.eacces)));
                            assert(self@.pending =~= Seq::empty());
                        },
                        Some(parent) => {
                            if parent.as_str().is_empty() {
                                self.phase = Phase::Retry;
                            } else {
                                let ghost before = self@.pending;
                                self.pending.push(parent);
                                assert(self@.pending =~= before.push(parent@));
                            }
                        },
                    }
                } else {
                    self.phase = Phase::Failed(e);
                }
            },
        }
    }

    /// Takes the answer to the look that [`action`](Self::action) asked for:
    /// whether the current path is a directory. Where none was asked for,
    /// nothing changes.
    pub fn inspected(&mut self, is_dir: bool)
        requires
            old(self)@.wf(),
        ensures
            final(self)@ == old(self)@.inspected(is_dir),
            final(self)@.wf(),
            old(self)@.phase is Failed ==> final(self)@.budget() < old(self)@.budget(),
    {
        match self.phase {
            Phase::Failed(e) => {
                if is_dir {
                    self.complete();
                } else {
                    self.pending = Vec::new();
                    self.phase = Phase::Finished(Err(e));
                    assert(self@.pending =~= Seq::empty());
                }
            },
            _ => {},
        }
    }
}

/// The work keeps its shape: after any answer, asked for or not, the state
/// is well formed again.
pub proof fn lemma_shape_is_kept(m: MkdirModel, result: Result<(), Error>, is_dir: bool)
    requires
        m.wf(),
    ensures
        m.created(result).wf(),
        m.inspected(is_dir).wf(),
        m.complete().wf(),
{
    if m.pending.len() > 1 {
        assert(m.complete().pending =~= m.pending.drop_last());
    }
    match parent_path(m.pending.last()) {
        Some(parent) => {
            let pushed = m.pending.push(parent);
            assert forall|i: int| 0 <= i < pushed.len() - 1 implies parent_path(#[trigger] pushed[i]) == Some(
                pushed[i + 1],
            ) by {
                if i < m.pending.len() - 1 {
                    assert(pushed[i] == m.pending[i]);
                }
            }
        },
        None => {},
    }
}

/// Making a directory that is there already succeeds and makes nothing:
/// the one attempt fails, with any error but that of a missing ancestor;
/// the look finds a directory; and that is the end, with success. So the
/// work can be done again after it has succeeded.
pub proof fn lemma_existing_directory_is_success(
    p: Platform,
    dirfd: Option<i32>,
    path: Seq<char>,
    mode: u32,
    e: Error,
)
    requires
        path.len() > 0,
        e != Error::Sys(p.errno.enoent),
    ensures
        ({
            let m0 = MkdirModel::start(p, dirfd, path, mode, true);
            let m1 = m0.created(Err(e));
            let m2 = m1.inspected(true);
            &&& m0.action() == (ModelStep::Create { dirfd: spec_dirfd_or_cwd(p, dirfd), path, mode })
            &&& m1.action() == (ModelStep::Inspect { path })
            &&& m2.action() == ModelStep::Done(Ok(()))
        }),
{
    let m0 = MkdirModel::start(p, dirfd, path, mode, true);
    assert(m0.pending.last() == path);
}

/// The empty path is the directory that the work is relative to: with
/// ancestors asked for, there is nothing to do.
pub proof fn lemma_empty_path_is_done(p: Platform, dirfd: Option<i32>, mode: u32)
    ensures
        MkdirModel::start(p, dirfd, Seq::empty(), mode, true).action() == ModelStep::Done(Ok(())),
{
}

/// Parents come before children, and only the directory that was asked for
/// gets the caller's mode. Once the current directory is there while others
/// wait, the next step makes the one whose parent it is; that one gets the
/// caller's mode if it is the last to wait, and the mode of ancestors if
/// not.
pub proof fn lemma_parents_come_first(m: MkdirModel)
    requires
        m.wf(),
        m.pending.len() >= 2,
        !(m.phase is Finished),
    ensures
        m.complete().action() matches ModelStep::Create { dirfd, path, mode } && {
            &&& dirfd == m.dirfd
            &&& parent_path(path) == Some(m.pending.last())
            &&& path == m.pending[m.pending.len() - 2]
            &&& mode == if m.pending.len() == 2 {
                m.mode
            } else {
                ANCESTOR_MODE
            }
        },
        m.action() matches ModelStep::Create { mode, .. } ==> mode == ANCESTOR_MODE,
{
    let next = m.complete();
    assert(next.pending =~= m.pending.drop_last());
    assert(next.pending.last() == m.pending[m.pending.len() - 2]);
}

/// What is in the way and is no directory is an error, and it is the error
/// that the system gave: a failure other than a missing ancestor on the
/// first attempt is looked into, and stands if the look finds no directory.
pub proof fn lemma_other_errors_are_passed_on(m: MkdirModel, e: Error)
    requires
        m.wf(),
        m.recursive,
        m.phase is First || m.phase is Retry,
        m.phase is Retry || e != Error::Sys(m.platform.errno.enoent),
    ensures
        m.created(Err(e)).action() == (ModelStep::Inspect { path: m.pending.last() }),
        m.created(Err(e)).inspected(false).action() == ModelStep::Done(Err(e)),
{
}

/// A path with a missing ancestor and no parent cannot be rooted: the
/// result is "permission denied".
pub proof fn lemma_no_parent_is_denied(m: MkdirModel)
    requires
        m.wf(),
        m.recursive,
        m.phase is First,
        parent_path(m.pending.last()) is None,
    ensures
        m.created(Err(Error::Sys(m.platform.errno.enoent))).action() == ModelStep::Done(
            Err(Error::Sys(m.platform.errno.eacces)),
        ),
{
}

/// Without ancestors asked for, the one attempt is the whole work: its
/// result is the result.
pub proof fn lemma_single_attempt(p: Platform, dirfd: Option<i32>, path: Seq<char>, mode: u32, result: Result<(), Error>)
    ensures
        MkdirModel::start(p, dirfd, path, mode, false).action() == (ModelStep::Create {
            dirfd: spec_dirfd_or_cwd(p, dirfd),
            path,
            mode,
        }),
        MkdirModel::start(p, dirfd, path, mode, false).created(result).action() == ModelStep::Done(result),
{
    let m0 = MkdirModel::start(p, dirfd, path, mode, false);
    assert(m0.pending.last() == path);
}

/// Every parent that `Path::parent` gives is shorter than its path, as
/// `path_parent` reports of each one that it returns.
pub open spec fn parents_are_shorter() -> bool {
    forall|path: Seq<char>| (#[trigger] parent_path(path)) matches Some(parent) ==> parent.len() < path.len()
}

/// The directories below the place that paths are relative to, each with
/// the mode that it was made with, as far as making directories goes, and
/// while nobody else changes them.
pub struct Tree {
    pub modes: Map<Seq<char>, u32>,
}

impl Tree {
    /// Whether `path` is a directory: the empty path and a path without a
    /// parent are, every other one if it is in the tree.
    pub open spec fn is_dir(self, path: Seq<char>) -> bool {
        path.len() == 0 || parent_path(path) is None || self.modes.dom().contains(path)
    }

    /// Every directory of the tree has a directory for its parent.
    pub open spec fn wf(self) -> bool {
        forall|path: Seq<char>| #[trigger]
            self.modes.dom().contains(path) ==> (parent_path(path) matches Some(parent) ==> self.is_dir(parent))
    }

    /// What `mkdir` does to the tree and answers: what is there exists
    /// already; what has a directory for its parent is made; anything else
    /// lacks an ancestor.
    pub open spec fn mkdir(self, codes: crate::platform::Errnos, path: Seq<char>, mode: u32) -> (
        Tree,
        Result<(), Error>,
    ) {
        if self.is_dir(path) {
            (self, Err(Error::Sys(codes.eexist)))
        } else if self.is_dir(parent_path(path)->0) {
            (Tree { modes: self.modes.insert(path, mode) }, Ok(()))
        } else {
            (self, Err(Error::Sys(codes.enoent)))
        }
    }

    /// The tree `later` has all of this tree as it was, and what it has
    /// more is `path` with the mode `mode` and others with the mode of
    /// ancestors.
    pub open spec fn grown_into(self, later: Tree, path: Seq<char>, mode: u32) -> bool {
        &&& forall|d: Seq<char>| #[trigger]
            self.modes.dom().contains(d) ==> later.modes.dom().contains(d) && later.modes[d] == self.modes[d]
        &&& forall|d: Seq<char>| #[trigger]
            later.modes.dom().contains(d) && !self.modes.dom().contains(d) ==> later.modes[d] == if d == path {
                mode
            } else {
                ANCESTOR_MODE
            }
    }
}

/// Each answer that was asked for brings the end nearer.
pub proof fn lemma_budget_decreases(m: MkdirModel, result: Result<(), Error>, is_dir: bool)
    requires
        m.wf(),
        parents_are_shorter(),
    ensures
        m.phase is First || m.phase is Retry ==> m.created(result).budget() < m.budget(),
        m.phase is Failed ==> m.inspected(is_dir).budget() < m.budget(),
{
    if m.pending.len() > 1 {
        assert(m.complete().pending =~= m.pending.drop_last());
    }
}

/// The whole work on the tree `t`, from the state `m`: its result, and the
/// tree that it leaves.
pub open spec fn run(m: MkdirModel, t: Tree) -> (Result<(), Error>, Tree)
    decreases m.budget(),
    when m.wf() && parents_are_shorter()
    via run_ends
{
    match m.phase {
        Phase::First | Phase::Retry => {
            let made = t.mkdir(m.platform.errno, m.pending.last(), m.current_mode());
            run(m.created(made.1), made.0)
        },
        Phase::Failed(_) => run(m.inspected(t.is_dir(m.pending.last())), t),
        Phase::Finished(result) => (result, t),
    }
}

#[via_fn]
proof fn run_ends(m: MkdirModel, t: Tree) {
    let made = t.mkdir(m.platform.errno, m.pending.last(), m.current_mode());
    lemma_budget_decreases(m, made.1, t.is_dir(m.pending.last()));
    lemma_shape_is_kept(m, made.1, t.is_dir(m.pending.last()));
}

/// The state `m` can have come about on the tree `t`: a failure is being
/// looked into only where something is there, and a second attempt is made
/// only where the parent is there.
pub open spec fn fits(m: MkdirModel, t: Tree) -> bool {
    &&& m.wf()
    &&& m.recursive
    &&& m.platform.errno.wf()
    &&& t.wf()
    &&& m.phase is Failed ==> t.is_dir(m.pending.last())
    &&& m.phase is Retry ==> (parent_path(m.pending.last()) matches Some(parent) ==> t.is_dir(parent))
    &&& m.phase matches Phase::Finished(result) ==> result == Ok::<(), Error>(())
}

/// The directory that was asked for has the longest path of all that are
/// pending.
proof fn lemma_ancestors_are_shorter(m: MkdirModel, i: int)
    requires
        m.wf(),
        parents_are_shorter(),
        0 < i < m.pending.len(),
    ensures
        m.pending[i].len() < m.pending[0].len(),
    decreases i,
{
    assert(parent_path(m.pending[i - 1]) == Some(m.pending[i]));
    if i > 1 {
        lemma_ancestors_are_shorter(m, i - 1);
    }
}

/// From any state that fits the tree, the work succeeds. It leaves a tree
/// in which all that was pending is a directory, from which nothing is
/// gone, and in which only the directory that was asked for has the
/// caller's mode, if it was made at all.
pub proof fn lemma_run_succeeds(m: MkdirModel, t: Tree)
    requires
        fits(m, t),
        parents_are_shorter(),
    ensures
        run(m, t).0 == Ok::<(), Error>(()),
        run(m, t).1.wf(),
        forall|i: int| 0 <= i < m.pending.len() ==> run(m, t).1.is_dir(#[trigger] m.pending[i]),
        m.pending.len() > 0 ==> t.grown_into(run(m, t).1, m.pending[0], m.mode),
        m.pending.len() == 0 ==> run(m, t).1 == t,
    decreases m.budget(),
{
    match m.phase {
        Phase::Finished(result) => {},
        Phase::Failed(e) => {
            let next = m.inspected(true);
            lemma_budget_decreases(m, Ok(()), true);
            lemma_shape_is_kept(m, Ok(()), true);
            lemma_completed_fits(m, t);
            lemma_run_succeeds(next, t);
            assert forall|i: int| 0 <= i < m.pending.len() implies run(m, t).1.is_dir(#[trigger] m.pending[i]) by {
                if i < m.pending.len() - 1 {
                    assert(next.pending[i] == m.pending[i]);
                }
            }
            if next.pending.len() > 0 {
                assert(next.pending[0] == m.pending[0]);
            }
        },
        Phase::First | Phase::Retry => {
            let last = m.pending.last();
            let made = t.mkdir(m.platform.errno, last, m.current_mode());
            let next = m.created(made.1);
            lemma_budget_decreases(m, made.1, true);
            lemma_shape_is_kept(m, made.1, true);
            if t.is_dir(last) {
                assert(fits(next, t));
                lemma_run_succeeds(next, t);
            } else if t.is_dir(parent_path(last)->0) {
                let grown = made.0;
                assert(grown.wf()) by {
                    assert forall|path: Seq<char>| #[trigger] grown.modes.dom().contains(path) implies (parent_path(
                        path,
                    ) matches Some(parent) ==> grown.is_dir(parent)) by {
                        if path != last {
                            assert(t.modes.dom().contains(path));
                        }
                    }
                }
                lemma_completed_fits(m, grown);
                lemma_run_succeeds(next, grown);
                let end = run(m, t).1;
                assert forall|i: int| 0 <= i < m.pending.len() implies end.is_dir(#[trigger] m.pending[i]) by {
                    if i < m.pending.len() - 1 {
                        assert(next.pending[i] == m.pending[i]);
                    } else {
                        assert(grown.modes.dom().contains(last));
                    }
                }
                if m.pending.len() > 1 {
                    assert(next.pending[0] == m.pending[0]);
                    lemma_ancestors_are_shorter(m, m.pending.len() - 1);
                    assert(last != m.pending[0]);
                }
                assert(grown.modes.dom().contains(last));
                assert(t.grown_into(end, m.pending[0], m.mode)) by {
                    assert forall|d: Seq<char>| #[trigger] t.modes.dom().contains(d) implies end.modes.dom().contains(
                        d,
                    ) && end.modes[d] == t.modes[d] by {
                        assert(grown.modes.dom().contains(d));
                    }
                    assert forall|d: Seq<char>| #[trigger]
                        end.modes.dom().contains(d) && !t.modes.dom().contains(d) implies end.modes[d] == if d
                        == m.pending[0] {
                        m.mode
                    } else {
                        ANCESTOR_MODE
                    } by {
                        if d == last {
                            assert(grown.modes.dom().contains(d));
                        } else {
                            assert(!grown.modes.dom().contains(d));
                        }
                    }
                }
            } else {
                let parent = parent_path(last)->0;
                assert(m.phase is First);
                assert(next.pending == m.pending.push(parent));
                assert(fits(next, t));
                lemma_run_succeeds(next, t);
                assert(next.pending[0] == m.pending[0]);
                assert forall|i: int| 0 <= i < m.pending.len() implies run(m, t).1.is_dir(
                    #[trigger] m.pending[i],
                ) by {
                    assert(next.pending[i] == m.pending[i]);
                }
            }
        },
    }
}

/// Once the current directory is there, the state that goes back to the one
/// that waited for it fits the tree.
proof fn lemma_completed_fits(m: MkdirModel, t: Tree)
    requires
        m.wf(),
        m.recursive,
        m.platform.errno.wf(),
        t.wf(),
        !(m.phase is Finished),
        t.is_dir(m.pending.last()),
    ensures
        fits(m.complete(), t),
{
    lemma_shape_is_kept(m, Ok(()), true);
    if m.pending.len() > 1 {
        let next = m.complete();
        assert(next.pending =~= m.pending.drop_last());
        assert(next.pending.last() == m.pending[m.pending.len() - 2]);
        assert(parent_path(m.pending[m.pending.len() - 2]) == Some(m.pending[m.pending.len() - 1]));
    }
}

/// On a tree that nobody else changes, making a directory with its
/// ancestors succeeds and leaves the directory there. Nothing that was
/// there is changed; of what is made, the directory that was asked for has
/// the caller's mode and every ancestor the mode of ancestors; and every
/// directory still has its parent, which is to say that parents were made
/// before their children.
pub proof fn lemma_missing_directories_are_made(p: Platform, dirfd: Option<i32>, path: Seq<char>, mode: u32, t: Tree)
    requires
        p.errno.wf(),
        t.wf(),
        parents_are_shorter(),
    ensures
        ({
            let done = run(MkdirModel::start(p, dirfd, path, mode, true), t);
            &&& done.0 == Ok::<(), Error>(())
            &&& done.1.is_dir(path)
            &&& done.1.wf()
            &&& t.grown_into(done.1, path, mode)
        }),
{
    let m = MkdirModel::start(p, dirfd, path, mode, true);
    assert(fits(m, t));
    lemma_run_succeeds(m, t);
    if path.len() > 0 {
        assert(m.pending[0] == path);
    }
}

/// On a tree that nobody else changes, making a directory that is there
/// already succeeds and leaves the tree as it is.
pub proof fn lemma_existing_directory_stays(p: Platform, dirfd: Option<i32>, path: Seq<char>, mode: u32, t: Tree)
    requires
        p.errno.wf(),
        parents_are_shorter(),
        t.is_dir(path),
    ensures
        run(MkdirModel::start(p, dirfd, path, mode, true), t) == (Ok::<(), Error>(()), t),
{
    let m0 = MkdirModel::start(p, dirfd, path, mode, true);
    if path.len() > 0 {
        assert(m0.pending.last() == path);
        let m1 = m0.created(Err(Error::Sys(p.errno.eexist)));
        let m2 = m1.inspected(true);
        lemma_shape_is_kept(m0, Err(Error::Sys(p.errno.eexist)), true);
        lemma_shape_is_kept(m1, Ok(()), true);
        assert(run(m2, t) == (Ok::<(), Error>(()), t));
        assert(run(m1, t) == run(m2, t));
        assert(run(m0, t) == run(m1, t));
    }
}

/// Making a directory twice in a row succeeds both times, and the second
/// time changes nothing, whatever mode it asks for.
pub proof fn lemma_making_twice(
    p: Platform,
    dirfd: Option<i32>,
    path: Seq<char>,
    mode: u32,
    again: u32,
    t: Tree,
)
    requires
        p.errno.wf(),
        t.wf(),
        parents_are_shorter(),
    ensures
        ({
            let once = run(MkdirModel::start(p, dirfd, path, mode, true), t);
            let twice = run(MkdirModel::start(p, dirfd, path, again, true), once.1);
            &&& once.0 == Ok::<(), Error>(())
            &&& twice == (Ok::<(), Error>(()), once.1)
        }),
{
    lemma_missing_directories_are_made(p, dirfd, path, mode, t);
    lemma_existing_directory_stays(
        p,
        dirfd,
        path,
        again,
        run(MkdirModel::start(p, dirfd, path, mode, true), t).1,
    );
}

} // verus!
