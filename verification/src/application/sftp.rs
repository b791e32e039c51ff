//! Remote path rules of the SFTP file operations (POSIX separators).

use vstd::prelude::*;

use super::ports::{transport_error_text, TransportError};
use super::sessions::book::{session_error_text, SessionError};
use crate::text::{chars_of, find_last, last_index_of, push_range, strip_trailing, strip_trailing_len};

verus! {

/// Error of the SFTP use cases.
#[derive(Debug)]
pub enum SftpError {
    /// The session failed (missing or disconnected).
    Session(SessionError),
    /// The transport failed (with the server's message).
    Transport(TransportError),
}

/// The display text of an SFTP error.
pub open spec fn sftp_error_text(e: SftpError) -> Seq<char> {
    match e {
        SftpError::Session(s) => session_error_text(s),
        SftpError::Transport(t) => transport_error_text(t),
    }
}

impl SftpError {
    /// The display text.
    pub fn message(&self) -> (m: String)
        ensures
            m@ == sftp_error_text(*self),
    {
        match self {
            SftpError::Session(s) => s.message(),
            SftpError::Transport(t) => t.message(),
        }
    }
}

/// `parent/name`, without doubling a trailing slash of `parent`.
pub open spec fn child_path(parent: Seq<char>, name: Seq<char>) -> Seq<char> {
    if parent.len() > 0 && parent.last() == '/' {
        parent + name
    } else {
        parent + seq!['/'] + name
    }
}

/// The path of `name` next to `path`: `/a/b/c` + `d` gives `/a/b/d`, `/c` + `d`
/// gives `/d`, and a path with no slash gives `name` alone. Trailing slashes of
/// `path` are ignored.
pub open spec fn sibling_path(path: Seq<char>, name: Seq<char>) -> Seq<char> {
    let t = strip_trailing(path, '/');
    match last_index_of(t, '/') {
        Some(i) => if i == 0 {
            seq!['/'] + name
        } else {
            t.subrange(0, i + 1) + name
        },
        None => name,
    }
}

/// POSIX child path: `/srv` + `app` gives `/srv/app`.
pub fn join_child(parent: &str, name: &str) -> (p: String)
    ensures
        p@ == child_path(parent@, name@),
{
    let v = chars_of(parent);
    let mut out = String::from_str(parent);
    if v.len() > 0 && v[v.len() - 1] == '/' {
        out.append(name);
    } else {
        out.append("/");
        out.append(name);
        proof {
            reveal_strlit("/");
            assert("/"@ =~= seq!['/']);
        }
    }
    assert(out@ =~= child_path(parent@, name@));
    out
}

/// POSIX sibling path: `/a/b/c` + `d` gives `/a/b/d`; under the root `/d`.
pub fn join_sibling(path: &str, name: &str) -> (p: String)
    ensures
        p@ == sibling_path(path@, name@),
{
    let v = chars_of(path);
    let k = strip_trailing_len(&v, v.len(), '/');
    assert(v@.subrange(0, v@.len() as int) =~= v@);
    let found = find_last(&v, k, '/');
    let ghost t = v@.subrange(0, k as int);
    match found {
        Some(i) => {
            if i == 0 {
                let mut out = String::from_str("/");
                out.append(name);
                proof {
                    reveal_strlit("/");
                    assert(out@ =~= seq!['/'] + name@);
                }
                out
            } else {
                let mut out = String::new();
                push_range(&mut out, &v, 0, i + 1);
                out.append(name);
                assert(t.subrange(0, i + 1) =~= v@.subrange(0, i + 1));
                assert(out@ =~= t.subrange(0, i + 1) + name@);
                out
            }
        },
        None => String::from_str(name),
    }
}

/// One failed deletion: the path and the reason.
#[derive(Debug)]
pub struct DeleteFailure {
    /// The path that could not be removed (or read).
    pub path: String,
    /// The reason.
    pub message: String,
}

/// A pending step of a recursive delete.
#[derive(Debug)]
pub enum DeleteStep {
    /// Look at this path: remove a file, or list a directory.
    Visit(String),
    /// All children of this directory were handled: remove it.
    RemoveDir(String),
}

/// What came of a step: the path could not be handled (the reason), it is a
/// directory with these children, or it was removed.
pub enum StepOutcome {
    /// Reading or removing the path failed, for this reason.
    Failed(String),
    /// The path is a directory with these children, in listing order.
    Listed(Vec<String>),
    /// The path was removed.
    Removed,
}

/// A step as text.
pub enum StepView {
    Visit(Seq<char>),
    RemoveDir(Seq<char>),
}

/// The view of a step.
pub open spec fn step_view(s: DeleteStep) -> StepView {
    match s {
        DeleteStep::Visit(p) => StepView::Visit(p@),
        DeleteStep::RemoveDir(p) => StepView::RemoveDir(p@),
    }
}

/// The visits of `paths`, last path first (so that the first path is done first).
pub open spec fn visits_reversed(paths: Seq<Seq<char>>) -> Seq<StepView>
    decreases paths.len(),
{
    if paths.len() == 0 {
        Seq::empty()
    } else {
        seq![StepView::Visit(paths.last())] + visits_reversed(paths.drop_last())
    }
}

/// The views of a list of strings.
pub open spec fn texts_of(v: Seq<String>) -> Seq<Seq<char>> {
    v.map_values(|s: String| s@)
}

/// The children of `dir` named `names`, as paths.
pub open spec fn child_paths(dir: Seq<char>, names: Seq<Seq<char>>) -> Seq<Seq<char>> {
    names.map_values(|n: Seq<char>| child_path(dir, n))
}

/// A recursive delete of several paths, one step at a time: the remote calls
/// are the caller's, this decides the order (each directory's children in
/// listing order, then the directory) and collects the failures.
pub struct DeleteWalk {
    stack: Vec<DeleteStep>,
    failures: Vec<DeleteFailure>,
}

impl DeleteWalk {
    /// The steps still to do; the last is next.
    pub closed spec fn steps(&self) -> Seq<StepView> {
        self.stack@.map_values(|s: DeleteStep| step_view(s))
    }

    /// The failures so far, as (path, reason).
    pub closed spec fn failed(&self) -> Seq<(Seq<char>, Seq<char>)> {
        self.failures@.map_values(|f: DeleteFailure| (f.path@, f.message@))
    }

    /// A delete of `paths`, in order.
    pub fn new(paths: &Vec<String>) -> (w: Self)
        ensures
            w.steps() == visits_reversed(texts_of(paths@)),
            w.failed() == Seq::<(Seq<char>, Seq<char>)>::empty(),
    {
        let mut stack: Vec<DeleteStep> = Vec::new();
        let mut i = paths.len();
        assert(texts_of(paths@).subrange(i as int, i as int) =~= Seq::<Seq<char>>::empty());
        while i > 0
            invariant
                i <= paths@.len(),
                stack@.map_values(|s: DeleteStep| step_view(s)) == visits_reversed(
                    texts_of(paths@).subrange(i as int, paths@.len() as int),
                ),
            decreases i,
        {
            let ghost before = stack@;
            stack.push(DeleteStep::Visit(paths[i - 1].clone()));
            proof {
                let t = texts_of(paths@);
                let a = t.subrange(i - 1, t.len() as int);
                let b = t.subrange(i as int, t.len() as int);
                lemma_visits_prepend(a, b, t[i - 1]);
                assert(stack@.map_values(|s: DeleteStep| step_view(s)) =~= before.map_values(
                    |s: DeleteStep| step_view(s),
                ).push(StepView::Visit(t[i - 1])));
            }
            i = i - 1;
        }
        let w = DeleteWalk { stack, failures: Vec::new() };
        proof {
            let t = texts_of(paths@);
            assert(t.subrange(0, t.len() as int) =~= t);
        }
        assert(w.failed() =~= Seq::<(Seq<char>, Seq<char>)>::empty());
        w
    }

    /// Takes the next step, if any.
    pub fn next_step(&mut self) -> (r: Option<DeleteStep>)
        ensures
            old(self).steps().len() == 0 ==> r is None && final(self).steps() == old(self).steps(),
            old(self).steps().len() > 0 ==> r is Some && step_view(r->Some_0) == old(
                self,
            ).steps().last() && final(self).steps() == old(self).steps().drop_last(),
            final(self).failed() == old(self).failed(),
    {
        let r = self.stack.pop();
        proof {
            if old(self).stack@.len() > 0 {
                assert(self.steps() =~= old(self).steps().drop_last());
            }
        }
        r
    }

    /// `dir` is a directory with children `names`: they are visited next, in
    /// order, and then `dir` is removed.
    pub fn expand(&mut self, dir: &str, names: &Vec<String>)
        ensures
            final(self).steps() == old(self).steps().push(StepView::RemoveDir(dir@)) + visits_reversed(
                child_paths(dir@, texts_of(names@)),
            ),
            final(self).failed() == old(self).failed(),
    {
        self.stack.push(DeleteStep::RemoveDir(String::from_str(dir)));
        let ghost base = self.steps();
        let ghost kids = child_paths(dir@, texts_of(names@));
        let mut i = names.len();
        assert(kids.subrange(i as int, i as int) =~= Seq::<Seq<char>>::empty());
        assert(base + visits_reversed(Seq::<Seq<char>>::empty()) =~= base);
        while i > 0
            invariant
                i <= names@.len(),
                kids == child_paths(dir@, texts_of(names@)),
                kids.len() == names@.len(),
                self.steps() == base + visits_reversed(kids.subrange(i as int, kids.len() as int)),
                self.failed() == old(self).failed(),
            decreases i,
        {
            let ghost before = self.steps();
            let child = join_child(dir, names[i - 1].as_str());
            self.stack.push(DeleteStep::Visit(child));
            proof {
                let a = kids.subrange(i - 1, kids.len() as int);
                let b = kids.subrange(i as int, kids.len() as int);
                assert(kids[i - 1] == child_path(dir@, names@[i - 1]@));
                lemma_visits_prepend(a, b, kids[i - 1]);
                assert(self.steps() =~= before.push(StepView::Visit(kids[i - 1])));
                assert(self.steps() =~= base + visits_reversed(a));
            }
            i = i - 1;
        }
        assert(kids.subrange(0, kids.len() as int) =~= kids);
    }

    /// Records that `path` could not be handled, and why.
    pub fn fail(&mut self, path: &str, message: String)
        ensures
            final(self).failed() == old(self).failed().push((path@, message@)),
            final(self).steps() == old(self).steps(),
    {
        let ghost m = message@;
        self.failures.push(DeleteFailure { path: String::from_str(path), message });
        assert(self.failed() =~= old(self).failed().push((path@, m)));
    }

    /// Takes in what came of the step at `path`: every failure is recorded
    /// (none is dropped and the walk goes on), a listed directory has its
    /// children visited next and is then removed, a removal needs nothing more.
    pub fn record(&mut self, path: &str, outcome: StepOutcome)
        ensures
            match outcome {
                StepOutcome::Failed(m) => final(self).failed() == old(self).failed().push((path@, m@))
                    && final(self).steps() == old(self).steps(),
                StepOutcome::Listed(names) => final(self).steps() == old(self).steps().push(
                    StepView::RemoveDir(path@),
                ) + visits_reversed(child_paths(path@, texts_of(names@)))
                    && final(self).failed() == old(self).failed(),
                StepOutcome::Removed => final(self).steps() == old(self).steps() && final(self).failed()
                    == old(self).failed(),
            },
    {
        match outcome {
            StepOutcome::Failed(m) => self.fail(path, m),
            StepOutcome::Listed(names) => self.expand(path, &names),
            StepOutcome::Removed => {},
        }
    }

    /// The failures, in the order they happened.
    pub fn failures(self) -> (r: Vec<DeleteFailure>)
        ensures
            r@.map_values(|f: DeleteFailure| (f.path@, f.message@)) == self.failed(),
    {
        self.failures
    }
}

/// The visits of `a` = `[x] + b` are those of `b` preceded, in the reversed
/// order, by `x`'s.
pub proof fn lemma_visits_prepend(a: Seq<Seq<char>>, b: Seq<Seq<char>>, x: Seq<char>)
    requires
        a.len() == b.len() + 1,
        a[0] == x,
        forall|k: int| 0 <= k < b.len() ==> a[k + 1] == b[k],
    ensures
        visits_reversed(a) == visits_reversed(b).push(StepView::Visit(x)),
    decreases a.len(),
{
    if b.len() == 0 {
        assert(a.drop_last() =~= Seq::<Seq<char>>::empty());
        assert(visits_reversed(a.drop_last()) == Seq::<StepView>::empty());
        assert(a.last() == x);
        assert(visits_reversed(a) =~= seq![StepView::Visit(x)]);
        assert(visits_reversed(b) == Seq::<StepView>::empty());
    } else {
        lemma_visits_prepend(a.drop_last(), b.drop_last(), x);
        assert(a.last() == b.last());
        assert(visits_reversed(a) =~= seq![StepView::Visit(b.last())] + visits_reversed(
            b.drop_last(),
        ).push(StepView::Visit(x)));
    }
}

} // verus!
