//! The laws of the sweeper, proved of the transition functions of
//! [`crate::sweeper`]: what is deleted, what is descended into, and what a
//! declined confirmation leaves behind.

use vstd::prelude::*;

use crate::options::CleanOptions;
use crate::policy::answer_of;
use crate::policy::is_candidate_name;
use crate::policy::spec_should_descend;
use crate::sweeper::child_task;
use crate::sweeper::fits;
use crate::sweeper::inc_depth;
use crate::sweeper::listing_tasks;
use crate::sweeper::queued_child_tasks;
use crate::sweeper::resolve_step;
use crate::sweeper::stat_tasks;
use crate::sweeper::task_pending;
use crate::sweeper::task_request;
use crate::sweeper::Child;
use crate::sweeper::EntryKind;
use crate::sweeper::Pending;
use crate::sweeper::Request;
use crate::sweeper::Response;
use crate::sweeper::Sweeper;
use crate::sweeper::Task;

verus! {

/// Law: a filename is a deletion candidate exactly when its last character
/// is the backup marker `~`; and the decision a resolved file gives rise
/// to depends on the filename and the options alone — neither the file's
/// path nor the recursion depth at which it was met plays any part.
pub proof fn lemma_candidate_rule(
    options: CleanOptions,
    path: String,
    name: String,
    depth: u32,
)
    ensures
        is_candidate_name(name@) <==> (name@.len() > 0 && name@[name@.len() - 1] == '~'),
        ({
            let ts = stat_tasks(options, path, Some(name), depth, EntryKind::File);
            &&& !is_candidate_name(name@) ==> ts == Seq::<Task>::empty()
            &&& (is_candidate_name(name@) && options.confirm) ==> ts == seq![
                (Task::Ask { path, name }),
            ]
            &&& (is_candidate_name(name@) && !options.confirm) ==> ts == seq![
                (Task::Remove { path, name }),
            ]
            &&& ts == stat_tasks(options, path, Some(name), 0u32, EntryKind::File)
        }),
{
}

/// Law: with `recursive` off, no directory is descended into — so nothing
/// inside it is ever visited — unless its path is the literal
/// current-directory token `.`; and the `.` root is descended into even
/// without `recursive`, whenever the depth limit permits.
pub proof fn lemma_non_recursive_confinement(
    options: CleanOptions,
    path: String,
    name: Option<String>,
    depth: u32,
)
    ensures
        !options.recursive && path@ != seq!['.'] ==> stat_tasks(
            options,
            path,
            name,
            depth,
            EntryKind::Directory,
        ) == Seq::<Task>::empty(),
        path@ == seq!['.'] && (options.max_depth == 0 || depth <= options.max_depth)
            ==> stat_tasks(options, path, name, depth, EntryKind::Directory) == seq![
            (Task::ListDir { path, depth }),
        ],
{
}

/// Law: with a depth limit `N > 0`, a directory met at depth at most `N`
/// is descended into (recursion permitting), so its children — entries at
/// depth up to `N + 1` — are inspected; a directory met deeper than `N`
/// is not descended into, and nothing below it is reached.
pub proof fn lemma_depth_limit(
    options: CleanOptions,
    path: String,
    name: Option<String>,
    depth: u32,
)
    requires
        options.max_depth > 0,
    ensures
        depth <= options.max_depth && (options.recursive || path@ == seq!['.'])
            ==> stat_tasks(options, path, name, depth, EntryKind::Directory) == seq![
            (Task::ListDir { path, depth }),
        ],
        depth > options.max_depth ==> stat_tasks(
            options,
            path,
            name,
            depth,
            EntryKind::Directory,
        ) == Seq::<Task>::empty(),
{
}

/// Law: a declined confirmation leaves no trace: the file is not deleted,
/// no report is emitted, and no work of any kind is queued.
pub proof fn lemma_declined_confirmation(
    options: CleanOptions,
    path: String,
    name: String,
    text: String,
)
    requires
        answer_of(text@) == Some(false),
    ensures
        resolve_step(
            options,
            Pending::AwaitAnswer { path, name },
            Response::Line { text: Some(text) },
        ) == Seq::<Task>::empty(),
{
}

/// The child tasks of a listing, element by element: there are as many as
/// there are children, and the task for the first listed child stands on
/// top of the stack — children are visited in listing order.
pub proof fn lemma_queued_child_tasks(children: Seq<Child>, depth: u32)
    ensures
        queued_child_tasks(children, depth).len() == children.len(),
        forall|j: int|
            0 <= j < children.len() ==> #[trigger] queued_child_tasks(children, depth)[j]
                == child_task(children[children.len() - 1 - j], depth),
    decreases children.len(),
{
    if children.len() > 0 {
        lemma_queued_child_tasks(children.drop_first(), depth);
        let q = queued_child_tasks(children, depth);
        let qrest = queued_child_tasks(children.drop_first(), depth);
        assert forall|j: int| 0 <= j < children.len() implies #[trigger] q[j] == child_task(
            children[children.len() - 1 - j],
            depth,
        ) by {
            if j < children.len() - 1 {
                assert(q[j] == qrest[j]);
                assert(children.drop_first()[children.drop_first().len() - 1 - j]
                    == children[children.len() - 1 - j]);
            } else {
                assert(q[j] == child_task(children.first(), depth));
            }
        }
    }
}

/// Law: every child of a successfully listed directory is queued for a
/// visit at one level below its parent, in listing order, and a child
/// whose enumeration failed becomes a report in its place — one bad child
/// never stops its siblings.
pub proof fn lemma_every_child_queued(
    options: CleanOptions,
    path: String,
    children: Seq<Child>,
    depth: u32,
    i: int,
)
    requires
        0 <= i < children.len(),
    ensures
        exists|j: int|
            0 <= j < listing_tasks(options, path, children, depth).len() && #[trigger] listing_tasks(
                options,
                path,
                children,
                depth,
            )[j] == child_task(children[i], inc_depth(depth)),
{
    let kids = queued_child_tasks(children, inc_depth(depth));
    lemma_queued_child_tasks(children, inc_depth(depth));
    let ts = listing_tasks(options, path, children, depth);
    let jk = children.len() - 1 - i;
    assert(kids[jk] == child_task(children[i], inc_depth(depth)));
    if options.verbose {
        assert(ts[1 + jk] == kids[jk]);
    } else {
        assert(ts[jk] == kids[jk]);
    }
}

/// Law: descent is gated — a directory-listing task arises from one
/// transition only: a directory resolved at a depth and path the descent
/// rule permits. No other response, a listing's children included, ever
/// queues a descent.
pub proof fn lemma_descent_is_gated(options: CleanOptions, p: Pending, r: Response, j: int)
    requires
        fits(p, r),
        0 <= j < resolve_step(options, p, r).len(),
        resolve_step(options, p, r)[j] is ListDir,
    ensures
        p matches Pending::AwaitStat { path, depth, .. } && r == (Response::StatOk {
            kind: EntryKind::Directory,
        }) && spec_should_descend(options, path@, depth) && resolve_step(options, p, r)[j] == (
        Task::ListDir { path, depth }),
{
    let ts = resolve_step(options, p, r);
    match (p, r) {
        (Pending::AwaitList { path, depth }, Response::ListOk { children }) => {
            lemma_queued_child_tasks(children@, inc_depth(depth));
            let kids = queued_child_tasks(children@, inc_depth(depth));
            assert forall|k: int| 0 <= k < kids.len() implies !(#[trigger] kids[k] is ListDir) by {
                assert(kids[k] == child_task(
                    children@[children@.len() - 1 - k],
                    inc_depth(depth),
                ));
            }
            if options.verbose {
                if 1 <= j < 1 + kids.len() {
                    assert(ts[j] == kids[j - 1]);
                }
            } else {
                assert(ts[j] == kids[j]);
            }
        },
        _ => {},
    }
}

/// A task carries a deletion only for a candidate name: `Ask` and `Remove`
/// hold a filename whose last character is the backup marker.
pub open spec fn task_guarded(t: Task) -> bool {
    match t {
        Task::Ask { name, .. } => is_candidate_name(name@),
        Task::Remove { name, .. } => is_candidate_name(name@),
        _ => true,
    }
}

/// The same guard on the call in flight.
pub open spec fn pending_guarded(p: Pending) -> bool {
    match p {
        Pending::AwaitAnswer { name, .. } => is_candidate_name(name@),
        Pending::AwaitDelete { name, .. } => is_candidate_name(name@),
        _ => true,
    }
}

/// The sweeper's safety invariant: nothing on the stack and nothing in
/// flight aims a deletion at a file whose name is not a candidate.
pub open spec fn guarded(s: Sweeper) -> bool {
    &&& forall|i: int| 0 <= i < s.stack@.len() ==> task_guarded(#[trigger] s.stack@[i])
    &&& pending_guarded(s.pending)
}

/// A freshly built sweeper is guarded: its only task is a visit.
pub proof fn lemma_new_guarded(s: Sweeper, path: String, name: Option<String>)
    requires
        s.stack@ == seq![(Task::Visit { path, name, depth: 0u32 })],
        s.pending is Idle,
    ensures
        guarded(s),
{
    assert(forall|i: int| 0 <= i < s.stack@.len() ==> task_guarded(#[trigger] s.stack@[i]));
}

/// Polling preserves the guard: the popped task's guard becomes the guard
/// of the call in flight.
pub proof fn lemma_poll_guarded(pre: Sweeper, post: Sweeper)
    requires
        guarded(pre),
        pre.stack@.len() > 0,
        post.stack@ == pre.stack@.drop_last(),
        post.pending == task_pending(pre.stack@.last()),
    ensures
        guarded(post),
{
    assert(task_guarded(pre.stack@[pre.stack@.len() - 1]));
    assert forall|i: int| 0 <= i < post.stack@.len() implies task_guarded(
        #[trigger] post.stack@[i],
    ) by {
        assert(post.stack@[i] == pre.stack@[i]);
    }
}

/// Every task a response pushes respects the guard, provided the call in
/// flight did: a file is queued for deletion only when its name is a
/// candidate, and an approved confirmation keeps the candidate name it
/// was asked about.
pub proof fn lemma_step_guarded(options: CleanOptions, p: Pending, r: Response)
    requires
        pending_guarded(p),
        fits(p, r),
    ensures
        forall|j: int|
            0 <= j < resolve_step(options, p, r).len() ==> task_guarded(
                #[trigger] resolve_step(options, p, r)[j],
            ),
{
    let ts = resolve_step(options, p, r);
    match (p, r) {
        (Pending::AwaitList { path, depth }, Response::ListOk { children }) => {
            lemma_queued_child_tasks(children@, inc_depth(depth));
            let kids = queued_child_tasks(children@, inc_depth(depth));
            assert(forall|j: int| 0 <= j < kids.len() ==> task_guarded(#[trigger] kids[j]));
            assert forall|j: int| 0 <= j < ts.len() implies task_guarded(#[trigger] ts[j]) by {
                if options.verbose {
                    if 1 <= j < 1 + kids.len() {
                        assert(ts[j] == kids[j - 1]);
                    }
                } else {
                    assert(ts[j] == kids[j]);
                }
            }
        },
        _ => {},
    }
}

/// Resolving preserves the guard.
pub proof fn lemma_resolve_guarded(pre: Sweeper, post: Sweeper, r: Response)
    requires
        guarded(pre),
        fits(pre.pending, r),
        post.options == pre.options,
        post.pending is Idle,
        post.stack@ == pre.stack@ + resolve_step(pre.options, pre.pending, r),
    ensures
        guarded(post),
{
    lemma_step_guarded(pre.options, pre.pending, r);
    let ts = resolve_step(pre.options, pre.pending, r);
    assert forall|i: int| 0 <= i < post.stack@.len() implies task_guarded(
        #[trigger] post.stack@[i],
    ) by {
        if i < pre.stack@.len() {
            assert(post.stack@[i] == pre.stack@[i]);
        } else {
            assert(post.stack@[i] == ts[i - pre.stack@.len()]);
        }
    }
}

/// Law: every deletion the sweeper requests names a file whose observed
/// filename is a candidate. Together with the preservation lemmas above
/// this says a whole run deletes backup-marked files and nothing else.
pub proof fn lemma_only_candidates_deleted(pre: Sweeper, post: Sweeper, req: Request)
    requires
        guarded(pre),
        pre.stack@.len() > 0,
        post.pending == task_pending(pre.stack@.last()),
        req == task_request(pre.stack@.last()),
        req is Delete,
    ensures
        post.pending matches Pending::AwaitDelete { path, name } && req == (Request::Delete {
            path,
        }) && is_candidate_name(name@),
{
    let t = pre.stack@.last();
    assert(task_guarded(pre.stack@[pre.stack@.len() - 1]));
    assert(t is Remove);
}

} // verus!
