//! The traversal engine, written as a request/response state machine.
//!
//! The sweeper never touches the platform itself. A driver repeatedly calls
//! [`Sweeper::poll`] to receive the next [`Request`] (resolve metadata, list
//! a directory, delete a file, prompt the user, emit a report), performs it,
//! and hands the outcome back through [`Sweeper::resolve`]. Every decision —
//! whether to descend, whether a file is a deletion candidate, what a
//! confirmation answer means, and how a per-entry failure is isolated — is
//! made here and verified against the transition functions below.

use vstd::prelude::*;

use crate::options::CleanOptions;
use crate::policy::answer_of;
use crate::policy::is_candidate;
use crate::policy::is_candidate_name;
use crate::policy::parse_answer;
use crate::policy::should_descend;
use crate::policy::spec_should_descend;

verus! {

/// What metadata resolution found an entry to be.
#[derive(Clone, Copy, PartialEq, Eq, Structural, Debug)]
pub enum EntryKind {
    /// A regular file.
    File,
    /// A directory.
    Directory,
    /// Anything else: a broken symlink, a device, and the like.
    Other,
}

/// One child of a successfully listed directory.
#[derive(Clone, PartialEq, Eq, Debug)]
pub enum Child {
    /// A child that could be enumerated: its full path, and its final path
    /// component as text — `None` when the name cannot be represented.
    Entry { path: String, name: Option<String> },
    /// A child whose enumeration itself failed; the failure's description.
    Failed { message: String },
}

/// One line of the sweeper's console output: a verbose trace or an
/// isolated per-entry problem. The driver formats and prints these; no
/// report ever aborts the run.
#[derive(Clone, PartialEq, Eq, Debug)]
pub enum Report {
    /// Verbose trace: descending into a directory.
    Entering { path: String },
    /// Verbose trace: done with a directory.
    Leaving { path: String },
    /// Verbose trace: a file was deleted.
    Deleted { path: String },
    /// Metadata lookup failed, or the entry is neither file nor directory
    /// (then without an underlying message).
    EntryUnresolvable { path: String, message: Option<String> },
    /// A directory could not be listed; its subtree is abandoned.
    DirectoryUnlistable { path: String, message: String },
    /// One child within an otherwise successful listing failed; its
    /// siblings go on.
    ChildEnumeration { message: String },
    /// A deletion attempt failed; the run goes on.
    DeletionFailed { path: String, message: String },
    /// A file's name could not be extracted as text; the file is skipped.
    NameUnrepresentable { path: String },
}

/// One unit of work the sweeper still has to do, kept on its stack.
#[derive(Clone, PartialEq, Eq, Debug)]
pub enum Task {
    /// Visit an entry: resolve its metadata, then decide.
    Visit { path: String, name: Option<String>, depth: u32 },
    /// List a directory the sweeper has decided to descend into.
    ListDir { path: String, depth: u32 },
    /// Ask for confirmation before deleting the candidate at `path`.
    Ask { path: String, name: String },
    /// Delete the candidate at `path`.
    Remove { path: String, name: String },
    /// Emit one report.
    Say { report: Report },
}

/// The platform call whose outcome the sweeper is waiting for.
#[derive(Clone, PartialEq, Eq, Debug)]
pub enum Pending {
    /// No call is in flight; `poll` may be called.
    Idle,
    /// Waiting for metadata of the entry at `path`.
    AwaitStat { path: String, name: Option<String>, depth: u32 },
    /// Waiting for the listing of the directory at `path`.
    AwaitList { path: String, depth: u32 },
    /// Waiting for a line answering the confirmation prompt for `name`.
    AwaitAnswer { path: String, name: String },
    /// Waiting for the outcome of deleting the file at `path`.
    AwaitDelete { path: String, name: String },
    /// Waiting for a report to be printed.
    AwaitAck,
}

/// What the sweeper asks its driver to do next.
#[derive(Clone, PartialEq, Eq, Debug)]
pub enum Request {
    /// Resolve the metadata of the entry at `path`.
    Stat { path: String },
    /// List the immediate children of the directory at `path`.
    List { path: String },
    /// Prompt for confirmation, naming `filename`, and read one line.
    Prompt { filename: String },
    /// Delete the file at `path`.
    Delete { path: String },
    /// Print one report.
    Emit { report: Report },
    /// The traversal is complete.
    Done,
}

/// The driver's answer to the request in flight.
#[derive(Clone, PartialEq, Eq, Debug)]
pub enum Response {
    /// Metadata resolved to this kind of entry.
    StatOk { kind: EntryKind },
    /// Metadata resolution failed.
    StatErr { message: String },
    /// The directory was listed; its children, in the platform's order.
    ListOk { children: Vec<Child> },
    /// The directory could not be listed.
    ListErr { message: String },
    /// The file was deleted.
    DeleteOk,
    /// The file could not be deleted.
    DeleteErr { message: String },
    /// One line of console input; `None` when the read itself failed.
    Line { text: Option<String> },
    /// A report was printed.
    Ack,
}

/// The depth of a child, one below its parent. The counter saturates at
/// `u32::MAX`, a depth no finite traversal reaches.
pub open spec fn inc_depth(depth: u32) -> u32 {
    if depth < u32::MAX {
        (depth + 1) as u32
    } else {
        depth
    }
}

/// The work a single file entry gives rise to: nothing for a non-candidate,
/// a confirmation request or a deletion for a candidate, a report for a
/// file whose name cannot be read as text.
pub open spec fn file_tasks(options: CleanOptions, path: String, name: Option<String>) -> Seq<
    Task,
> {
    match name {
        None => seq![(Task::Say { report: Report::NameUnrepresentable { path } })],
        Some(n) => if is_candidate_name(n@) {
            if options.confirm {
                seq![(Task::Ask { path, name: n })]
            } else {
                seq![(Task::Remove { path, name: n })]
            }
        } else {
            Seq::empty()
        },
    }
}

/// The work a resolved entry gives rise to: a directory is listed only
/// when descent is permitted, a file goes to the candidate decision, and
/// any other kind of entry is reported and skipped.
pub open spec fn stat_tasks(
    options: CleanOptions,
    path: String,
    name: Option<String>,
    depth: u32,
    kind: EntryKind,
) -> Seq<Task> {
    match kind {
        EntryKind::File => file_tasks(options, path, name),
        EntryKind::Directory => if spec_should_descend(options, path@, depth) {
            seq![(Task::ListDir { path, depth })]
        } else {
            Seq::empty()
        },
        EntryKind::Other => seq![
            (Task::Say { report: Report::EntryUnresolvable { path, message: None } }),
        ],
    }
}

/// The task a single listed child turns into.
pub open spec fn child_task(c: Child, depth: u32) -> Task {
    match c {
        Child::Entry { path, name } => Task::Visit { path, name, depth },
        Child::Failed { message } => Task::Say {
            report: Report::ChildEnumeration { message },
        },
    }
}

/// The child tasks as they sit on the stack: the stack pops from its end,
/// so the first listed child stands last and is visited first.
pub open spec fn queued_child_tasks(children: Seq<Child>, depth: u32) -> Seq<Task>
    decreases children.len(),
{
    if children.len() == 0 {
        Seq::empty()
    } else {
        queued_child_tasks(children.drop_first(), depth).push(child_task(children.first(), depth))
    }
}

/// The work a successful directory listing gives rise to: the children in
/// listing order, framed by the entering and leaving traces when the run
/// is verbose. The sequence is in stack order, so the entering trace
/// stands on top and the leaving trace at the bottom.
pub open spec fn listing_tasks(
    options: CleanOptions,
    path: String,
    children: Seq<Child>,
    depth: u32,
) -> Seq<Task> {
    let kids = queued_child_tasks(children, inc_depth(depth));
    if options.verbose {
        seq![(Task::Say { report: Report::Leaving { path } })] + kids + seq![
            (Task::Say { report: Report::Entering { path } }),
        ]
    } else {
        kids
    }
}

/// The work a confirmation answer gives rise to: approval queues the
/// deletion, refusal drops the file with no further action and no report,
/// and anything else — an unrecognized line or a failed read — repeats
/// the prompt.
pub open spec fn answer_tasks(path: String, name: String, text: Option<String>) -> Seq<Task> {
    match text {
        Some(t) => match answer_of(t@) {
            Some(b) => if b {
                seq![(Task::Remove { path, name })]
            } else {
                Seq::empty()
            },
            None => seq![(Task::Ask { path, name })],
        },
        None => seq![(Task::Ask { path, name })],
    }
}

/// Whether a response is of the shape the pending call calls for.
pub open spec fn fits(p: Pending, r: Response) -> bool {
    match p {
        Pending::Idle => false,
        Pending::AwaitStat { .. } => r is StatOk || r is StatErr,
        Pending::AwaitList { .. } => r is ListOk || r is ListErr,
        Pending::AwaitAnswer { .. } => r is Line,
        Pending::AwaitDelete { .. } => r is DeleteOk || r is DeleteErr,
        Pending::AwaitAck => r is Ack,
    }
}

/// The transition function of the sweeper: the tasks that answering the
/// pending call `p` with `r` pushes onto the stack, in stack order.
pub open spec fn resolve_step(options: CleanOptions, p: Pending, r: Response) -> Seq<Task> {
    match (p, r) {
        (Pending::AwaitStat { path, name, depth }, Response::StatOk { kind }) => stat_tasks(
            options,
            path,
            name,
            depth,
            kind,
        ),
        (Pending::AwaitStat { path, .. }, Response::StatErr { message }) => seq![
            (Task::Say { report: Report::EntryUnresolvable { path, message: Some(message) } }),
        ],
        (Pending::AwaitList { path, depth }, Response::ListOk { children }) => listing_tasks(
            options,
            path,
            children@,
            depth,
        ),
        (Pending::AwaitList { path, .. }, Response::ListErr { message }) => seq![
            (Task::Say { report: Report::DirectoryUnlistable { path, message } }),
        ],
        (Pending::AwaitAnswer { path, name }, Response::Line { text }) => answer_tasks(
            path,
            name,
            text,
        ),
        (Pending::AwaitDelete { path, .. }, Response::DeleteOk) => if options.verbose {
            seq![(Task::Say { report: Report::Deleted { path } })]
        } else {
            Seq::empty()
        },
        (Pending::AwaitDelete { path, .. }, Response::DeleteErr { message }) => seq![
            (Task::Say { report: Report::DeletionFailed { path, message } }),
        ],
        _ => Seq::empty(),
    }
}

/// The request a popped task turns into.
pub open spec fn task_request(t: Task) -> Request {
    match t {
        Task::Visit { path, .. } => Request::Stat { path },
        Task::ListDir { path, .. } => Request::List { path },
        Task::Ask { name, .. } => Request::Prompt { filename: name },
        Task::Remove { path, .. } => Request::Delete { path },
        Task::Say { report } => Request::Emit { report },
    }
}

/// The pending call a popped task leaves the sweeper waiting on.
pub open spec fn task_pending(t: Task) -> Pending {
    match t {
        Task::Visit { path, name, depth } => Pending::AwaitStat { path, name, depth },
        Task::ListDir { path, depth } => Pending::AwaitList { path, depth },
        Task::Ask { path, name } => Pending::AwaitAnswer { path, name },
        Task::Remove { path, name } => Pending::AwaitDelete { path, name },
        Task::Say { .. } => Pending::AwaitAck,
    }
}

/// The traversal engine for one root entry. Its state is open: the options
/// it was built with, the stack of work still to do (popped from the end),
/// and the platform call it is waiting on.
pub struct Sweeper {
    /// The options of the run, never changed by the sweeper.
    pub options: CleanOptions,
    /// The work still to do, deepest-first; the next task is the last.
    pub stack: Vec<Task>,
    /// The platform call in flight, `Idle` between calls.
    pub pending: Pending,
}

impl Sweeper {
    /// A sweeper about to visit the one root entry at `path`, at depth 0.
    /// `name` is the entry's final path component as text, `None` when it
    /// cannot be represented.
    pub fn new(options: CleanOptions, path: String, name: Option<String>) -> (s: Sweeper)
        ensures
            s.options == options,
            s.pending is Idle,
            s.stack@ == seq![(Task::Visit { path, name, depth: 0u32 })],
    {
        let mut stack: Vec<Task> = Vec::new();
        stack.push(Task::Visit { path, name, depth: 0 });
        proof {
            assert(stack@ =~= seq![(Task::Visit { path, name, depth: 0u32 })]);
        }
        Sweeper { options, stack, pending: Pending::Idle }
    }

    /// Hands out the next request: the one for the top task of the stack,
    /// or `Done` when no work is left. The sweeper then waits for the
    /// matching response before it can be polled again.
    pub fn poll(&mut self) -> (req: Request)
        requires
            old(self).pending is Idle,
        ensures
            final(self).options == old(self).options,
            old(self).stack@.len() == 0 ==> req == Request::Done && final(self).stack@ == old(
                self,
            ).stack@ && final(self).pending == old(self).pending,
            old(self).stack@.len() > 0 ==> {
                &&& final(self).stack@ == old(self).stack@.drop_last()
                &&& final(self).pending == task_pending(old(self).stack@.last())
                &&& req == task_request(old(self).stack@.last())
            },
    {
        match self.stack.pop() {
            None => Request::Done,
            Some(t) => match t {
                Task::Visit { path, name, depth } => {
                    let req = Request::Stat { path: path.clone() };
                    self.pending = Pending::AwaitStat { path, name, depth };
                    req
                },
                Task::ListDir { path, depth } => {
                    let req = Request::List { path: path.clone() };
                    self.pending = Pending::AwaitList { path, depth };
                    req
                },
                Task::Ask { path, name } => {
                    let req = Request::Prompt { filename: name.clone() };
                    self.pending = Pending::AwaitAnswer { path, name };
                    req
                },
                Task::Remove { path, name } => {
                    let req = Request::Delete { path: path.clone() };
                    self.pending = Pending::AwaitDelete { path, name };
                    req
                },
                Task::Say { report } => {
                    self.pending = Pending::AwaitAck;
                    Request::Emit { report }
                },
            },
        }
    }

    /// Consumes the response to the call in flight and queues whatever
    /// work it gives rise to, exactly as [`resolve_step`] says. No
    /// response is ever fatal: a failure becomes a report and the rest of
    /// the traversal goes on.
    pub fn resolve(&mut self, r: Response)
        requires
            fits(old(self).pending, r),
        ensures
            final(self).options == old(self).options,
            final(self).pending is Idle,
            final(self).stack@ == old(self).stack@ + resolve_step(
                old(self).options,
                old(self).pending,
                r,
            ),
    {
        let ghost r0 = r;
        let mut p = Pending::Idle;
        core::mem::swap(&mut p, &mut self.pending);
        match (p, r) {
            (Pending::AwaitStat { path, name, depth }, Response::StatOk { kind }) => {
                match kind {
                    EntryKind::File => {
                        match name {
                            None => {
                                self.stack.push(
                                    Task::Say { report: Report::NameUnrepresentable { path } },
                                );
                            },
                            Some(n) => {
                                if is_candidate(n.as_str()) {
                                    if self.options.confirm {
                                        self.stack.push(Task::Ask { path, name: n });
                                    } else {
                                        self.stack.push(Task::Remove { path, name: n });
                                    }
                                }
                            },
                        }
                    },
                    EntryKind::Directory => {
                        if should_descend(&self.options, path.as_str(), depth) {
                            self.stack.push(Task::ListDir { path, depth });
                        }
                    },
                    EntryKind::Other => {
                        self.stack.push(
                            Task::Say {
                                report: Report::EntryUnresolvable { path, message: None },
                            },
                        );
                    },
                }
            },
            (Pending::AwaitStat { path, .. }, Response::StatErr { message }) => {
                self.stack.push(
                    Task::Say {
                        report: Report::EntryUnresolvable { path, message: Some(message) },
                    },
                );
            },
            (Pending::AwaitList { path, depth }, Response::ListOk { children }) => {
                let mut children = children;
                let ghost children0 = children@;
                let child_depth = if depth < u32::MAX {
                    depth + 1
                } else {
                    depth
                };
                if self.options.verbose {
                    self.stack.push(
                        Task::Say { report: Report::Leaving { path: path.clone() } },
                    );
                }
                let ghost base = self.stack@;
                proof {
                    assert(children@ =~= children0.subrange(0, children@.len() as int));
                    assert(children0.skip(children0.len() as int) =~= Seq::<Child>::empty());
                }
                loop
                    invariant_except_break
                        self.options == old(self).options,
                        self.pending is Idle,
                        child_depth == inc_depth(depth),
                        children@.len() <= children0.len(),
                        children@ =~= children0.subrange(0, children@.len() as int),
                        self.stack@ =~= base + queued_child_tasks(
                            children0.skip(children@.len() as int),
                            child_depth,
                        ),
                    ensures
                        self.options == old(self).options,
                        self.pending is Idle,
                        self.stack@ =~= base + queued_child_tasks(children0, child_depth),
                    decreases children@.len(),
                {
                    let ghost m = children@.len() as int;
                    match children.pop() {
                        None => {
                            proof {
                                assert(children0.skip(0) =~= children0);
                            }
                            break ;
                        },
                        Some(c) => {
                            proof {
                                assert(children0.subrange(0, m)[m - 1] == children0[m - 1]);
                                assert(c == children0[m - 1]);
                                assert(children0.subrange(0, m).subrange(0, m - 1)
                                    =~= children0.subrange(0, m - 1));
                                assert(children@ =~= children0.subrange(0, m - 1));
                            }
                            match c {
                                Child::Entry { path: cpath, name } => {
                                    self.stack.push(
                                        Task::Visit { path: cpath, name, depth: child_depth },
                                    );
                                },
                                Child::Failed { message } => {
                                    self.stack.push(
                                        Task::Say {
                                            report: Report::ChildEnumeration { message },
                                        },
                                    );
                                },
                            }
                            proof {
                                assert(children0.skip(m - 1).drop_first() =~= children0.skip(m));
                                assert(children0.skip(m - 1).first() == children0[m - 1]);
                                assert(self.stack@ =~= base + queued_child_tasks(
                                    children0.skip(m - 1),
                                    child_depth,
                                ));
                            }
                        },
                    }
                }
                if self.options.verbose {
                    self.stack.push(Task::Say { report: Report::Entering { path } });
                }
            },
            (Pending::AwaitList { path, .. }, Response::ListErr { message }) => {
                self.stack.push(
                    Task::Say { report: Report::DirectoryUnlistable { path, message } },
                );
            },
            (Pending::AwaitAnswer { path, name }, Response::Line { text }) => {
                match text {
                    Some(t) => {
                        match parse_answer(t.as_str()) {
                            Some(b) => {
                                if b {
                                    self.stack.push(Task::Remove { path, name });
                                }
                            },
                            None => {
                                self.stack.push(Task::Ask { path, name });
                            },
                        }
                    },
                    None => {
                        self.stack.push(Task::Ask { path, name });
                    },
                }
            },
            (Pending::AwaitDelete { path, .. }, Response::DeleteOk) => {
                if self.options.verbose {
                    self.stack.push(Task::Say { report: Report::Deleted { path } });
                }
            },
            (Pending::AwaitDelete { path, .. }, Response::DeleteErr { message }) => {
                self.stack.push(Task::Say { report: Report::DeletionFailed { path, message } });
            },
            (Pending::AwaitAck, Response::Ack) => {},
            _ => {},
        }
        proof {
            assert(self.stack@ =~= old(self).stack@ + resolve_step(
                old(self).options,
                old(self).pending,
                r0,
            ));
        }
    }
}

} // verus!
