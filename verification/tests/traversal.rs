use clean::options::CleanOptions;
use clean::sweeper::Child;
use clean::sweeper::EntryKind;
use clean::sweeper::Report;
use clean::sweeper::Request;
use clean::sweeper::Response;
use clean::sweeper::Sweeper;

/// A node of the simulated filesystem: a file, a directory with its
/// children's names in listing order, or something that is neither.
#[derive(Clone)]
enum Node {
    File,
    Dir(Vec<String>),
    Other,
}

/// A small in-memory filesystem for driving the sweeper in tests.
#[derive(Clone)]
struct SimFs {
    entries: Vec<(String, Node)>,
    unlistable: Vec<String>,
    undeletable: Vec<String>,
    bad_children: Vec<(String, String)>,
}

impl SimFs {
    fn new() -> SimFs {
        SimFs { entries: Vec::new(), unlistable: Vec::new(), undeletable: Vec::new(), bad_children: Vec::new() }
    }

    fn add_file(&mut self, path: &str) {
        self.entries.push((path.to_string(), Node::File));
    }

    fn add_dir(&mut self, path: &str, children: &[&str]) {
        let kids = children.iter().map(|c| c.to_string()).collect();
        self.entries.push((path.to_string(), Node::Dir(kids)));
    }

    fn add_other(&mut self, path: &str) {
        self.entries.push((path.to_string(), Node::Other));
    }

    fn lookup(&self, path: &str) -> Option<Node> {
        for (p, n) in &self.entries {
            if p == path {
                return Some(n.clone());
            }
        }
        None
    }

    fn has(&self, path: &str) -> bool {
        self.lookup(path).is_some()
    }

    fn remove_file(&mut self, path: &str) {
        self.entries.retain(|(p, _)| p != path);
        if let Some(slash) = path.rfind('/') {
            let (dir, name) = (&path[..slash], &path[slash + 1..]);
            for (p, n) in self.entries.iter_mut() {
                if p == dir {
                    if let Node::Dir(kids) = n {
                        kids.retain(|k| k != name);
                    }
                }
            }
        }
    }
}

/// Everything one run of the sweeper did to the simulated filesystem.
struct RunOutcome {
    reports: Vec<Report>,
    deleted: Vec<String>,
    prompts: Vec<String>,
}

fn final_component(path: &str) -> String {
    match path.rfind('/') {
        Some(slash) => path[slash + 1..].to_string(),
        None => path.to_string(),
    }
}

/// Drives the sweeper over the simulated filesystem, answering each
/// confirmation prompt with the next entry of `answers` (`None` simulates
/// a failed console read).
fn run(fs: &mut SimFs, options: CleanOptions, root: &str, answers: &[Option<&str>]) -> RunOutcome {
    let mut sweeper = Sweeper::new(options, root.to_string(), Some(final_component(root)));
    let mut out = RunOutcome { reports: Vec::new(), deleted: Vec::new(), prompts: Vec::new() };
    let mut next_answer: usize = 0;
    loop {
        match sweeper.poll() {
            Request::Done => break,
            Request::Stat { path } => {
                let response = match fs.lookup(&path) {
                    Some(Node::File) => Response::StatOk { kind: EntryKind::File },
                    Some(Node::Dir(_)) => Response::StatOk { kind: EntryKind::Directory },
                    Some(Node::Other) => Response::StatOk { kind: EntryKind::Other },
                    None => Response::StatErr { message: format!("cannot resolve '{}'", path) },
                };
                sweeper.resolve(response);
            }
            Request::List { path } => {
                if fs.unlistable.contains(&path) {
                    sweeper.resolve(Response::ListErr { message: "permission denied".to_string() });
                } else {
                    let mut children: Vec<Child> = Vec::new();
                    if let Some(Node::Dir(kids)) = fs.lookup(&path) {
                        for kid in kids {
                            children.push(Child::Entry {
                                path: format!("{}/{}", path, kid),
                                name: Some(kid.clone()),
                            });
                        }
                    }
                    for (dir, message) in &fs.bad_children {
                        if dir == &path {
                            children.push(Child::Failed { message: message.clone() });
                        }
                    }
                    sweeper.resolve(Response::ListOk { children });
                }
            }
            Request::Delete { path } => {
                if fs.undeletable.contains(&path) {
                    sweeper.resolve(Response::DeleteErr { message: "permission denied".to_string() });
                } else {
                    fs.remove_file(&path);
                    out.deleted.push(path);
                    sweeper.resolve(Response::DeleteOk);
                }
            }
            Request::Prompt { filename } => {
                out.prompts.push(filename);
                let text = answers.get(next_answer).copied().flatten().map(|s| s.to_string());
                next_answer += 1;
                sweeper.resolve(Response::Line { text });
            }
            Request::Emit { report } => {
                out.reports.push(report);
                sweeper.resolve(Response::Ack);
            }
        }
    }
    out
}

fn quiet_recursive() -> CleanOptions {
    CleanOptions { recursive: true, verbose: false, confirm: false, max_depth: 0 }
}

fn sample_tree() -> SimFs {
    let mut fs = SimFs::new();
    fs.add_dir("root", &["notes.txt", "draft.txt~", "sub"]);
    fs.add_file("root/notes.txt");
    fs.add_file("root/draft.txt~");
    fs.add_dir("root/sub", &["old.md~"]);
    fs.add_file("root/sub/old.md~");
    fs
}

#[test]
fn recursive_run_deletes_all_backup_files() {
    let mut fs = sample_tree();
    let out = run(&mut fs, quiet_recursive(), "root", &[]);
    assert_eq!(out.deleted, vec!["root/draft.txt~".to_string(), "root/sub/old.md~".to_string()]);
    assert!(out.reports.is_empty());
    assert!(out.prompts.is_empty());
    assert!(fs.has("root/notes.txt"));
    assert!(!fs.has("root/draft.txt~"));
    assert!(!fs.has("root/sub/old.md~"));
}

#[test]
fn non_recursive_named_root_is_not_descended() {
    let mut fs = sample_tree();
    let options = CleanOptions { recursive: false, verbose: false, confirm: false, max_depth: 0 };
    let out = run(&mut fs, options, "root", &[]);
    assert!(out.deleted.is_empty());
    assert!(out.reports.is_empty());
    assert!(fs.has("root/draft.txt~"));
    assert!(fs.has("root/sub/old.md~"));
}

#[test]
fn lone_file_argument_is_inspected_regardless_of_recursion() {
    let mut fs = SimFs::new();
    fs.add_file("readme.md~");
    let out = run(&mut fs, CleanOptions::plain(), "readme.md~", &[]);
    assert_eq!(out.deleted, vec!["readme.md~".to_string()]);
    assert!(out.reports.is_empty());
    assert!(!fs.has("readme.md~"));
}

#[test]
fn unlistable_subdirectory_is_reported_and_siblings_go_on() {
    let mut fs = SimFs::new();
    fs.add_dir("root", &["locked", "sib.txt~", "open"]);
    fs.add_dir("root/locked", &["hidden.txt~"]);
    fs.add_file("root/locked/hidden.txt~");
    fs.add_file("root/sib.txt~");
    fs.add_dir("root/open", &["other.txt~"]);
    fs.add_file("root/open/other.txt~");
    fs.unlistable.push("root/locked".to_string());
    let out = run(&mut fs, quiet_recursive(), "root", &[]);
    assert_eq!(
        out.reports,
        vec![Report::DirectoryUnlistable {
            path: "root/locked".to_string(),
            message: "permission denied".to_string(),
        }]
    );
    assert_eq!(out.deleted, vec!["root/sib.txt~".to_string(), "root/open/other.txt~".to_string()]);
    assert!(fs.has("root/locked/hidden.txt~"));
}

#[test]
fn second_run_has_no_observable_effect() {
    let mut fs = sample_tree();
    let first = run(&mut fs, quiet_recursive(), "root", &[]);
    assert_eq!(first.deleted.len(), 2);
    let second = run(&mut fs, quiet_recursive(), "root", &[]);
    assert!(second.deleted.is_empty());
    assert!(second.reports.is_empty());
    assert!(second.prompts.is_empty());
}

#[test]
fn declined_confirmation_deletes_nothing_and_reports_nothing() {
    let mut fs = SimFs::new();
    fs.add_dir(".", &["keep.txt~"]);
    fs.add_file("./keep.txt~");
    let options = CleanOptions { recursive: false, verbose: false, confirm: true, max_depth: 0 };
    let out = run(&mut fs, options, ".", &[Some("no")]);
    assert_eq!(out.prompts, vec!["keep.txt~".to_string()]);
    assert!(out.deleted.is_empty());
    assert!(out.reports.is_empty());
    assert!(fs.has("./keep.txt~"));
}

#[test]
fn approved_confirmation_deletes() {
    let mut fs = SimFs::new();
    fs.add_file("gone.txt~");
    let options = CleanOptions { recursive: false, verbose: false, confirm: true, max_depth: 0 };
    let out = run(&mut fs, options, "gone.txt~", &[Some("yes")]);
    assert_eq!(out.deleted, vec!["gone.txt~".to_string()]);
    assert!(!fs.has("gone.txt~"));
}

#[test]
fn prompt_repeats_until_an_accepted_token_arrives() {
    let mut fs = SimFs::new();
    fs.add_file("x~");
    let options = CleanOptions { recursive: false, verbose: false, confirm: true, max_depth: 0 };
    let out = run(&mut fs, options, "x~", &[Some("maybe"), None, Some("y")]);
    assert_eq!(out.prompts.len(), 3);
    assert_eq!(out.deleted, vec!["x~".to_string()]);
    assert!(out.reports.is_empty());
}

#[test]
fn prompt_names_the_filename_not_the_path() {
    let mut fs = SimFs::new();
    fs.add_dir("root", &["deep.txt~"]);
    fs.add_file("root/deep.txt~");
    let options = CleanOptions { recursive: true, verbose: false, confirm: true, max_depth: 0 };
    let out = run(&mut fs, options, "root", &[Some("n")]);
    assert_eq!(out.prompts, vec!["deep.txt~".to_string()]);
}

#[test]
fn depth_limit_stops_descent_below_it() {
    let mut fs = SimFs::new();
    fs.add_dir("root", &["x~", "a"]);
    fs.add_file("root/x~");
    fs.add_dir("root/a", &["y~", "b"]);
    fs.add_file("root/a/y~");
    fs.add_dir("root/a/b", &["z~"]);
    fs.add_file("root/a/b/z~");
    let options = CleanOptions { recursive: true, verbose: false, confirm: false, max_depth: 1 };
    let out = run(&mut fs, options, "root", &[]);
    assert_eq!(out.deleted, vec!["root/x~".to_string(), "root/a/y~".to_string()]);
    assert!(fs.has("root/a/b/z~"));
    assert!(out.reports.is_empty());
}

#[test]
fn dot_root_descends_even_without_recursion() {
    let mut fs = SimFs::new();
    fs.add_dir(".", &["f~", "sub"]);
    fs.add_file("./f~");
    fs.add_dir("./sub", &["g~"]);
    fs.add_file("./sub/g~");
    let options = CleanOptions { recursive: false, verbose: false, confirm: false, max_depth: 0 };
    let out = run(&mut fs, options, ".", &[]);
    assert_eq!(out.deleted, vec!["./f~".to_string()]);
    assert!(fs.has("./sub/g~"));
}

#[test]
fn verbose_traces_frame_each_directory() {
    let mut fs = sample_tree();
    let options = CleanOptions { recursive: true, verbose: true, confirm: false, max_depth: 0 };
    let out = run(&mut fs, options, "root", &[]);
    assert_eq!(
        out.reports,
        vec![
            Report::Entering { path: "root".to_string() },
            Report::Deleted { path: "root/draft.txt~".to_string() },
            Report::Entering { path: "root/sub".to_string() },
            Report::Deleted { path: "root/sub/old.md~".to_string() },
            Report::Leaving { path: "root/sub".to_string() },
            Report::Leaving { path: "root".to_string() },
        ]
    );
}

#[test]
fn unresolvable_entry_is_reported_and_siblings_go_on() {
    let mut fs = SimFs::new();
    fs.add_dir("root", &["ghost", "real.txt~"]);
    fs.add_file("root/real.txt~");
    let out = run(&mut fs, quiet_recursive(), "root", &[]);
    assert_eq!(
        out.reports,
        vec![Report::EntryUnresolvable {
            path: "root/ghost".to_string(),
            message: Some("cannot resolve 'root/ghost'".to_string()),
        }]
    );
    assert_eq!(out.deleted, vec!["root/real.txt~".to_string()]);
}

#[test]
fn entry_of_another_kind_is_reported() {
    let mut fs = SimFs::new();
    fs.add_dir("root", &["device"]);
    fs.add_other("root/device");
    let out = run(&mut fs, quiet_recursive(), "root", &[]);
    assert_eq!(
        out.reports,
        vec![Report::EntryUnresolvable { path: "root/device".to_string(), message: None }]
    );
    assert!(out.deleted.is_empty());
}

#[test]
fn failed_child_enumeration_spares_its_siblings() {
    let mut fs = SimFs::new();
    fs.add_dir("root", &["ok.txt~"]);
    fs.add_file("root/ok.txt~");
    fs.bad_children.push(("root".to_string(), "child vanished".to_string()));
    let out = run(&mut fs, quiet_recursive(), "root", &[]);
    assert_eq!(
        out.reports,
        vec![Report::ChildEnumeration { message: "child vanished".to_string() }]
    );
    assert_eq!(out.deleted, vec!["root/ok.txt~".to_string()]);
}

#[test]
fn failed_deletion_is_reported_and_the_run_goes_on() {
    let mut fs = SimFs::new();
    fs.add_dir("root", &["stuck.txt~", "free.txt~"]);
    fs.add_file("root/stuck.txt~");
    fs.add_file("root/free.txt~");
    fs.undeletable.push("root/stuck.txt~".to_string());
    let out = run(&mut fs, quiet_recursive(), "root", &[]);
    assert_eq!(
        out.reports,
        vec![Report::DeletionFailed {
            path: "root/stuck.txt~".to_string(),
            message: "permission denied".to_string(),
        }]
    );
    assert_eq!(out.deleted, vec!["root/free.txt~".to_string()]);
    assert!(fs.has("root/stuck.txt~"));
}

#[test]
fn unrepresentable_name_is_reported() {
    let mut sweeper = Sweeper::new(CleanOptions::plain(), "odd".to_string(), None);
    match sweeper.poll() {
        Request::Stat { path } => assert_eq!(path, "odd"),
        other => panic!("expected a metadata request, got {:?}", other),
    }
    sweeper.resolve(Response::StatOk { kind: EntryKind::File });
    match sweeper.poll() {
        Request::Emit { report } => {
            assert_eq!(report, Report::NameUnrepresentable { path: "odd".to_string() });
        }
        other => panic!("expected a report, got {:?}", other),
    }
    sweeper.resolve(Response::Ack);
    assert!(matches!(sweeper.poll(), Request::Done));
}
