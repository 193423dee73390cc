//! The path engine, driven against a small in-memory filesystem: the tests
//! play the caller's role, performing the probes and actions the verified
//! state machines ask for.

use sandbox_fs::batch::{collapse, flatten_inputs, take_single_path, BatchRun, PathArg};
use sandbox_fs::errors::{IoStep, OpError};
use sandbox_fs::ops::{
    check_read_encoding, classify, exists_outcome, guard_create_dir, guard_remove,
    guard_write_file, is_utf8_encoding, read_plan, remove_plan, sort_entries, ExistsValue,
    FileKind, MetaEvent, MetaState, ReadPlan, RemovePlan,
};
use sandbox_fs::paths::{
    is_within, path_looks_like_file, split_slash, ProbeEvent, ResolvedPath, Resolver, Step,
};
use sandbox_fs::plan::{build_create_plan, Content, CreatePlan};
use sandbox_fs::BatchResult;

#[derive(Clone, Debug, PartialEq)]
enum Node {
    File(String),
    Dir,
    /// A symlink; the payload is its canonical target.
    Link(String),
}

/// An in-memory filesystem under one confinement root.
struct FakeFs {
    root: String,
    entries: Vec<(String, Node)>,
}

impl FakeFs {
    fn new(root: &str) -> FakeFs {
        FakeFs { root: root.to_string(), entries: Vec::new() }
    }

    fn put(&mut self, path: &str, node: Node) {
        self.entries.retain(|(p, _)| p != path);
        self.entries.push((path.to_string(), node));
    }

    fn lookup(&self, path: &str) -> Option<&Node> {
        self.entries.iter().find(|(p, _)| p == path).map(|(_, n)| n)
    }

    /// An lstat-style probe: reports a symlink without following it.
    fn probe(&self, path: &str) -> ProbeEvent {
        match self.lookup(path) {
            None => ProbeEvent::Missing,
            Some(Node::Link(target)) => ProbeEvent::Symlink(target.clone()),
            Some(_) => ProbeEvent::NotSymlink,
        }
    }

    /// A stat-style lookup: follows a symlink to its target's kind.
    fn meta(&self, path: &str) -> MetaEvent {
        match self.lookup(path) {
            None => MetaEvent::Missing,
            Some(Node::File(_)) => MetaEvent::Kind(FileKind::File),
            Some(Node::Dir) => MetaEvent::Kind(FileKind::Dir),
            Some(Node::Link(target)) => {
                let target = target.clone();
                self.meta(&target)
            }
        }
    }

    fn resolve(&self, raw: &str) -> Result<ResolvedPath, OpError> {
        let mut resolver = Resolver::new(self.root.clone(), raw)?;
        loop {
            match resolver.advance()? {
                Step::Probe(path) => {
                    let ev = self.probe(&path);
                    resolver.feed(ev)?;
                }
                Step::Done(resolved) => return Ok(resolved),
            }
        }
    }

    fn mkdir_all(&mut self, path: &str) {
        // Create every prefix of the path below the root as a directory.
        let rel = &path[self.root.len()..];
        let mut acc = self.root.clone();
        for seg in rel.split('/').filter(|s| !s.is_empty()) {
            acc.push('/');
            acc.push_str(seg);
            if self.lookup(&acc).is_none() {
                let key = acc.clone();
                self.put(&key, Node::Dir);
            }
        }
    }

    fn create_one(&mut self, raw: &str, content: Option<&str>) -> Result<bool, OpError> {
        let target = self.resolve(raw)?;
        match content {
            None => {
                guard_create_dir(&target)?;
                self.mkdir_all(&target.path);
                Ok(true)
            }
            Some(text) => {
                guard_write_file(&target)?;
                if let Some(pos) = target.path.rfind('/') {
                    let parent = target.path[..pos].to_string();
                    if parent.len() >= self.root.len() {
                        self.mkdir_all(&parent);
                    }
                }
                let key = target.path.clone();
                self.put(&key, Node::File(text.to_string()));
                Ok(true)
            }
        }
    }

    fn run_create(
        &mut self,
        inputs: Vec<PathArg>,
        content: Option<Content>,
    ) -> Result<BatchResult<bool>, OpError> {
        let paths = flatten_inputs(inputs)?;
        match build_create_plan(paths, content).map_err(|e| e)? {
            CreatePlan::Folders(folders) => {
                let mut run: BatchRun<bool> = BatchRun::new(folders);
                while let Some(path) = run.next_item() {
                    match self.create_one(&path, None) {
                        Ok(v) => run.push_ok(v),
                        Err(e) => run.fail(e),
                    }
                }
                run.finish()
            }
            CreatePlan::Files(files) => {
                let mut results = Vec::new();
                for (path, text) in files {
                    results.push(self.create_one(&path, Some(&text))?);
                }
                Ok(collapse(results))
            }
        }
    }

    fn exists_one(&self, raw: &str) -> Result<ExistsValue, OpError> {
        let target = self.resolve(raw)?;
        let state = classify(self.meta(&target.path))?;
        Ok(exists_outcome(&state))
    }

    fn run_exists(&self, inputs: Vec<PathArg>) -> Result<BatchResult<ExistsValue>, OpError> {
        let paths = flatten_inputs(inputs)?;
        let mut run: BatchRun<ExistsValue> = BatchRun::new(paths);
        while let Some(path) = run.next_item() {
            match self.exists_one(&path) {
                Ok(v) => run.push_ok(v),
                Err(e) => run.fail(e),
            }
        }
        run.finish()
    }

    fn list_dir(&self, path: &str) -> Vec<String> {
        let mut names = Vec::new();
        let prefix = format!("{}/", path);
        for (p, _) in &self.entries {
            if let Some(rest) = p.strip_prefix(&prefix) {
                if !rest.is_empty() && !rest.contains('/') {
                    names.push(rest.to_string());
                }
            }
        }
        names
    }

    fn read_one(&self, raw: &str, encoding: &Option<String>) -> Result<ReadValue, OpError> {
        check_read_encoding(encoding)?;
        let target = self.resolve(raw)?;
        let state = classify(self.meta(&target.path))?;
        match read_plan(&state) {
            ReadPlan::ReadFile => {
                let mut at = target.path.clone();
                // Follow links as a real read would.
                loop {
                    match self.lookup(&at) {
                        Some(Node::Link(t)) => at = t.clone(),
                        Some(Node::File(text)) => return Ok(ReadValue::Text(text.clone())),
                        _ => return Err(OpError::Io(IoStep::ReadFile, "gone".to_string())),
                    }
                }
            }
            ReadPlan::ListDir => Ok(ReadValue::Listing(sort_entries(self.list_dir(&target.path)))),
            ReadPlan::Absent => Ok(ReadValue::Absent),
        }
    }

    fn remove_one(&mut self, raw: &str) -> Result<bool, OpError> {
        let target = self.resolve(raw)?;
        guard_remove(&target)?;
        let state = classify(self.meta(&target.path))?;
        match remove_plan(&state) {
            RemovePlan::RemoveFile => {
                let path = target.path.clone();
                self.entries.retain(|(p, _)| *p != path);
                Ok(true)
            }
            RemovePlan::RemoveTree => {
                let path = target.path.clone();
                let prefix = format!("{}/", path);
                self.entries.retain(|(p, _)| *p != path && !p.starts_with(&prefix));
                Ok(true)
            }
            RemovePlan::Absent => Ok(false),
        }
    }

    fn run_remove(&mut self, inputs: Vec<PathArg>) -> Result<BatchResult<bool>, OpError> {
        let paths = flatten_inputs(inputs)?;
        let mut run: BatchRun<bool> = BatchRun::new(paths);
        while let Some(path) = run.next_item() {
            match self.remove_one(&path) {
                Ok(v) => run.push_ok(v),
                Err(e) => run.fail(e),
            }
        }
        run.finish()
    }
}

#[derive(Clone, Debug, PartialEq)]
enum ReadValue {
    Text(String),
    Listing(Vec<String>),
    Absent,
}

fn one(path: &str) -> Vec<PathArg> {
    vec![PathArg::One(path.to_string())]
}

const ROOT: &str = "/srv/box";

#[test]
fn resolve_plain_path_lands_under_root() {
    let fs = FakeFs::new(ROOT);
    let resolved = fs.resolve("a/b").unwrap();
    assert_eq!(resolved.path, "/srv/box/a/b");
    assert!(!resolved.is_root);
}

#[test]
fn resolve_normalizes_dot_and_empty_components() {
    let fs = FakeFs::new(ROOT);
    let resolved = fs.resolve("./a//b/.").unwrap();
    assert_eq!(resolved.path, "/srv/box/a/b");
}

#[test]
fn resolve_dot_is_the_root_itself() {
    let fs = FakeFs::new(ROOT);
    let resolved = fs.resolve(".").unwrap();
    assert_eq!(resolved.path, ROOT);
    assert!(resolved.is_root);
}

#[test]
fn empty_and_blank_paths_are_rejected() {
    let fs = FakeFs::new(ROOT);
    assert_eq!(fs.resolve("").unwrap_err(), OpError::EmptyPath);
    assert_eq!(fs.resolve("   ").unwrap_err(), OpError::EmptyPath);
    assert_eq!(fs.resolve("\t\n").unwrap_err(), OpError::EmptyPath);
}

#[test]
fn absolute_paths_are_rejected() {
    let fs = FakeFs::new(ROOT);
    assert_eq!(fs.resolve("/etc/passwd").unwrap_err(), OpError::AbsolutePath);
    assert_eq!(fs.resolve("/srv/box/a").unwrap_err(), OpError::AbsolutePath);
}

#[test]
fn traversal_is_rejected_even_when_target_stays_inside() {
    let fs = FakeFs::new(ROOT);
    assert_eq!(fs.resolve("a/../b").unwrap_err(), OpError::Traversal);
    assert_eq!(fs.resolve("..").unwrap_err(), OpError::Traversal);
    assert_eq!(fs.resolve("a/b/../../c").unwrap_err(), OpError::Traversal);
}

#[test]
fn every_resolved_path_is_root_or_strict_descendant() {
    let mut fs = FakeFs::new(ROOT);
    fs.put("/srv/box/keep", Node::Dir);
    fs.put("/srv/box/link", Node::Link("/srv/box/keep".to_string()));
    let raws = [
        ".", "a", "a/b/c", "./x", "x//y", "keep/z", "link/z", "deep/../e", "..", "/abs", " ",
        "a.txt", ". /q", "....", "...", "a/./b",
    ];
    for raw in raws {
        if let Ok(resolved) = fs.resolve(raw) {
            let contained = resolved.path == ROOT
                || resolved.path.starts_with(&format!("{}/", ROOT));
            assert!(contained, "escaped: {raw} -> {}", resolved.path);
            assert!(is_within(ROOT, &resolved.path));
        }
    }
}

#[test]
fn intermediate_symlink_outside_root_is_rejected() {
    let mut fs = FakeFs::new(ROOT);
    fs.put("/srv/box/evil", Node::Link("/tmp/outside".to_string()));
    // Later components do not exist; the escape is still caught.
    assert_eq!(fs.resolve("evil/sub/file").unwrap_err(), OpError::PathEscape);
    assert_eq!(fs.resolve("evil").unwrap_err(), OpError::PathEscape);
}

#[test]
fn symlink_inside_root_is_accepted() {
    let mut fs = FakeFs::new(ROOT);
    fs.put("/srv/box/real", Node::Dir);
    fs.put("/srv/box/alias", Node::Link("/srv/box/real".to_string()));
    let resolved = fs.resolve("alias/child").unwrap();
    assert_eq!(resolved.path, "/srv/box/alias/child");
}

#[test]
fn symlink_to_sibling_of_root_is_rejected() {
    let mut fs = FakeFs::new(ROOT);
    // "/srv/boxes" shares the root's text prefix but is not a descendant.
    fs.put("/srv/box/l", Node::Link("/srv/boxes".to_string()));
    assert_eq!(fs.resolve("l/x").unwrap_err(), OpError::PathEscape);
}

#[test]
fn probe_failures_become_io_errors() {
    let mut resolver = Resolver::new(ROOT.to_string(), "a").unwrap();
    match resolver.advance().unwrap() {
        Step::Probe(p) => {
            assert_eq!(p, "/srv/box/a");
            let err = resolver
                .feed(ProbeEvent::InspectFailed("denied".to_string()))
                .unwrap_err();
            assert_eq!(err, OpError::Io(IoStep::InspectSegment, "denied".to_string()));
            assert_eq!(err.message(), "Failed to inspect path segment: denied");
        }
        Step::Done(_) => panic!("expected a probe"),
    }
}

#[test]
fn create_then_read_roundtrip_and_remove() {
    let mut fs = FakeFs::new(ROOT);
    let created = fs
        .run_create(one("notes/today.txt"), Some(Content::Text("hello".to_string())))
        .unwrap();
    assert!(matches!(created, BatchResult::Single(true)));
    let read = fs.read_one("notes/today.txt", &None).unwrap();
    assert_eq!(read, ReadValue::Text("hello".to_string()));

    let removed = fs.run_remove(one("notes/today.txt")).unwrap();
    assert!(matches!(removed, BatchResult::Single(true)));
    let gone = fs.run_exists(one("notes/today.txt")).unwrap();
    assert!(matches!(gone, BatchResult::Single(ExistsValue::Absent)));
}

#[test]
fn create_without_content_makes_directories() {
    let mut fs = FakeFs::new(ROOT);
    let created = fs
        .run_create(
            vec![PathArg::Many(vec!["a/b".to_string(), "a/c".to_string()])],
            None,
        )
        .unwrap();
    match created {
        BatchResult::List(values) => assert_eq!(values, vec![true, true]),
        BatchResult::Single(_) => panic!("two items must stay a list"),
    }
    let state = fs.run_exists(one("a/b")).unwrap();
    match state {
        BatchResult::Single(v) => {
            assert_eq!(v, ExistsValue::Folder);
            assert_eq!(v.label(), Some("folder".to_string()));
        }
        BatchResult::List(_) => panic!("one item must collapse"),
    }
}

#[test]
fn extension_heuristic_decides_file_or_directories() {
    let mut fs = FakeFs::new(ROOT);
    fs.run_create(one("x.txt"), Some(Content::Text("data".to_string()))).unwrap();
    assert!(matches!(
        fs.run_exists(one("x.txt")).unwrap(),
        BatchResult::Single(ExistsValue::File)
    ));

    let mut fs2 = FakeFs::new(ROOT);
    fs2.run_create(one("x"), Some(Content::Text("data".to_string()))).unwrap();
    assert!(matches!(
        fs2.run_exists(one("x")).unwrap(),
        BatchResult::Single(ExistsValue::Folder)
    ));
    assert!(matches!(
        fs2.run_exists(one("data")).unwrap(),
        BatchResult::Single(ExistsValue::Folder)
    ));
}

#[test]
fn hidden_names_without_extension_are_directories() {
    assert!(!path_looks_like_file(".env"));
    assert!(path_looks_like_file(".env.local"));
    assert!(!path_looks_like_file("a.b.c/d"));
    assert!(path_looks_like_file("a/b.txt"));
    assert!(path_looks_like_file("x."));
    assert!(!path_looks_like_file("a/.."));
    assert!(!path_looks_like_file("x"));
}

#[test]
fn directory_read_lists_entries_sorted() {
    let mut fs = FakeFs::new(ROOT);
    fs.run_create(
        vec![PathArg::Many(vec![
            "d/zebra".to_string(),
            "d/apple".to_string(),
            "d/mango".to_string(),
        ])],
        None,
    )
    .unwrap();
    let read = fs.read_one("d", &None).unwrap();
    assert_eq!(
        read,
        ReadValue::Listing(vec!["apple".to_string(), "mango".to_string(), "zebra".to_string()])
    );

    // A different creation order lists identically.
    let mut fs2 = FakeFs::new(ROOT);
    fs2.run_create(
        vec![PathArg::Many(vec![
            "d/mango".to_string(),
            "d/zebra".to_string(),
            "d/apple".to_string(),
        ])],
        None,
    )
    .unwrap();
    assert_eq!(fs2.read_one("d", &None).unwrap(), read);
}

#[test]
fn read_rejects_non_utf8_encodings_before_any_access() {
    let fs = FakeFs::new(ROOT);
    let err = fs.read_one("whatever", &Some("latin1".to_string())).unwrap_err();
    assert_eq!(err, OpError::UnsupportedEncoding);
    assert_eq!(err.message(), "Only UTF-8 encoding is supported");
    assert_eq!(fs.read_one("missing", &Some("UTF-8".to_string())).unwrap(), ReadValue::Absent);
    assert!(is_utf8_encoding("Utf8"));
    assert!(is_utf8_encoding("utf-8"));
    assert!(!is_utf8_encoding("utf 8"));
}

#[test]
fn removing_a_missing_path_reports_false_not_an_error() {
    let mut fs = FakeFs::new(ROOT);
    let removed = fs.run_remove(one("nothing/here")).unwrap();
    assert!(matches!(removed, BatchResult::Single(false)));
}

#[test]
fn root_targets_are_always_refused() {
    let mut fs = FakeFs::new(ROOT);
    assert_eq!(fs.run_create(one("."), None).unwrap_err(), OpError::RootCreate);
    assert_eq!(
        fs.run_create(one("./x.txt/.."), Some(Content::List(vec!["a".to_string()])))
            .unwrap_err(),
        OpError::Traversal
    );
    assert_eq!(fs.run_remove(one(".")).unwrap_err(), OpError::RootRemove);
    assert_eq!(
        fs.run_remove(one(".")).unwrap_err().message(),
        "Refusing to remove the repository root"
    );
}

#[test]
fn file_write_over_the_root_is_refused() {
    let mut fs = FakeFs::new(ROOT);
    // Aligned lists make file writes; a path resolving to the root fails.
    let err = fs
        .run_create(
            vec![PathArg::Many(vec![".".to_string(), "x.txt".to_string()])],
            Some(Content::List(vec!["a".to_string(), "b".to_string()])),
        )
        .unwrap_err();
    assert_eq!(err, OpError::RootOverwrite);
    assert_eq!(err.message(), "Refusing to overwrite the repository root");
}

#[test]
fn failing_batch_item_stops_later_items() {
    let mut fs = FakeFs::new(ROOT);
    fs.run_create(one("p2"), None).unwrap();
    // The first item is the root: it fails, and p2 must never be attempted.
    let err = fs
        .run_remove(vec![PathArg::Many(vec![".".to_string(), "p2".to_string()])])
        .unwrap_err();
    assert_eq!(err, OpError::RootRemove);
    assert!(matches!(
        fs.run_exists(one("p2")).unwrap(),
        BatchResult::Single(ExistsValue::Folder)
    ));
}

#[test]
fn single_and_multi_path_calls_collapse_as_promised() {
    let mut fs = FakeFs::new(ROOT);
    fs.run_create(one("solo"), None).unwrap();
    assert!(matches!(fs.run_exists(one("solo")).unwrap(), BatchResult::Single(_)));
    // Even a list of length one flattens to a single work item and collapses.
    assert!(matches!(
        fs.run_exists(vec![PathArg::Many(vec!["solo".to_string()])]).unwrap(),
        BatchResult::Single(_)
    ));
    assert!(matches!(
        fs.run_exists(vec![
            PathArg::One("solo".to_string()),
            PathArg::One("other".to_string())
        ])
        .unwrap(),
        BatchResult::List(_)
    ));
}

#[test]
fn empty_batches_are_rejected() {
    let err = flatten_inputs(Vec::new()).unwrap_err();
    assert_eq!(err, OpError::EmptyBatch);
    assert_eq!(err.message(), "At least one path is required");
    let err = flatten_inputs(vec![PathArg::Many(Vec::new())]).unwrap_err();
    assert_eq!(err, OpError::EmptyBatch);
}

#[test]
fn flatten_keeps_input_order() {
    let flat = flatten_inputs(vec![
        PathArg::One("a".to_string()),
        PathArg::Many(vec!["b".to_string(), "c".to_string()]),
        PathArg::One("d".to_string()),
    ])
    .unwrap();
    assert_eq!(flat, vec!["a", "b", "c", "d"]);
}

#[test]
fn create_plan_shapes() {
    // A content list against one path: everything is a directory.
    match build_create_plan(
        vec!["a".to_string()],
        Some(Content::List(vec!["b".to_string(), "c".to_string()])),
    )
    .unwrap()
    {
        CreatePlan::Folders(f) => assert_eq!(f, vec!["a", "b", "c"]),
        CreatePlan::Files(_) => panic!("expected directories"),
    }
    // Aligned lists: file writes.
    match build_create_plan(
        vec!["a.txt".to_string(), "b.txt".to_string()],
        Some(Content::List(vec!["1".to_string(), "2".to_string()])),
    )
    .unwrap()
    {
        CreatePlan::Files(files) => {
            assert_eq!(files[0], ("a.txt".to_string(), "1".to_string()));
            assert_eq!(files[1], ("b.txt".to_string(), "2".to_string()));
        }
        CreatePlan::Folders(_) => panic!("expected files"),
    }
    // Errors.
    let err =
        build_create_plan(vec!["a".to_string()], Some(Content::List(Vec::new()))).unwrap_err();
    assert_eq!(err.message(), "Second argument array must not be empty");
    let err = build_create_plan(
        vec!["a".to_string(), "b".to_string()],
        Some(Content::List(vec!["1".to_string(), "2".to_string(), "3".to_string()])),
    )
    .unwrap_err();
    assert_eq!(err.message(), "Path and content arrays must have equal length");
    let err = build_create_plan(
        vec!["a".to_string(), "b".to_string()],
        Some(Content::Text("1".to_string())),
    )
    .unwrap_err();
    assert_eq!(err.message(), "Single content string only works with a single path");
}

#[test]
fn take_single_path_accepts_exactly_one() {
    assert_eq!(take_single_path(vec!["a".to_string()]).unwrap(), "a");
    assert!(take_single_path(vec!["a".to_string(), "b".to_string()]).is_err());
}

#[test]
fn sort_entries_sorts_any_order_the_same() {
    let a = sort_entries(vec!["b".to_string(), "a".to_string(), "c".to_string()]);
    let b = sort_entries(vec!["c".to_string(), "b".to_string(), "a".to_string()]);
    assert_eq!(a, vec!["a", "b", "c"]);
    assert_eq!(a, b);
}

#[test]
fn split_slash_matches_str_split() {
    for raw in ["a/b", "a//b/", "", "/", "a", "./a/."] {
        let got = split_slash(raw);
        let want: Vec<String> = raw.split('/').map(|s| s.to_string()).collect();
        assert_eq!(got, want, "splitting {raw:?}");
    }
}

#[test]
fn is_within_matches_component_prefix_semantics() {
    assert!(is_within("/srv/box", "/srv/box"));
    assert!(is_within("/srv/box", "/srv/box/a"));
    assert!(!is_within("/srv/box", "/srv/boxes"));
    assert!(!is_within("/srv/box", "/srv"));
    assert!(is_within("/", "/anything"));
    assert!(is_within("/", "/"));
}
