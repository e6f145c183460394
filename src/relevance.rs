use vstd::prelude::*;

verus! {

/// Name of the directory that holds the watcher's own log files.
pub open spec fn logs_dir_name() -> Seq<char> {
    "logs"@
}

/// File names of generated artifacts: writing them is output, not a source change.
pub open spec fn is_generated_name(name: Seq<char>) -> bool {
    name == "index.html"@ || name == "contents.json"@
}

/// Whether a change to the path below the watched root, given as its
/// components, counts towards a synchronization.
pub open spec fn is_relevant(path: Seq<Seq<char>>) -> bool {
    &&& path.len() > 0
    &&& !is_generated_name(path.last())
    &&& forall|i: int| 0 <= i < path.len() ==> path[i] != logs_dir_name()
}

/// The kinds of filesystem change that the watcher distinguishes.
#[derive(Clone, Copy, Debug, PartialEq, Eq, Structural)]
pub enum ChangeKind {
    Create,
    Modify,
    Remove,
    Other,
}

/// Only creations, modifications and removals can trigger a synchronization.
pub open spec fn is_content_change(kind: ChangeKind) -> bool {
    match kind {
        ChangeKind::Other => false,
        _ => true,
    }
}

/// One path of an event: its components below the watched root, or `None`
/// where the path does not lie below the root.
pub open spec fn path_is_relevant(p: Option<Vec<String>>) -> bool {
    match p {
        Some(c) => is_relevant(c.deep_view()),
        None => false,
    }
}

/// Whether an event of `kind` on `paths` counts towards a synchronization.
pub open spec fn is_relevant_event(kind: ChangeKind, paths: Seq<Option<Vec<String>>>) -> bool {
    is_content_change(kind) && exists|i: int| 0 <= i < paths.len() && path_is_relevant(#[trigger] paths[i])
}

/// Whether a change to `path` (its components below the watched root) counts
/// towards a synchronization: no file without a name, no generated artifact,
/// nothing inside a logs directory.
pub fn check_if_relevant(path: &Vec<String>) -> (r: bool)
    ensures
        r == is_relevant(path.deep_view()),
{
    let n = path.len();
    if n == 0 {
        return false;
    }
    let index_html = String::from_str("index.html");
    let contents_json = String::from_str("contents.json");
    let last = &path[n - 1];
    if *last == index_html || *last == contents_json {
        return false;
    }
    let logs = String::from_str("logs");
    let mut i: usize = 0;
    while i < n
        invariant
            n == path.len(),
            i <= n,
            logs@ == logs_dir_name(),
            forall|j: int| 0 <= j < i ==> path.deep_view()[j] != logs_dir_name(),
        decreases n - i,
    {
        if path[i] == logs {
            assert(path.deep_view()[i as int] == logs_dir_name());
            return false;
        }
        i = i + 1;
    }
    true
}

/// Whether an event of `kind` on `paths` counts towards a synchronization:
/// it creates, modifies or removes, and at least one of its paths lies below
/// the watched root and is relevant.
pub fn event_is_relevant(kind: ChangeKind, paths: &Vec<Option<Vec<String>>>) -> (r: bool)
    ensures
        r == is_relevant_event(kind, paths@),
{
    if let ChangeKind::Other = kind {
        return false;
    }
    let mut i: usize = 0;
    while i < paths.len()
        invariant
            i <= paths.len(),
            is_content_change(kind),
            forall|j: int| 0 <= j < i ==> !path_is_relevant(#[trigger] paths@[j]),
        decreases paths.len() - i,
    {
        match &paths[i] {
            Some(c) => {
                if check_if_relevant(c) {
                    assert(path_is_relevant(paths@[i as int]));
                    return true;
                }
            },
            None => {},
        }
        i = i + 1;
    }
    false
}

/// The relevance filter in full: a path whose file name is a generated
/// artifact is never relevant, a path with a component naming the logs
/// directory is never relevant, and any other path with a file name is.
pub proof fn relevance_filter_law(path: Seq<Seq<char>>)
    ensures
        path.len() > 0 && is_generated_name(path.last()) ==> !is_relevant(path),
        (exists|i: int| 0 <= i < path.len() && path[i] == logs_dir_name()) ==> !is_relevant(path),
        path.len() > 0 && !is_generated_name(path.last()) && (forall|i: int|
            0 <= i < path.len() ==> path[i] != logs_dir_name()) ==> is_relevant(path),
{
}

} // verus!
