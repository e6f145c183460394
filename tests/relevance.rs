use watcher_logic::relevance::{check_if_relevant, event_is_relevant, ChangeKind};

fn path(parts: &[&str]) -> Vec<String> {
    parts.iter().map(|p| p.to_string()).collect()
}

#[test]
fn plain_file_is_relevant() {
    assert!(check_if_relevant(&path(&["a.txt"])));
    assert!(check_if_relevant(&path(&["docs", "guide", "b.md"])));
}

#[test]
fn generated_artifacts_are_not_relevant() {
    assert!(!check_if_relevant(&path(&["index.html"])));
    assert!(!check_if_relevant(&path(&["contents.json"])));
    assert!(!check_if_relevant(&path(&["site", "sub", "index.html"])));
}

#[test]
fn generated_name_only_counts_as_file_name() {
    assert!(check_if_relevant(&path(&["index.html", "a.txt"])));
    assert!(check_if_relevant(&path(&["index.htm"])));
}

#[test]
fn anything_under_logs_is_not_relevant() {
    assert!(!check_if_relevant(&path(&["logs", "x.log"])));
    assert!(!check_if_relevant(&path(&["a", "logs", "b", "c.txt"])));
    assert!(!check_if_relevant(&path(&["logs"])));
    assert!(check_if_relevant(&path(&["logsx", "a.txt"])));
}

#[test]
fn root_itself_is_not_relevant() {
    assert!(!check_if_relevant(&path(&[])));
}

#[test]
fn event_needs_a_content_change_kind() {
    let paths = vec![Some(path(&["a.txt"]))];
    assert!(event_is_relevant(ChangeKind::Create, &paths));
    assert!(event_is_relevant(ChangeKind::Modify, &paths));
    assert!(event_is_relevant(ChangeKind::Remove, &paths));
    assert!(!event_is_relevant(ChangeKind::Other, &paths));
}

#[test]
fn event_needs_one_relevant_path() {
    let none = vec![None, Some(path(&["logs", "x.log"])), Some(path(&["index.html"]))];
    assert!(!event_is_relevant(ChangeKind::Modify, &none));
    let one = vec![None, Some(path(&["logs", "x.log"])), Some(path(&["b.txt"]))];
    assert!(event_is_relevant(ChangeKind::Modify, &one));
    assert!(!event_is_relevant(ChangeKind::Modify, &vec![]));
}
