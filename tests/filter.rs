use findr::filter::{Entry, EntryKind, EntryType, FilterChain};
use findr::pattern::NamePattern;
use findr::walk::{Action, RunStatus, TraversalError, WalkItem};

fn entry(path: &str, name: &str, kind: EntryKind) -> Entry {
    Entry { path: path.to_string(), name: name.to_string(), kind }
}

fn chain(types: Vec<EntryType>, names: &[&str]) -> FilterChain {
    let names: Vec<String> = names.iter().map(|s| s.to_string()).collect();
    match FilterChain::new(types, &names) {
        Ok(c) => c,
        Err(e) => panic!("pattern {} refused: {}", e.pattern, e.message),
    }
}

fn tree() -> Vec<Entry> {
    vec![
        entry("/tmp/t", "t", EntryKind::Dir),
        entry("/tmp/t/a.txt", "a.txt", EntryKind::File),
        entry("/tmp/t/b.log", "b.log", EntryKind::File),
        entry("/tmp/t/sub", "sub", EntryKind::Dir),
        entry("/tmp/t/sub/c.txt", "c.txt", EntryKind::File),
        entry("/tmp/t/up", "up", EntryKind::Link),
        entry("/tmp/t/fifo", "fifo", EntryKind::Other),
    ]
}

fn selected(c: &FilterChain, entries: &[Entry]) -> Vec<String> {
    entries.iter().filter(|e| c.matches(e)).map(|e| e.path.clone()).collect()
}

#[test]
fn empty_chain_selects_every_entry() {
    let c = chain(vec![], &[]);
    let all = tree();
    assert_eq!(selected(&c, &all).len(), all.len());
}

#[test]
fn files_named_txt() {
    let c = chain(vec![EntryType::File], &[r"\.txt$"]);
    assert_eq!(selected(&c, &tree()), vec!["/tmp/t/a.txt", "/tmp/t/sub/c.txt"]);
}

#[test]
fn name_is_tested_against_base_name_only() {
    let c = chain(vec![], &["^t"]);
    assert_eq!(selected(&c, &tree()), vec!["/tmp/t"]);
}

#[test]
fn name_search_is_unanchored() {
    let c = chain(vec![], &["u"]);
    assert_eq!(selected(&c, &tree()), vec!["/tmp/t/sub", "/tmp/t/up"]);
}

#[test]
fn types_combine_with_or() {
    let c = chain(vec![EntryType::Dir, EntryType::Link], &[]);
    assert_eq!(selected(&c, &tree()), vec!["/tmp/t", "/tmp/t/sub", "/tmp/t/up"]);
}

#[test]
fn names_combine_with_or_and_types_with_and() {
    let c = chain(vec![EntryType::File], &["^a", "log$"]);
    assert_eq!(selected(&c, &tree()), vec!["/tmp/t/a.txt", "/tmp/t/b.log"]);
    let none = chain(vec![EntryType::Dir], &[r"\.txt$"]);
    assert!(selected(&none, &tree()).is_empty());
}

#[test]
fn other_kinds_pass_only_without_type_predicates() {
    let fifo = entry("/tmp/t/fifo", "fifo", EntryKind::Other);
    assert!(chain(vec![], &[]).matches(&fifo));
    let all = chain(vec![EntryType::Dir, EntryType::File, EntryType::Link], &[]);
    assert!(!all.matches(&fifo));
}

#[test]
fn matching_twice_gives_the_same_answer() {
    let c = chain(vec![EntryType::File], &[r"\.txt$"]);
    for e in tree() {
        assert_eq!(c.matches(&e), c.matches(&e));
    }
}

#[test]
fn invalid_pattern_is_refused_at_build_time() {
    let names = vec!["ok".to_string(), "(".to_string(), "[".to_string()];
    match FilterChain::new(vec![], &names) {
        Ok(_) => panic!("an unbalanced pattern was accepted"),
        Err(e) => {
            assert_eq!(e.pattern, "(");
            assert!(!e.message.is_empty());
        }
    }
}

#[test]
fn name_pattern_keeps_its_source() {
    let p = NamePattern::new("a+b").ok().unwrap();
    assert_eq!(p.as_str(), "a+b");
    assert!(p.is_match("xaab"));
    assert!(!p.is_match("b"));
}

#[test]
fn type_tags() {
    assert_eq!(EntryType::from_tag("d"), Some(EntryType::Dir));
    assert_eq!(EntryType::from_tag("f"), Some(EntryType::File));
    assert_eq!(EntryType::from_tag("l"), Some(EntryType::Link));
    assert_eq!(EntryType::from_tag("x"), None);
    assert_eq!(EntryType::from_tag(""), None);
    assert_eq!(EntryType::from_tag("dd"), None);
}

#[test]
fn step_emits_selected_paths_and_skips_others() {
    let c = chain(vec![EntryType::File], &[r"\.txt$"]);
    let mut status = RunStatus::new();
    let emitted: Vec<String> = tree()
        .into_iter()
        .filter_map(|e| match status.step(&c, WalkItem::Found(e)) {
            Action::Emit(p) => Some(p),
            _ => None,
        })
        .collect();
    assert_eq!(emitted, vec!["/tmp/t/a.txt", "/tmp/t/sub/c.txt"]);
    assert!(status.succeeded());
}

#[test]
fn step_reports_errors_and_continues() {
    let c = chain(vec![], &[]);
    let mut status = RunStatus::new();
    let err = TraversalError { path: Some("/nonexistent".to_string()), message: "not found".to_string() };
    match status.step(&c, WalkItem::Failed(err)) {
        Action::Report(e) => assert_eq!(e.path.as_deref(), Some("/nonexistent")),
        _ => panic!("an error was not reported"),
    }
    assert!(!status.succeeded());
    match status.step(&c, WalkItem::Found(entry("/tmp/t", "t", EntryKind::Dir))) {
        Action::Emit(p) => assert_eq!(p, "/tmp/t"),
        _ => panic!("an entry after an error was dropped"),
    }
    assert!(!status.succeeded());
}
