use packwiz_gui::explorer::lister::same_path;
use packwiz_gui::explorer::Explorer;

fn some(text: &str) -> Option<String> {
    Some(text.to_string())
}

#[test]
fn explorer_holds_the_root_it_was_given() {
    let explorer = Explorer::new(some("/proj"));
    assert_eq!(explorer.path(), &some("/proj"));
    let closed = Explorer::new(None);
    assert_eq!(closed.path(), &None);
}

#[test]
fn update_replaces_the_root() {
    let mut explorer = Explorer::new(some("/proj"));
    explorer.update(some("/other"));
    assert_eq!(explorer.path(), &some("/other"));
    explorer.update(None);
    assert_eq!(explorer.path(), &None);
}

#[test]
fn no_root_lists_nothing() {
    let explorer = Explorer::new(None);
    assert!(explorer.files(&None).is_empty());
    assert!(explorer.files(&Some(vec![some("/proj/a.toml")])).is_empty());
}

#[test]
fn unopened_directory_lists_nothing() {
    let explorer = Explorer::new(some("/does/not/exist"));
    assert!(explorer.files(&None).is_empty());
}

#[test]
fn empty_directory_lists_nothing() {
    let explorer = Explorer::new(some("/proj"));
    assert!(explorer.files(&Some(Vec::new())).is_empty());
}

#[test]
fn every_readable_entry_is_listed_in_order() {
    let explorer = Explorer::new(some("/proj"));
    let listing = Some(vec![some("/proj/z.txt"), some("/proj/sub"), some("/proj/a.toml")]);
    let files = explorer.files(&listing);
    assert_eq!(
        files,
        vec!["/proj/z.txt".to_string(), "/proj/sub".to_string(), "/proj/a.toml".to_string()]
    );
}

#[test]
fn unreadable_entries_are_left_out() {
    let explorer = Explorer::new(some("/proj"));
    let listing = Some(vec![None, some("/proj/a.toml"), None, None, some("/proj/b"), None]);
    let files = explorer.files(&listing);
    assert_eq!(files, vec!["/proj/a.toml".to_string(), "/proj/b".to_string()]);
    assert!(explorer.files(&Some(vec![None, None])).is_empty());
}

#[test]
fn listing_is_not_kept_between_calls() {
    let explorer = Explorer::new(some("/proj"));
    let first = explorer.files(&Some(vec![some("/proj/a.toml")]));
    assert_eq!(first.len(), 1);
    let second = explorer.files(&Some(vec![some("/proj/b.toml"), some("/proj/c.toml")]));
    assert_eq!(second, vec!["/proj/b.toml".to_string(), "/proj/c.toml".to_string()]);
}

#[test]
fn optional_paths_compare_by_text() {
    assert!(same_path(&None, &None));
    assert!(same_path(&some("/proj"), &some("/proj")));
    assert!(!same_path(&some("/proj"), &None));
    assert!(!same_path(&None, &some("/proj")));
    assert!(!same_path(&some("/proj"), &some("/proj2")));
}
