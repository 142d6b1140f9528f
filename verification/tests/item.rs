use packwiz_gui::explorer::item::is_recognized;
use packwiz_gui::explorer::{ExplorerItem, ExplorerItemError, ExplorerItemType, VisualState};

fn file(path: &str) -> ExplorerItem {
    ExplorerItem::new(path.to_string(), false, false).unwrap()
}

#[test]
fn root_path_has_no_file_name() {
    let made = ExplorerItem::new("/".to_string(), true, false);
    assert_eq!(made.unwrap_err(), ExplorerItemError::WrongFileName);
}

#[test]
fn empty_path_has_no_file_name() {
    let made = ExplorerItem::new(String::new(), false, false);
    assert_eq!(made.unwrap_err(), ExplorerItemError::WrongFileName);
}

#[test]
fn path_that_ends_in_parent_has_no_file_name() {
    let made = ExplorerItem::new("/proj/..".to_string(), true, true);
    assert_eq!(made.unwrap_err(), ExplorerItemError::WrongFileName);
}

#[test]
fn error_message_is_fixed() {
    assert_eq!(ExplorerItemError::WrongFileName.message(), "File name is incorrect!");
}

#[test]
fn name_is_the_final_component() {
    let item = file("/proj/sub/a.toml");
    assert_eq!(item.name(), "a.toml");
    assert_eq!(item.path(), "/proj/sub/a.toml");
    assert!(!item.is_selected());
}

#[test]
fn trailing_separator_does_not_hide_the_name() {
    let item = ExplorerItem::new("/proj/sub/".to_string(), true, false).unwrap();
    assert_eq!(item.name(), "sub");
    assert_eq!(item.path(), "/proj/sub/");
    assert_eq!(item.kind(), ExplorerItemType::Directory);
}

#[test]
fn directory_stays_a_directory_with_a_recognized_extension() {
    let item = ExplorerItem::new("/proj/thing.toml".to_string(), true, false).unwrap();
    assert_eq!(item.kind(), ExplorerItemType::Directory);
    assert_eq!(item.name(), "thing.toml");
}

#[test]
fn file_with_the_recognized_extension_is_a_packwiz_file() {
    assert_eq!(file("/proj/pack.toml").kind(), ExplorerItemType::PackwizFile);
    assert_eq!(file("index.toml").kind(), ExplorerItemType::PackwizFile);
    assert_eq!(file("/proj/mods/a.pw.toml").kind(), ExplorerItemType::PackwizFile);
    assert_eq!(file("/proj/..toml").kind(), ExplorerItemType::PackwizFile);
}

#[test]
fn other_files_are_unknown() {
    assert_eq!(file("/proj/notes.txt").kind(), ExplorerItemType::UnknownFile);
    assert_eq!(file("/proj/README").kind(), ExplorerItemType::UnknownFile);
    assert_eq!(file("/proj/pack.toml.bak").kind(), ExplorerItemType::UnknownFile);
    assert_eq!(file("/proj/toml").kind(), ExplorerItemType::UnknownFile);
    assert_eq!(file("/proj/pack.").kind(), ExplorerItemType::UnknownFile);
    assert_eq!(file("/proj.toml/pack").kind(), ExplorerItemType::UnknownFile);
}

#[test]
fn extension_match_is_case_sensitive() {
    assert_eq!(file("/proj/pack.TOML").kind(), ExplorerItemType::UnknownFile);
    assert_eq!(file("/proj/pack.Toml").kind(), ExplorerItemType::UnknownFile);
}

#[test]
fn leading_dot_alone_is_no_extension() {
    assert_eq!(file("/proj/.toml").kind(), ExplorerItemType::UnknownFile);
    assert_eq!(file("/proj/.toml").name(), ".toml");
}

#[test]
fn recognized_extension_is_exactly_toml() {
    assert!(is_recognized(&"toml".to_string()));
    assert!(!is_recognized(&"TOML".to_string()));
    assert!(!is_recognized(&"tom".to_string()));
    assert!(!is_recognized(&"toml ".to_string()));
    assert!(!is_recognized(&String::new()));
}

#[test]
fn from_parts_takes_what_it_is_given() {
    let item = ExplorerItem::from_parts(
        "/proj/a.toml".to_string(),
        Some("a.toml".to_string()),
        Some("toml".to_string()),
        false,
        true,
    )
    .unwrap();
    assert_eq!(item.name(), "a.toml");
    assert_eq!(item.path(), "/proj/a.toml");
    assert_eq!(item.kind(), ExplorerItemType::PackwizFile);
    assert!(item.is_selected());
}

#[test]
fn from_parts_tests_the_directory_first() {
    let item = ExplorerItem::from_parts(
        "/proj/d.toml".to_string(),
        Some("d.toml".to_string()),
        Some("toml".to_string()),
        true,
        false,
    )
    .unwrap();
    assert_eq!(item.kind(), ExplorerItemType::Directory);
}

#[test]
fn from_parts_without_extension_is_unknown() {
    let item = ExplorerItem::from_parts(
        "/proj/Makefile".to_string(),
        Some("Makefile".to_string()),
        None,
        false,
        false,
    )
    .unwrap();
    assert_eq!(item.kind(), ExplorerItemType::UnknownFile);
    let other = ExplorerItem::from_parts(
        "/proj/a.txt".to_string(),
        Some("a.txt".to_string()),
        Some("txt".to_string()),
        false,
        false,
    )
    .unwrap();
    assert_eq!(other.kind(), ExplorerItemType::UnknownFile);
}

#[test]
fn from_parts_without_name_fails() {
    let made = ExplorerItem::from_parts(
        "/".to_string(),
        None,
        Some("toml".to_string()),
        true,
        false,
    );
    assert_eq!(made.unwrap_err(), ExplorerItemError::WrongFileName);
}

#[test]
fn selected_flag_is_kept() {
    let item = ExplorerItem::new("/proj/a.toml".to_string(), false, true).unwrap();
    assert!(item.is_selected());
}

#[test]
fn idle_row_has_no_fill() {
    let item = file("/proj/a.toml");
    assert_eq!(item.visual_state(false), VisualState::Idle);
    assert!(!VisualState::Idle.highlighted());
}

#[test]
fn hovered_row_is_highlighted() {
    let item = file("/proj/a.toml");
    assert_eq!(item.visual_state(true), VisualState::Hovered);
    assert!(VisualState::Hovered.highlighted());
}

#[test]
fn selected_row_is_highlighted_with_or_without_pointer() {
    let item = ExplorerItem::new("/proj/a.toml".to_string(), false, true).unwrap();
    assert_eq!(item.visual_state(false), VisualState::Selected);
    assert_eq!(item.visual_state(true), VisualState::Selected);
    assert!(VisualState::Selected.highlighted());
}

#[test]
fn click_on_an_unselected_row_is_reported() {
    let item = file("/proj/a.toml");
    assert_eq!(item.click_event(true), Some("/proj/a.toml".to_string()));
}

#[test]
fn no_click_reports_nothing() {
    let item = file("/proj/a.toml");
    assert_eq!(item.click_event(false), None);
}

#[test]
fn click_on_a_selected_row_reports_nothing() {
    let item = ExplorerItem::new("/proj/a.toml".to_string(), false, true).unwrap();
    assert_eq!(item.click_event(true), None);
    assert_eq!(item.click_event(false), None);
}
