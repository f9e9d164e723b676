use rnote_ui::file::FileRef;
use rnote_ui::input::{drop_action, finish_drop, settle_engine_config_import, DropAction, DroppedValue};
use rnote_ui::monitor::{is_goutputstream_file, FileMonitorEvent, MonitorAction, MonitorReaction};
use rnote_ui::property::CanvasProperty;
use rnote_ui::state::CanvasState;
use rnote_ui::text::{starts_with, str_equal};
use rnote_ui::title::{doc_folderpath_display, doc_title_display, file_stem, unsaved_changes_icon, DocLabel};

fn file(uri: &str, basename: Option<&str>, parent: Option<&str>) -> FileRef {
    FileRef {
        uri: uri.to_string(),
        basename: basename.map(|b| b.to_string()),
        parent_path: parent.map(|p| p.to_string()),
    }
}

fn canvas_with_file(saved: Option<i64>) -> CanvasState {
    let mut s = CanvasState::new();
    let _ = s.set_output_file(Some(file("file:///d/a.rnote", Some("a.rnote"), Some("/d"))), saved);
    s
}

fn name(s: &str) -> Option<String> {
    Some(s.to_string())
}

#[test]
fn expected_write_is_absorbed_once() {
    let mut s = canvas_with_file(Some(10));
    s.set_output_file_expect_write(true);
    let out = s.handle_output_file_event(FileMonitorEvent::Changed, &name("a.rnote"), Some(99), None, None);
    assert_eq!(out.reaction, MonitorReaction::OwnWrite);
    assert!(out.effects.notify.is_empty());
    assert!(!s.output_file_expect_write());
    assert!(!s.unsaved_changes());
    let out = s.handle_output_file_event(FileMonitorEvent::Changed, &name("a.rnote"), Some(99), None, None);
    assert_eq!(out.reaction, MonitorReaction::OfferReload);
    assert_eq!(out.effects.notify, vec![CanvasProperty::UnsavedChanges]);
    assert!(s.unsaved_changes());
}

#[test]
fn expected_write_absorbs_rename_and_delete() {
    for ev in [FileMonitorEvent::Renamed, FileMonitorEvent::Deleted, FileMonitorEvent::MovedOut] {
        let mut s = canvas_with_file(None);
        s.set_output_file_expect_write(true);
        let out = s.handle_output_file_event(ev, &name("a.rnote"), None, None, None);
        assert_eq!(out.reaction, MonitorReaction::OwnWrite);
        assert!(s.output_file().is_some());
        assert!(!s.output_file_expect_write());
    }
}

#[test]
fn other_event_keeps_expectation() {
    let mut s = canvas_with_file(None);
    s.set_output_file_expect_write(true);
    let out = s.handle_output_file_event(FileMonitorEvent::Other, &name("a.rnote"), None, None, None);
    assert_eq!(out.reaction, MonitorReaction::Ignore);
    assert!(s.output_file_expect_write());
}

#[test]
fn unmodified_change_is_ignored() {
    let mut s = canvas_with_file(Some(1234));
    let out = s.handle_output_file_event(FileMonitorEvent::Changed, &name("a.rnote"), Some(1234), None, None);
    assert_eq!(out.reaction, MonitorReaction::Ignore);
    assert!(!s.unsaved_changes());
}

#[test]
fn change_with_unknown_time_offers_reload() {
    let mut s = canvas_with_file(None);
    let out = s.handle_output_file_event(FileMonitorEvent::Changed, &name("a.rnote"), Some(5), None, None);
    assert_eq!(out.reaction, MonitorReaction::OfferReload);
    let mut s = canvas_with_file(Some(5));
    let out = s.handle_output_file_event(FileMonitorEvent::Changed, &name("a.rnote"), None, None, None);
    assert_eq!(out.reaction, MonitorReaction::OfferReload);
    assert!(s.unsaved_changes());
}

#[test]
fn goutputstream_rename_offers_reload() {
    let mut s = canvas_with_file(Some(1));
    let out = s.handle_output_file_event(
        FileMonitorEvent::Renamed,
        &name(".goutputstream-ABC123"),
        None,
        Some(file("file:///d/a.rnote", Some("a.rnote"), Some("/d"))),
        Some(2),
    );
    assert_eq!(out.reaction, MonitorReaction::OfferReload);
    assert!(s.unsaved_changes());
    assert_eq!(s.output_file().unwrap().uri, "file:///d/a.rnote");
    assert_eq!(s.output_file_saved_modified_date_time(), Some(1));
}

#[test]
fn rename_moves_output_file() {
    let mut s = canvas_with_file(Some(1));
    let out = s.handle_output_file_event(
        FileMonitorEvent::Renamed,
        &name("a.rnote"),
        None,
        Some(file("file:///d/b.rnote", Some("b.rnote"), Some("/d"))),
        Some(8),
    );
    assert_eq!(out.reaction, MonitorReaction::Renamed);
    assert_eq!(out.effects.notify, vec![CanvasProperty::OutputFile]);
    assert!(!s.unsaved_changes());
    assert_eq!(s.output_file().unwrap().uri, "file:///d/b.rnote");
    assert_eq!(s.output_file_saved_modified_date_time(), Some(8));
}

#[test]
fn rename_without_new_file_loses_it() {
    let mut s = canvas_with_file(Some(1));
    let out = s.handle_output_file_event(FileMonitorEvent::Renamed, &name("a.rnote"), None, None, Some(8));
    assert_eq!(out.reaction, MonitorReaction::Renamed);
    assert_eq!(out.effects.notify, vec![CanvasProperty::UnsavedChanges, CanvasProperty::OutputFile]);
    assert!(s.unsaved_changes());
    assert!(s.output_file().is_none());
    assert_eq!(s.output_file_saved_modified_date_time(), None);
}

#[test]
fn deleted_or_moved_out_loses_file() {
    for ev in [FileMonitorEvent::Deleted, FileMonitorEvent::MovedOut] {
        let mut s = canvas_with_file(Some(1));
        let out = s.handle_output_file_event(ev, &name("a.rnote"), None, None, None);
        assert_eq!(out.reaction, MonitorReaction::MovedOrDeleted);
        assert_eq!(out.effects.notify, vec![CanvasProperty::UnsavedChanges, CanvasProperty::OutputFile]);
        assert!(s.unsaved_changes());
        assert!(s.output_file().is_none());
    }
    let mut s = canvas_with_file(Some(1));
    let _ = s.set_unsaved_changes(true);
    let out = s.handle_output_file_event(FileMonitorEvent::Deleted, &name("a.rnote"), None, None, None);
    assert_eq!(out.effects.notify, vec![CanvasProperty::OutputFile]);
}

#[test]
fn goutputstream_names() {
    assert!(is_goutputstream_file(&name(".goutputstream-XYZ")));
    assert!(is_goutputstream_file(&name(".goutputstream-")));
    assert!(!is_goutputstream_file(&name(".goutputstream")));
    assert!(!is_goutputstream_file(&name("a.goutputstream-1")));
    assert!(!is_goutputstream_file(&None));
}

#[test]
fn title_is_file_stem() {
    let t = |b: &str| doc_title_display(&Some(file("u", Some(b), None)));
    assert!(matches!(t("drawing.rnote"), DocLabel::Text(s) if s == "drawing"));
    assert!(matches!(t("archive.tar.gz"), DocLabel::Text(s) if s == "archive.tar"));
    assert!(matches!(t(".hidden"), DocLabel::Text(s) if s == ".hidden"));
    assert!(matches!(t(".hidden.rnote"), DocLabel::Text(s) if s == ".hidden"));
    assert!(matches!(t("noext"), DocLabel::Text(s) if s == "noext"));
    assert!(matches!(t("trailing."), DocLabel::Text(s) if s == "trailing"));
    assert!(matches!(t("/"), DocLabel::InvalidFileName));
    assert!(matches!(t("."), DocLabel::InvalidFileName));
    assert!(matches!(t(".."), DocLabel::InvalidFileName));
    assert!(matches!(t(""), DocLabel::InvalidFileName));
    assert!(matches!(t("10:30 notes.rnote"), DocLabel::Text(s) if s == "10:30 notes"));
}

#[test]
fn title_fallbacks() {
    assert!(matches!(doc_title_display(&None), DocLabel::NewDocument));
    assert!(matches!(doc_title_display(&Some(file("u", None, None))), DocLabel::InvalidFileName));
}

#[test]
fn file_stem_direct() {
    assert_eq!(file_stem("notes.rnote"), Some("notes".to_string()));
    assert_eq!(file_stem(".."), None);
    assert_eq!(file_stem("."), None);
    assert_eq!(file_stem(""), None);
    assert_eq!(file_stem("/"), None);
}

#[test]
fn folder_path_display() {
    assert!(matches!(doc_folderpath_display(&None), DocLabel::Draft));
    assert!(matches!(doc_folderpath_display(&Some(file("u", Some("a"), None))), DocLabel::InvalidFolderPath));
    assert!(matches!(
        doc_folderpath_display(&Some(file("u", Some("a"), Some("/home/u/Docs")))),
        DocLabel::Text(p) if p == "/home/u/Docs"
    ));
}

#[test]
fn tab_icon() {
    assert_eq!(unsaved_changes_icon(true), Some("dot-symbolic".to_string()));
    assert_eq!(unsaved_changes_icon(false), None);
}

#[test]
fn engine_config_import_outcomes() {
    let ok: Result<u32, &str> = Ok(7);
    assert_eq!(settle_engine_config_import(ok, "{}"), Ok(Some(7)));
    let first_start: Result<u32, &str> = Err("parse error");
    assert_eq!(settle_engine_config_import(first_start, ""), Ok(None));
    let broken: Result<u32, &str> = Err("parse error");
    assert_eq!(settle_engine_config_import(broken, "{\"x\":1}"), Err("parse error"));
}

#[test]
fn drop_decisions() {
    assert_eq!(drop_action(DroppedValue::File { readable: true }), DropAction::OpenFile);
    assert_eq!(drop_action(DroppedValue::File { readable: false }), DropAction::ReportFileError);
    assert_eq!(drop_action(DroppedValue::Text), DropAction::InsertText);
    assert_eq!(drop_action(DroppedValue::Other), DropAction::Reject);
    assert_eq!(finish_drop(DropAction::OpenFile, false), (true, false));
    assert_eq!(finish_drop(DropAction::InsertText, true), (true, false));
    assert_eq!(finish_drop(DropAction::InsertText, false), (false, true));
    assert_eq!(finish_drop(DropAction::ReportFileError, true), (false, false));
    assert_eq!(finish_drop(DropAction::Reject, true), (false, false));
}

#[test]
fn text_helpers() {
    assert!(str_equal("abc", "abc"));
    assert!(!str_equal("abc", "abd"));
    assert!(!str_equal("abc", "ab"));
    assert!(str_equal("", ""));
    assert!(str_equal("ü€", "ü€"));
    assert!(starts_with("hello", "he"));
    assert!(starts_with("hello", ""));
    assert!(!starts_with("he", "hello"));
    assert!(!starts_with("hello", "hx"));
}

#[test]
fn monitor_actions_follow_output_file() {
    let mut s = CanvasState::new();
    assert_eq!(s.monitor_action_on_output_file_change(), MonitorAction::ClearAndDismissToast);
    assert_eq!(s.monitor_action_on_reinstall(), MonitorAction::Clear);
    let _ = s.set_output_file(Some(file("file:///d/a.rnote", Some("a.rnote"), Some("/d"))), None);
    assert_eq!(s.monitor_action_on_output_file_change(), MonitorAction::Install);
    assert_eq!(s.monitor_action_on_reinstall(), MonitorAction::Install);
}

#[test]
fn saved_time_survives_other_operations() {
    let mut s = canvas_with_file(Some(77));
    let _ = s.set_empty(false);
    let _ = s.set_unsaved_changes(true);
    let _ = s.set_empty(true);
    let _ = s.enable_drawing_cursor(true);
    let _ = s.handle_output_file_event(FileMonitorEvent::Changed, &name("a.rnote"), Some(90), None, None);
    assert_eq!(s.output_file_saved_modified_date_time(), Some(77));
}

#[test]
fn saved_time_survives_absorbed_and_temporary_renames() {
    let mut s = canvas_with_file(Some(55));
    s.set_output_file_expect_write(true);
    let _ = s.handle_output_file_event(FileMonitorEvent::Renamed, &name("a.rnote"), None, None, None);
    let _ = s.handle_output_file_event(FileMonitorEvent::Renamed, &name(".goutputstream-Q1"), None, None, None);
    assert_eq!(s.output_file().unwrap().uri, "file:///d/a.rnote");
    assert_eq!(s.output_file_saved_modified_date_time(), Some(55));
}
