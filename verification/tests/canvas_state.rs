use rnote_ui::cursor::{cursor_resource_path, select_cursor, CursorKind};
use rnote_ui::file::FileRef;
use rnote_ui::property::{CanvasProperty, PropertyDefault};
use rnote_ui::state::{CanvasState, PropertyEffects, PropertyValue, ScrollPolicy};

const APP_IDPATH: &str = "/com/github/flxzt/rnote/";

fn file(uri: &str, basename: Option<&str>, parent: Option<&str>) -> FileRef {
    FileRef {
        uri: uri.to_string(),
        basename: basename.map(|b| b.to_string()),
        parent_path: parent.map(|p| p.to_string()),
    }
}

fn is_silent(e: &PropertyEffects) -> bool {
    e.notify.is_empty() && e.load_cursor.is_none() && e.apply_cursor.is_none()
}

#[test]
fn new_canvas_defaults() {
    let s = CanvasState::new();
    assert!(s.empty());
    assert!(!s.unsaved_changes());
    assert!(!s.touch_drawing());
    assert!(!s.show_drawing_cursor());
    assert!(!s.output_file_expect_write());
    assert!(!s.save_in_progress());
    assert!(s.output_file().is_none());
    assert!(s.last_export_dir().is_none());
    assert_eq!(s.output_file_saved_modified_date_time(), None);
    assert_eq!(s.regular_cursor(), "cursor-dot-medium");
    assert_eq!(s.drawing_cursor(), "cursor-dot-small");
    assert_eq!(s.current_cursor(), CursorKind::Regular);
}

#[test]
fn unsaved_changes_announced_only_on_change() {
    let mut s = CanvasState::new();
    let e = s.set_unsaved_changes(true);
    assert_eq!(e.notify, vec![CanvasProperty::UnsavedChanges]);
    assert!(s.unsaved_changes());
    let e = s.set_unsaved_changes(true);
    assert!(is_silent(&e));
    assert!(s.unsaved_changes());
    let e = s.set_unsaved_changes(false);
    assert_eq!(e.notify, vec![CanvasProperty::UnsavedChanges]);
    assert!(!s.unsaved_changes());
}

#[test]
fn set_property_always_announces() {
    let mut s = CanvasState::new();
    let e = s.set_property(APP_IDPATH, PropertyValue::UnsavedChanges(false));
    assert_eq!(e.notify, vec![CanvasProperty::UnsavedChanges]);
    let e = s.set_property(APP_IDPATH, PropertyValue::Empty(true));
    assert_eq!(e.notify, vec![CanvasProperty::Empty]);
}

#[test]
fn empty_clears_unsaved_changes() {
    let mut s = CanvasState::new();
    let _ = s.set_empty(false);
    let _ = s.set_unsaved_changes(true);
    let e = s.set_empty(true);
    assert_eq!(e.notify, vec![CanvasProperty::Empty, CanvasProperty::UnsavedChanges]);
    assert!(s.empty());
    assert!(!s.unsaved_changes());
}

#[test]
fn empty_unchanged_is_silent_and_false_keeps_unsaved() {
    let mut s = CanvasState::new();
    let e = s.set_empty(true);
    assert!(is_silent(&e));
    let _ = s.set_unsaved_changes(true);
    let e = s.set_empty(false);
    assert_eq!(e.notify, vec![CanvasProperty::Empty]);
    assert!(!s.empty());
    assert!(s.unsaved_changes());
}

#[test]
fn touch_drawing_setter() {
    let mut s = CanvasState::new();
    let e = s.set_touch_drawing(true);
    assert_eq!(e.notify, vec![CanvasProperty::TouchDrawing]);
    assert!(s.touch_drawing());
    assert!(is_silent(&s.set_touch_drawing(true)));
}

#[test]
fn drawing_cursor_switching() {
    let mut s = CanvasState::new();
    assert_eq!(s.enable_drawing_cursor(false), None);
    assert_eq!(s.enable_drawing_cursor(true), Some(CursorKind::Invisible));
    assert_eq!(s.current_cursor(), CursorKind::Invisible);
    assert_eq!(s.enable_drawing_cursor(true), None);
    let e = s.set_show_drawing_cursor(true);
    assert_eq!(e.notify, vec![CanvasProperty::ShowDrawingCursor]);
    assert_eq!(e.apply_cursor, Some(CursorKind::Drawing));
    assert_eq!(s.current_cursor(), CursorKind::Drawing);
    assert_eq!(s.enable_drawing_cursor(false), Some(CursorKind::Regular));
    assert_eq!(s.current_cursor(), CursorKind::Regular);
    let e = s.set_show_drawing_cursor(false);
    assert_eq!(e.apply_cursor, Some(CursorKind::Regular));
}

#[test]
fn select_cursor_table() {
    assert_eq!(select_cursor(false, false), CursorKind::Regular);
    assert_eq!(select_cursor(false, true), CursorKind::Regular);
    assert_eq!(select_cursor(true, false), CursorKind::Invisible);
    assert_eq!(select_cursor(true, true), CursorKind::Drawing);
}

#[test]
fn regular_cursor_is_loaded_and_applied() {
    let mut s = CanvasState::new();
    let _ = s.set_show_drawing_cursor(true);
    let _ = s.enable_drawing_cursor(true);
    assert_eq!(s.current_cursor(), CursorKind::Drawing);
    let e = s.set_regular_cursor(APP_IDPATH, "cursor-crosshair-small");
    assert_eq!(e.notify, vec![CanvasProperty::RegularCursor]);
    assert_eq!(
        e.load_cursor,
        Some((
            CursorKind::Regular,
            "/com/github/flxzt/rnote/icons/scalable/actions/cursor-crosshair-small.svg".to_string()
        ))
    );
    assert_eq!(e.apply_cursor, Some(CursorKind::Regular));
    assert_eq!(s.current_cursor(), CursorKind::Regular);
    assert_eq!(s.regular_cursor(), "cursor-crosshair-small");
}

#[test]
fn drawing_cursor_is_loaded_not_applied() {
    let mut s = CanvasState::new();
    let e = s.set_drawing_cursor(APP_IDPATH, "cursor-dot-large");
    assert_eq!(e.notify, vec![CanvasProperty::DrawingCursor]);
    assert_eq!(
        e.load_cursor,
        Some((
            CursorKind::Drawing,
            "/com/github/flxzt/rnote/icons/scalable/actions/cursor-dot-large.svg".to_string()
        ))
    );
    assert_eq!(e.apply_cursor, None);
    assert_eq!(s.current_cursor(), CursorKind::Regular);
    assert_eq!(s.drawing_cursor(), "cursor-dot-large");
}

#[test]
fn cursor_resource_path_format() {
    assert_eq!(
        cursor_resource_path("/a/b/", "x"),
        "/a/b/icons/scalable/actions/x.svg"
    );
    assert_eq!(cursor_resource_path("", ""), "icons/scalable/actions/.svg");
}

#[test]
fn output_file_keeps_its_modification_time() {
    let mut s = CanvasState::new();
    let e = s.set_output_file(Some(file("file:///home/u/a.rnote", Some("a.rnote"), Some("/home/u"))), Some(42));
    assert_eq!(e.notify, vec![CanvasProperty::OutputFile]);
    let f = s.output_file().unwrap();
    assert_eq!(f.uri, "file:///home/u/a.rnote");
    assert_eq!(f.basename.as_deref(), Some("a.rnote"));
    assert_eq!(s.output_file_saved_modified_date_time(), Some(42));
    let _ = s.set_output_file(None, Some(7));
    assert!(s.output_file().is_none());
    assert_eq!(s.output_file_saved_modified_date_time(), None);
}

#[test]
fn plain_flags_and_export_dir() {
    let mut s = CanvasState::new();
    s.set_output_file_expect_write(true);
    assert!(s.output_file_expect_write());
    s.set_save_in_progress(true);
    assert!(s.save_in_progress());
    s.set_last_export_dir(Some(file("file:///tmp", Some("tmp"), Some("/"))));
    assert_eq!(s.last_export_dir().unwrap().uri, "file:///tmp");
}

#[test]
fn read_after_write_each_property() {
    let mut s = CanvasState::new();
    let _ = s.set_property(APP_IDPATH, PropertyValue::TouchDrawing(true));
    assert!(matches!(s.property(CanvasProperty::TouchDrawing), Some(PropertyValue::TouchDrawing(true))));
    let _ = s.set_property(APP_IDPATH, PropertyValue::HScrollPolicy(ScrollPolicy::Natural));
    assert!(matches!(
        s.property(CanvasProperty::HScrollPolicy),
        Some(PropertyValue::HScrollPolicy(ScrollPolicy::Natural))
    ));
    assert!(matches!(
        s.property(CanvasProperty::VScrollPolicy),
        Some(PropertyValue::VScrollPolicy(ScrollPolicy::Minimum))
    ));
    let _ = s.set_property(APP_IDPATH, PropertyValue::VScrollPolicy(ScrollPolicy::Natural));
    assert!(matches!(
        s.property(CanvasProperty::VScrollPolicy),
        Some(PropertyValue::VScrollPolicy(ScrollPolicy::Natural))
    ));
    let _ = s.set_property(APP_IDPATH, PropertyValue::RegularCursor("r".to_string()));
    match s.property(CanvasProperty::RegularCursor) {
        Some(PropertyValue::RegularCursor(n)) => assert_eq!(n, "r"),
        other => panic!("unexpected {:?}", other),
    }
    match s.property(CanvasProperty::DrawingCursor) {
        Some(PropertyValue::DrawingCursor(n)) => assert_eq!(n, "cursor-dot-small"),
        other => panic!("unexpected {:?}", other),
    }
    let _ = s.set_property(APP_IDPATH, PropertyValue::OutputFile(Some(file("u", None, None)), Some(3)));
    match s.property(CanvasProperty::OutputFile) {
        Some(PropertyValue::OutputFile(Some(f), Some(3))) => assert_eq!(f.uri, "u"),
        other => panic!("unexpected {:?}", other),
    }
    assert!(matches!(s.property(CanvasProperty::Empty), Some(PropertyValue::Empty(true))));
    assert!(matches!(s.property(CanvasProperty::UnsavedChanges), Some(PropertyValue::UnsavedChanges(false))));
    assert!(matches!(s.property(CanvasProperty::ShowDrawingCursor), Some(PropertyValue::ShowDrawingCursor(false))));
    assert!(s.property(CanvasProperty::HAdjustment).is_none());
    assert!(s.property(CanvasProperty::VAdjustment).is_none());
}

#[test]
fn property_names_round_trip() {
    for p in CanvasProperty::all() {
        assert_eq!(CanvasProperty::from_name(p.name()), Some(p));
    }
    assert_eq!(CanvasProperty::all().len(), 11);
    assert_eq!(CanvasProperty::OutputFile.name(), "output-file");
    assert_eq!(CanvasProperty::ShowDrawingCursor.name(), "show-drawing-cursor");
    assert_eq!(CanvasProperty::from_name("hscroll-policy"), Some(CanvasProperty::HScrollPolicy));
    assert_eq!(CanvasProperty::from_name("nonexistent"), None);
    assert_eq!(CanvasProperty::from_name(""), None);
    assert_eq!(CanvasProperty::from_name("empty "), None);
}

#[test]
fn declared_defaults() {
    assert!(matches!(CanvasProperty::UnsavedChanges.declared_default(), PropertyDefault::Bool(false)));
    assert!(matches!(CanvasProperty::Empty.declared_default(), PropertyDefault::Bool(true)));
    assert!(matches!(CanvasProperty::TouchDrawing.declared_default(), PropertyDefault::Bool(false)));
    assert!(matches!(CanvasProperty::ShowDrawingCursor.declared_default(), PropertyDefault::Bool(true)));
    assert!(matches!(CanvasProperty::RegularCursor.declared_default(), PropertyDefault::Str("cursor-dot-medium")));
    assert!(matches!(CanvasProperty::DrawingCursor.declared_default(), PropertyDefault::Str("cursor-dot-small")));
    assert!(matches!(CanvasProperty::OutputFile.declared_default(), PropertyDefault::Undeclared));
    assert!(matches!(CanvasProperty::VAdjustment.declared_default(), PropertyDefault::Undeclared));
}
