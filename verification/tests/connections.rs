use rnote_ui::connections::{AppwindowConnections, Connections, OutputFileMonitor, TabPageConnections};

fn appwindow(base: u32) -> AppwindowConnections<u32, String> {
    AppwindowConnections {
        output_file: base,
        scalefactor: base + 1,
        unsaved_changes: base + 2,
        touch_drawing: format!("touch{base}"),
        show_drawing_cursor: format!("show{base}"),
        regular_cursor: format!("regular{base}"),
        drawing_cursor: format!("drawing{base}"),
        drop_target: base + 3,
        handle_widget_flags: base + 4,
    }
}

#[test]
fn reconnect_hands_back_old_connections() {
    let mut c: Connections<u32, String> = Connections::new();
    let first = c.replace_appwindow(appwindow(10));
    assert_eq!(first.output_file, None);
    assert_eq!(first.touch_drawing, None);
    let second = c.replace_appwindow(appwindow(20));
    assert_eq!(second.output_file, Some(10));
    assert_eq!(second.scalefactor, Some(11));
    assert_eq!(second.unsaved_changes, Some(12));
    assert_eq!(second.drop_target, Some(13));
    assert_eq!(second.handle_widget_flags, Some(14));
    assert_eq!(second.touch_drawing.as_deref(), Some("touch10"));
    assert_eq!(second.show_drawing_cursor.as_deref(), Some("show10"));
    assert_eq!(second.regular_cursor.as_deref(), Some("regular10"));
    assert_eq!(second.drawing_cursor.as_deref(), Some("drawing10"));
    assert_eq!(c.appwindow.output_file, Some(20));
}

#[test]
fn disconnect_takes_everything_but_adjustments() {
    let mut c: Connections<u32, String> = Connections::new();
    let _ = c.replace_hadjustment(Some(1));
    let _ = c.replace_vadjustment(Some(2));
    let _ = c.replace_appwindow(appwindow(10));
    let _ = c.replace_tab_page(TabPageConnections { output_file: "title".to_string(), unsaved_changes: "icon".to_string() });
    let (aw, tab) = c.take_external();
    assert_eq!(aw.output_file, Some(10));
    assert_eq!(aw.drawing_cursor.as_deref(), Some("drawing10"));
    assert_eq!(tab.output_file.as_deref(), Some("title"));
    assert_eq!(tab.unsaved_changes.as_deref(), Some("icon"));
    assert_eq!(c.appwindow.output_file, None);
    assert_eq!(c.appwindow.handle_widget_flags, None);
    assert_eq!(c.tab_page.output_file, None);
    assert_eq!(c.hadjustment, Some(1));
    assert_eq!(c.vadjustment, Some(2));
    let (aw, tab) = c.take_external();
    assert_eq!(aw.scalefactor, None);
    assert_eq!(tab.unsaved_changes, None);
}

#[test]
fn tab_page_rebinding() {
    let mut c: Connections<u32, &str> = Connections::new();
    let old = c.replace_tab_page(TabPageConnections { output_file: "a", unsaved_changes: "b" });
    assert_eq!(old.output_file, None);
    let old = c.replace_tab_page(TabPageConnections { output_file: "c", unsaved_changes: "d" });
    assert_eq!(old.output_file, Some("a"));
    assert_eq!(old.unsaved_changes, Some("b"));
    assert_eq!(c.tab_page.output_file, Some("c"));
}

#[test]
fn adjustment_handlers() {
    let mut c: Connections<u32, &str> = Connections::new();
    assert_eq!(c.replace_hadjustment(Some(5)), None);
    assert_eq!(c.replace_hadjustment(None), Some(5));
    assert_eq!(c.hadjustment, None);
    assert_eq!(c.replace_vadjustment(Some(6)), None);
    assert_eq!(c.replace_vadjustment(Some(7)), Some(6));
    assert_eq!(c.vadjustment, Some(7));
}

#[test]
fn monitor_install_and_clear() {
    let mut m: OutputFileMonitor<&str, u32> = OutputFileMonitor::new();
    let r = m.install("m1", 1);
    assert_eq!(r.cancel, None);
    assert_eq!(r.disconnect, None);
    assert_eq!(m.monitor, Some("m1"));
    // without an old monitor the first handler is not kept
    assert_eq!(m.handler, None);
    let r = m.install("m2", 2);
    assert_eq!(r.cancel, Some("m1"));
    assert_eq!(r.disconnect, None);
    assert_eq!(m.handler, Some(2));
    let r = m.install("m3", 3);
    assert_eq!(r.cancel, Some("m2"));
    assert_eq!(r.disconnect, Some(2));
    let r = m.clear();
    assert_eq!(r.cancel, Some("m3"));
    assert_eq!(r.disconnect, Some(3));
    assert_eq!(m.monitor, None);
    assert_eq!(m.handler, None);
    let r = m.clear();
    assert_eq!(r.cancel, None);
    assert_eq!(r.disconnect, None);
}
