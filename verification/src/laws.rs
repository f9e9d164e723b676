use vstd::prelude::*;
use crate::cursor::{CursorKind, cursor_for, cursor_resource_spec, default_regular_cursor_spec, default_drawing_cursor_spec, invisible_cursor_spec};
use crate::input::{DroppedValue, DropAction, drop_action_spec};
use crate::state::ScrollPolicy;
use crate::title::{file_stem_spec, last_dot};
use crate::monitor::{FileMonitorEvent, MonitorReaction, is_goutputstream_spec, monitor_event_spec};
use crate::property::{CanvasProperty, property_name_spec};
use crate::state::{
    CanvasModel, PropertyValueModel, initial_model, no_effects, property_value_spec,
    set_property_spec, set_if_changed_spec, enable_drawing_cursor_spec,
};
use crate::file::FileRefView;
use crate::state::set_unsaved_changes_spec;

verus! {

/// The property a value is for.
pub open spec fn property_of(v: PropertyValueModel) -> CanvasProperty {
    match v {
        PropertyValueModel::OutputFile(_, _) => CanvasProperty::OutputFile,
        PropertyValueModel::UnsavedChanges(_) => CanvasProperty::UnsavedChanges,
        PropertyValueModel::Empty(_) => CanvasProperty::Empty,
        PropertyValueModel::TouchDrawing(_) => CanvasProperty::TouchDrawing,
        PropertyValueModel::ShowDrawingCursor(_) => CanvasProperty::ShowDrawingCursor,
        PropertyValueModel::RegularCursor(_) => CanvasProperty::RegularCursor,
        PropertyValueModel::DrawingCursor(_) => CanvasProperty::DrawingCursor,
        PropertyValueModel::HScrollPolicy(_) => CanvasProperty::HScrollPolicy,
        PropertyValueModel::VScrollPolicy(_) => CanvasProperty::VScrollPolicy,
    }
}

/// Reading a property right after setting it gives back the value written.
/// (An output file's modification time is kept only together with a file.)
pub proof fn law_read_after_write(m: CanvasModel, app_idpath: Seq<char>, v: PropertyValueModel)
    requires
        v matches PropertyValueModel::OutputFile(f, t) ==> (f is None ==> t is None),
    ensures
        property_value_spec(set_property_spec(m, app_idpath, v).0, property_of(v)) == Some(v),
{
}

/// Setting a property announces it, first among the announcements.
pub proof fn law_set_property_announces(m: CanvasModel, app_idpath: Seq<char>, v: PropertyValueModel)
    ensures
        set_property_spec(m, app_idpath, v).1.notify.len() >= 1,
        set_property_spec(m, app_idpath, v).1.notify[0] == property_of(v),
{
}

/// A setter that checks for a change announces nothing and changes nothing
/// when the value is already set, so setting the same value twice is the
/// same as setting it once.
pub proof fn law_unchanged_value_is_silent(m: CanvasModel, v: PropertyValueModel)
    ensures
        set_if_changed_spec(m, false, v) == (m, no_effects()),
{
}

/// The properties other than the one set keep their values, except that
/// setting `empty` may clear `unsaved-changes`.
pub proof fn law_set_property_frames(
    m: CanvasModel,
    app_idpath: Seq<char>,
    v: PropertyValueModel,
    p: CanvasProperty,
)
    requires
        p != property_of(v),
        !(property_of(v) == CanvasProperty::Empty && p == CanvasProperty::UnsavedChanges),
    ensures
        property_value_spec(set_property_spec(m, app_idpath, v).0, p) == property_value_spec(m, p),
{
}

/// An empty document has no unsaved changes: setting `empty` to true clears
/// them, and announces that only when there were some.
pub proof fn law_empty_clears_unsaved_changes(m: CanvasModel, app_idpath: Seq<char>)
    ensures
        set_property_spec(m, app_idpath, PropertyValueModel::Empty(true)).0.empty,
        !set_property_spec(m, app_idpath, PropertyValueModel::Empty(true)).0.unsaved_changes,
        set_property_spec(m, app_idpath, PropertyValueModel::Empty(true)).1.notify
            =~= if m.unsaved_changes {
            seq![CanvasProperty::Empty, CanvasProperty::UnsavedChanges]
        } else {
            seq![CanvasProperty::Empty]
        },
{
}

/// Whether the cursor on the widget is the one that fits the drawing state.
pub open spec fn cursor_consistent(m: CanvasModel) -> bool {
    m.cursor == cursor_for(m.drawing_cursor_enabled, m.show_drawing_cursor)
}

/// Switching the drawing state, and setting whether the drawing cursor is
/// shown, keep the cursor on the widget fitting the drawing state.
pub proof fn law_cursor_follows_drawing_state(m: CanvasModel, drawing: bool, show: bool)
    requires
        cursor_consistent(m),
    ensures
        cursor_consistent(enable_drawing_cursor_spec(m, drawing).0),
        cursor_consistent(set_property_spec(m, Seq::empty(), PropertyValueModel::ShowDrawingCursor(show)).0),
{
}

/// Switching to the drawing state a second time does nothing.
pub proof fn law_enable_drawing_cursor_idempotent(m: CanvasModel, drawing: bool)
    ensures
        enable_drawing_cursor_spec(enable_drawing_cursor_spec(m, drawing).0, drawing)
            == (enable_drawing_cursor_spec(m, drawing).0, None::<CursorKind>),
{
}

/// Setting the regular cursor puts it on the widget, whatever the drawing state.
pub proof fn law_regular_cursor_is_applied(m: CanvasModel, app_idpath: Seq<char>, name: Seq<char>)
    ensures
        set_property_spec(m, app_idpath, PropertyValueModel::RegularCursor(name)).0.cursor
            == CursorKind::Regular,
        set_property_spec(m, app_idpath, PropertyValueModel::DrawingCursor(name)).0.cursor
            == m.cursor,
{
}

/// A new canvas is empty, has no output file and no unsaved changes, and
/// shows the regular cursor, which fits its drawing state.
pub proof fn law_new_canvas()
    ensures
        initial_model().empty,
        !initial_model().unsaved_changes,
        initial_model().output_file is None,
        cursor_consistent(initial_model()),
{
}

/// While a write of its own is expected, a handled event of the output file's
/// monitor only clears the expectation; other events are ignored and leave it.
pub proof fn law_expected_write_is_absorbed(
    m: CanvasModel,
    event: FileMonitorEvent,
    file_basename: Option<Seq<char>>,
    changed_modified: Option<i64>,
    other_file: Option<FileRefView>,
    other_modified: Option<i64>,
)
    requires
        m.output_file_expect_write,
    ensures
        event != FileMonitorEvent::Other ==> monitor_event_spec(
            m,
            event,
            file_basename,
            changed_modified,
            other_file,
            other_modified,
        ) == (CanvasModel { output_file_expect_write: false, ..m }, MonitorReaction::OwnWrite, no_effects()),
        event == FileMonitorEvent::Other ==> monitor_event_spec(
            m,
            event,
            file_basename,
            changed_modified,
            other_file,
            other_modified,
        ) == (m, MonitorReaction::Ignore, no_effects()),
{
}

/// When the output file is moved away or deleted (and no own write is
/// expected), the canvas has no output file and has unsaved changes.
pub proof fn law_lost_file_leaves_unsaved_changes(
    m: CanvasModel,
    event: FileMonitorEvent,
    file_basename: Option<Seq<char>>,
    changed_modified: Option<i64>,
    other_file: Option<FileRefView>,
    other_modified: Option<i64>,
)
    requires
        !m.output_file_expect_write,
        event == FileMonitorEvent::Deleted || event == FileMonitorEvent::MovedOut,
    ensures
        ({
            let (m1, r, e) = monitor_event_spec(m, event, file_basename, changed_modified, other_file, other_modified);
            &&& m1.output_file is None
            &&& m1.output_file_saved_modified is None
            &&& m1.unsaved_changes
            &&& r == MonitorReaction::MovedOrDeleted
            &&& e.notify[e.notify.len() - 1] == CanvasProperty::OutputFile
        }),
{
}

/// A `Changed` event that leaves the file's modification time as the app
/// saved it changes nothing: the file is the one the app wrote.
pub proof fn law_unmodified_change_is_ignored(
    m: CanvasModel,
    file_basename: Option<Seq<char>>,
    t: i64,
    other_file: Option<FileRefView>,
    other_modified: Option<i64>,
)
    requires
        !m.output_file_expect_write,
        m.output_file_saved_modified == Some(t),
    ensures
        monitor_event_spec(m, FileMonitorEvent::Changed, file_basename, Some(t), other_file, other_modified)
            == (m, MonitorReaction::Ignore, no_effects()),
{
}

/// A real change on disk marks the document as having unsaved changes and
/// offers to reload it; the output file stays.
pub proof fn law_modified_file_offers_reload(
    m: CanvasModel,
    file_basename: Option<Seq<char>>,
    changed_modified: Option<i64>,
    other_file: Option<FileRefView>,
    other_modified: Option<i64>,
)
    requires
        !m.output_file_expect_write,
        !(m.output_file_saved_modified is Some && m.output_file_saved_modified == changed_modified),
    ensures
        ({
            let (m1, r, e) = monitor_event_spec(m, FileMonitorEvent::Changed, file_basename, changed_modified, other_file, other_modified);
            &&& m1.unsaved_changes
            &&& m1.output_file == m.output_file
            &&& r == MonitorReaction::OfferReload
        }),
{
}

/// Each property has its own name, so a name identifies its property.
pub proof fn law_property_names_distinct(p: CanvasProperty, q: CanvasProperty)
    requires
        property_name_spec(p) == property_name_spec(q),
    ensures
        p == q,
{
    reveal_strlit("output-file");
    reveal_strlit("unsaved-changes");
    reveal_strlit("empty");
    reveal_strlit("touch-drawing");
    reveal_strlit("show-drawing-cursor");
    reveal_strlit("regular-cursor");
    reveal_strlit("drawing-cursor");
    reveal_strlit("hscroll-policy");
    reveal_strlit("vscroll-policy");
    reveal_strlit("hadjustment");
    reveal_strlit("vadjustment");
    if p != q {
        assert(property_name_spec(p).len() != property_name_spec(q).len()
            || exists|i: int| 0 <= i < property_name_spec(p).len()
                && property_name_spec(p)[i] != property_name_spec(q)[i]) by {
            let a = property_name_spec(p);
            let b = property_name_spec(q);
            if a.len() == b.len() {
                assert(a[0] != b[0] || a[1] != b[1] || a[2] != b[2] || a[4] != b[4]);
                if a[0] != b[0] {
                } else if a[1] != b[1] {
                    assert(a[1] != b[1]);
                } else if a[2] != b[2] {
                    assert(a[2] != b[2]);
                } else {
                    assert(a[4] != b[4]);
                }
            }
        }
    }
}

/// One operation on a canvas's state, as the methods of `CanvasState` perform
/// them; each is described by the contract of its method.
pub enum CanvasOp {
    /// `set_property(app_idpath, value)`.
    SetProperty(Seq<char>, PropertyValueModel),
    SetUnsavedChanges(bool),
    SetEmpty(bool),
    SetTouchDrawing(bool),
    SetShowDrawingCursor(bool),
    /// `set_regular_cursor(app_idpath, name)`.
    SetRegularCursor(Seq<char>, Seq<char>),
    /// `set_drawing_cursor(app_idpath, name)`.
    SetDrawingCursor(Seq<char>, Seq<char>),
    /// `set_output_file(file, modified)`.
    SetOutputFile(Option<FileRefView>, Option<i64>),
    SetOutputFileExpectWrite(bool),
    SetSaveInProgress(bool),
    SetLastExportDir(Option<FileRefView>),
    EnableDrawingCursor(bool),
    /// `handle_output_file_event(event, file_basename, changed_modified, other_file, other_modified)`.
    OutputFileEvent(FileMonitorEvent, Option<Seq<char>>, Option<i64>, Option<FileRefView>, Option<i64>),
}

/// The state after one operation.
pub open spec fn step(m: CanvasModel, op: CanvasOp) -> CanvasModel {
    match op {
        CanvasOp::SetProperty(app, v) => set_property_spec(m, app, v).0,
        CanvasOp::SetUnsavedChanges(b) => set_if_changed_spec(
            m,
            m.unsaved_changes != b,
            PropertyValueModel::UnsavedChanges(b),
        ).0,
        CanvasOp::SetEmpty(b) => set_if_changed_spec(m, m.empty != b, PropertyValueModel::Empty(b)).0,
        CanvasOp::SetTouchDrawing(b) => set_if_changed_spec(
            m,
            m.touch_drawing != b,
            PropertyValueModel::TouchDrawing(b),
        ).0,
        CanvasOp::SetShowDrawingCursor(b) => set_if_changed_spec(
            m,
            m.show_drawing_cursor != b,
            PropertyValueModel::ShowDrawingCursor(b),
        ).0,
        CanvasOp::SetRegularCursor(app, name) => set_property_spec(
            m,
            app,
            PropertyValueModel::RegularCursor(name),
        ).0,
        CanvasOp::SetDrawingCursor(app, name) => set_property_spec(
            m,
            app,
            PropertyValueModel::DrawingCursor(name),
        ).0,
        CanvasOp::SetOutputFile(f, t) => set_property_spec(
            m,
            Seq::empty(),
            PropertyValueModel::OutputFile(f, t),
        ).0,
        CanvasOp::SetOutputFileExpectWrite(b) => CanvasModel { output_file_expect_write: b, ..m },
        CanvasOp::SetSaveInProgress(b) => CanvasModel { save_in_progress: b, ..m },
        CanvasOp::SetLastExportDir(d) => CanvasModel { last_export_dir: d, ..m },
        CanvasOp::EnableDrawingCursor(b) => enable_drawing_cursor_spec(m, b).0,
        CanvasOp::OutputFileEvent(ev, name, t, other, other_t) => monitor_event_spec(
            m,
            ev,
            name,
            t,
            other,
            other_t,
        ).0,
    }
}

/// The state after a sequence of operations, applied first to last.
pub open spec fn run(m: CanvasModel, ops: Seq<CanvasOp>) -> CanvasModel
    decreases ops.len(),
{
    if ops.len() == 0 {
        m
    } else {
        step(run(m, ops.drop_last()), ops.last())
    }
}

/// Whether an operation sets the regular cursor, which puts it on the widget
/// whatever the drawing state.
pub open spec fn sets_regular_cursor(op: CanvasOp) -> bool {
    match op {
        CanvasOp::SetRegularCursor(_, _) => true,
        CanvasOp::SetProperty(_, v) => v is RegularCursor,
        _ => false,
    }
}

/// Whether an operation, done on a canvas in state `m`, sets the output file:
/// the output-file setters always do; an event of the file's monitor does when
/// it is not absorbed as the app's own write and is a rename (other than the
/// replacement through a gio temporary file), a deletion or a move away.
pub open spec fn sets_output_file(m: CanvasModel, op: CanvasOp) -> bool {
    match op {
        CanvasOp::SetOutputFile(_, _) => true,
        CanvasOp::SetProperty(_, v) => v is OutputFile,
        CanvasOp::OutputFileEvent(ev, name, _, _, _) => !m.output_file_expect_write && (
            (ev == FileMonitorEvent::Renamed && !is_goutputstream_spec(name))
            || ev == FileMonitorEvent::Deleted || ev == FileMonitorEvent::MovedOut),
        _ => false,
    }
}

/// Whether no operation of `ops`, applied from `m` on, sets the output file.
pub open spec fn never_sets_output_file(m: CanvasModel, ops: Seq<CanvasOp>) -> bool {
    forall|i: int| 0 <= i < ops.len() ==> !sets_output_file(run(m, ops.take(i)), #[trigger] ops[i])
}

proof fn lemma_set_property_keeps_cursor_consistent(m: CanvasModel, app: Seq<char>, v: PropertyValueModel)
    requires
        cursor_consistent(m),
        !(v is RegularCursor),
    ensures
        cursor_consistent(set_property_spec(m, app, v).0),
{
    match v {
        PropertyValueModel::Empty(b) => {
            let m1 = CanvasModel { empty: b, ..m };
            assert(set_unsaved_changes_spec(m1, false).0.cursor == m.cursor);
            assert(set_unsaved_changes_spec(m1, false).0.drawing_cursor_enabled == m.drawing_cursor_enabled);
            assert(set_unsaved_changes_spec(m1, false).0.show_drawing_cursor == m.show_drawing_cursor);
        },
        _ => {},
    }
}

/// A monitor event leaves the cursor, the drawing state and the show setting alone.
proof fn lemma_event_keeps_cursor_state(
    m: CanvasModel,
    ev: FileMonitorEvent,
    name: Option<Seq<char>>,
    t: Option<i64>,
    other: Option<FileRefView>,
    other_t: Option<i64>,
)
    ensures
        monitor_event_spec(m, ev, name, t, other, other_t).0.cursor == m.cursor,
        monitor_event_spec(m, ev, name, t, other, other_t).0.drawing_cursor_enabled
            == m.drawing_cursor_enabled,
        monitor_event_spec(m, ev, name, t, other, other_t).0.show_drawing_cursor
            == m.show_drawing_cursor,
{
    let m1 = set_unsaved_changes_spec(m, true).0;
    assert(m1.cursor == m.cursor && m1.drawing_cursor_enabled == m.drawing_cursor_enabled
        && m1.show_drawing_cursor == m.show_drawing_cursor);
    let m0 = if other is None { m1 } else { m };
    assert(set_property_spec(m0, Seq::empty(), PropertyValueModel::OutputFile(other, other_t)).0.cursor == m0.cursor);
    assert(set_property_spec(m1, Seq::empty(), PropertyValueModel::OutputFile(None, None)).0.cursor == m1.cursor);
}

proof fn lemma_step_keeps_cursor_consistent(m: CanvasModel, op: CanvasOp)
    requires
        cursor_consistent(m),
        !sets_regular_cursor(op),
    ensures
        cursor_consistent(step(m, op)),
{
    match op {
        CanvasOp::SetProperty(app, v) => lemma_set_property_keeps_cursor_consistent(m, app, v),
        CanvasOp::SetUnsavedChanges(b) => lemma_set_property_keeps_cursor_consistent(m, Seq::empty(), PropertyValueModel::UnsavedChanges(b)),
        CanvasOp::SetEmpty(b) => lemma_set_property_keeps_cursor_consistent(m, Seq::empty(), PropertyValueModel::Empty(b)),
        CanvasOp::SetTouchDrawing(b) => lemma_set_property_keeps_cursor_consistent(m, Seq::empty(), PropertyValueModel::TouchDrawing(b)),
        CanvasOp::SetShowDrawingCursor(b) => lemma_set_property_keeps_cursor_consistent(m, Seq::empty(), PropertyValueModel::ShowDrawingCursor(b)),
        CanvasOp::SetDrawingCursor(app, n) => lemma_set_property_keeps_cursor_consistent(m, app, PropertyValueModel::DrawingCursor(n)),
        CanvasOp::SetOutputFile(f, t) => lemma_set_property_keeps_cursor_consistent(m, Seq::empty(), PropertyValueModel::OutputFile(f, t)),
        CanvasOp::OutputFileEvent(ev, name, t, other, other_t) => lemma_event_keeps_cursor_state(m, ev, name, t, other, other_t),
        _ => {},
    }
}

/// Once the cursor on the widget fits the drawing state, it keeps fitting it
/// through any sequence of operations that does not set the regular cursor.
pub proof fn law_cursor_fits_through_operations(m: CanvasModel, ops: Seq<CanvasOp>)
    requires
        cursor_consistent(m),
        forall|i: int| 0 <= i < ops.len() ==> !sets_regular_cursor(#[trigger] ops[i]),
    ensures
        cursor_consistent(run(m, ops)),
    decreases ops.len(),
{
    if ops.len() > 0 {
        let init = ops.drop_last();
        assert forall|i: int| 0 <= i < init.len() implies !sets_regular_cursor(#[trigger] init[i]) by {
            assert(init[i] == ops[i]);
        }
        law_cursor_fits_through_operations(m, init);
        assert(!sets_regular_cursor(ops[ops.len() - 1]));
        lemma_step_keeps_cursor_consistent(run(m, init), ops.last());
    }
}

/// On a new canvas, after any sequence of operations that does not set the
/// regular cursor and ends in `enable_drawing_cursor(e)`, the cursor on the
/// widget is the drawing cursor or the invisible one (as the drawing cursor is
/// shown or not) when `e`, else the regular cursor.
pub proof fn law_cursor_after_enable_drawing_cursor(ops: Seq<CanvasOp>, e: bool)
    requires
        forall|i: int| 0 <= i < ops.len() ==> !sets_regular_cursor(#[trigger] ops[i]),
    ensures
        run(initial_model(), ops.push(CanvasOp::EnableDrawingCursor(e))).cursor == (if e {
            if run(initial_model(), ops.push(CanvasOp::EnableDrawingCursor(e))).show_drawing_cursor {
                CursorKind::Drawing
            } else {
                CursorKind::Invisible
            }
        } else {
            CursorKind::Regular
        }),
{
    let all = ops.push(CanvasOp::EnableDrawingCursor(e));
    assert forall|i: int| 0 <= i < all.len() implies !sets_regular_cursor(#[trigger] all[i]) by {
        if i < ops.len() {
            assert(all[i] == ops[i]);
        }
    }
    law_cursor_fits_through_operations(initial_model(), all);
    assert(all.drop_last() =~= ops);
    assert(run(initial_model(), all).drawing_cursor_enabled == e);
}

proof fn lemma_set_property_keeps_output_file(m: CanvasModel, app: Seq<char>, v: PropertyValueModel)
    requires
        !(v is OutputFile),
    ensures
        set_property_spec(m, app, v).0.output_file == m.output_file,
        set_property_spec(m, app, v).0.output_file_saved_modified == m.output_file_saved_modified,
{
    match v {
        PropertyValueModel::Empty(b) => {
            let m1 = CanvasModel { empty: b, ..m };
            assert(set_unsaved_changes_spec(m1, false).0.output_file == m.output_file);
            assert(set_unsaved_changes_spec(m1, false).0.output_file_saved_modified
                == m.output_file_saved_modified);
        },
        _ => {},
    }
}

proof fn lemma_event_keeps_output_file(
    m: CanvasModel,
    ev: FileMonitorEvent,
    name: Option<Seq<char>>,
    t: Option<i64>,
    other: Option<FileRefView>,
    other_t: Option<i64>,
)
    requires
        !sets_output_file(m, CanvasOp::OutputFileEvent(ev, name, t, other, other_t)),
    ensures
        monitor_event_spec(m, ev, name, t, other, other_t).0.output_file == m.output_file,
        monitor_event_spec(m, ev, name, t, other, other_t).0.output_file_saved_modified
            == m.output_file_saved_modified,
{
    let m1 = set_unsaved_changes_spec(m, true).0;
    assert(m1.output_file == m.output_file);
    assert(m1.output_file_saved_modified == m.output_file_saved_modified);
}

proof fn lemma_step_keeps_output_file(m: CanvasModel, op: CanvasOp)
    requires
        !sets_output_file(m, op),
    ensures
        step(m, op).output_file == m.output_file,
        step(m, op).output_file_saved_modified == m.output_file_saved_modified,
{
    match op {
        CanvasOp::SetProperty(app, v) => lemma_set_property_keeps_output_file(m, app, v),
        CanvasOp::SetUnsavedChanges(b) => lemma_set_property_keeps_output_file(m, Seq::empty(), PropertyValueModel::UnsavedChanges(b)),
        CanvasOp::SetEmpty(b) => lemma_set_property_keeps_output_file(m, Seq::empty(), PropertyValueModel::Empty(b)),
        CanvasOp::SetTouchDrawing(b) => lemma_set_property_keeps_output_file(m, Seq::empty(), PropertyValueModel::TouchDrawing(b)),
        CanvasOp::SetShowDrawingCursor(b) => lemma_set_property_keeps_output_file(m, Seq::empty(), PropertyValueModel::ShowDrawingCursor(b)),
        CanvasOp::SetRegularCursor(app, n) => lemma_set_property_keeps_output_file(m, app, PropertyValueModel::RegularCursor(n)),
        CanvasOp::SetDrawingCursor(app, n) => lemma_set_property_keeps_output_file(m, app, PropertyValueModel::DrawingCursor(n)),
        CanvasOp::OutputFileEvent(ev, name, t, other, other_t) => lemma_event_keeps_output_file(m, ev, name, t, other, other_t),
        _ => {},
    }
}

/// The output file and the modification time saved with it stay as they are
/// through any sequence of operations none of which sets the output file.
pub proof fn law_output_file_kept_through_operations(m: CanvasModel, ops: Seq<CanvasOp>)
    requires
        never_sets_output_file(m, ops),
    ensures
        run(m, ops).output_file == m.output_file,
        run(m, ops).output_file_saved_modified == m.output_file_saved_modified,
    decreases ops.len(),
{
    if ops.len() > 0 {
        let init = ops.drop_last();
        assert forall|i: int| 0 <= i < init.len() implies !sets_output_file(
            run(m, init.take(i)),
            #[trigger] init[i],
        ) by {
            assert(init[i] == ops[i]);
            assert(init.take(i) =~= ops.take(i));
            assert(!sets_output_file(run(m, ops.take(i)), ops[i]));
        }
        law_output_file_kept_through_operations(m, init);
        let k = ops.len() - 1;
        assert(ops.take(k) =~= init);
        assert(!sets_output_file(run(m, ops.take(k)), ops[k]));
        lemma_step_keeps_output_file(run(m, init), ops.last());
    }
}

/// The saved modification time is the one read when the output file was last
/// set (none without a file), whatever happened on disk or to other
/// properties since: it is never read again from disk.
pub proof fn law_saved_time_is_from_last_set(
    m: CanvasModel,
    f: Option<FileRefView>,
    t: Option<i64>,
    ops: Seq<CanvasOp>,
)
    requires
        never_sets_output_file(step(m, CanvasOp::SetOutputFile(f, t)), ops),
    ensures
        run(step(m, CanvasOp::SetOutputFile(f, t)), ops).output_file == f,
        run(step(m, CanvasOp::SetOutputFile(f, t)), ops).output_file_saved_modified == if f is Some {
            t
        } else {
            None
        },
{
    law_output_file_kept_through_operations(step(m, CanvasOp::SetOutputFile(f, t)), ops);
}

/// Events of the output file's monitor other than a change, a rename, a
/// deletion or a move away (such as "changes done" or "attribute changed")
/// change nothing, announce nothing and are ignored, whatever the state.
pub proof fn law_other_events_are_ignored(
    m: CanvasModel,
    file_basename: Option<Seq<char>>,
    changed_modified: Option<i64>,
    other_file: Option<FileRefView>,
    other_modified: Option<i64>,
)
    ensures
        monitor_event_spec(m, FileMonitorEvent::Other, file_basename, changed_modified, other_file, other_modified).0 == m,
        monitor_event_spec(m, FileMonitorEvent::Other, file_basename, changed_modified, other_file, other_modified).1
            == MonitorReaction::Ignore,
        monitor_event_spec(m, FileMonitorEvent::Other, file_basename, changed_modified, other_file, other_modified).2.notify
            =~= Seq::<CanvasProperty>::empty(),
        monitor_event_spec(m, FileMonitorEvent::Other, file_basename, changed_modified, other_file, other_modified).2.load_cursor
            is None,
        monitor_event_spec(m, FileMonitorEvent::Other, file_basename, changed_modified, other_file, other_modified).2.apply_cursor
            is None,
{
}

/// Setting `show-drawing-cursor` puts on the widget the cursor that the canvas
/// then has: while not drawing the regular one, while drawing the drawing
/// cursor when it is shown and the invisible one when it is hidden.
pub proof fn law_show_drawing_cursor_applies_fitting_cursor(m: CanvasModel, app_idpath: Seq<char>, show: bool)
    ensures
        ({
            let (m1, e) = set_property_spec(m, app_idpath, PropertyValueModel::ShowDrawingCursor(show));
            &&& e.apply_cursor == Some(m1.cursor)
            &&& !m.drawing_cursor_enabled ==> m1.cursor == CursorKind::Regular
            &&& m.drawing_cursor_enabled && show ==> m1.cursor == CursorKind::Drawing
            &&& m.drawing_cursor_enabled && !show ==> m1.cursor == CursorKind::Invisible
            &&& m1.show_drawing_cursor == show
            &&& m1.drawing_cursor_enabled == m.drawing_cursor_enabled
        }),
{
}

/// Setting `empty` to false changes nothing but `empty`: the document getting
/// content does not by itself count as an unsaved change.
pub proof fn law_nonempty_keeps_unsaved_changes(m: CanvasModel, app_idpath: Seq<char>)
    ensures
        set_property_spec(m, app_idpath, PropertyValueModel::Empty(false)).0 == (CanvasModel { empty: false, ..m }),
        set_property_spec(m, app_idpath, PropertyValueModel::Empty(false)).0.unsaved_changes == m.unsaved_changes,
        set_property_spec(m, app_idpath, PropertyValueModel::Empty(false)).1.notify =~= seq![CanvasProperty::Empty],
        set_property_spec(m, app_idpath, PropertyValueModel::Empty(false)).1.load_cursor is None,
        set_property_spec(m, app_idpath, PropertyValueModel::Empty(false)).1.apply_cursor is None,
{
}

/// Switching the drawing state hands back the cursor now on the widget: the
/// drawing cursor when drawing starts and it is shown, the invisible one when
/// drawing starts and it is hidden, the regular one when drawing stops; and
/// nothing, with no change, when the drawing state is as requested.
pub proof fn law_enable_drawing_cursor_result(m: CanvasModel, drawing: bool)
    ensures
        ({
            let (m1, r) = enable_drawing_cursor_spec(m, drawing);
            &&& drawing == m.drawing_cursor_enabled ==> r is None && m1 == m
            &&& drawing != m.drawing_cursor_enabled ==> r == Some(m1.cursor)
            &&& drawing != m.drawing_cursor_enabled && drawing && m.show_drawing_cursor
                ==> m1.cursor == CursorKind::Drawing
            &&& drawing != m.drawing_cursor_enabled && drawing && !m.show_drawing_cursor
                ==> m1.cursor == CursorKind::Invisible
            &&& drawing != m.drawing_cursor_enabled && !drawing ==> m1.cursor == CursorKind::Regular
            &&& m1.drawing_cursor_enabled == drawing
            &&& m1.show_drawing_cursor == m.show_drawing_cursor
        }),
{
}

/// The name under which each property is registered.
pub proof fn law_property_names()
    ensures
        property_name_spec(CanvasProperty::OutputFile) == "output-file"@,
        property_name_spec(CanvasProperty::UnsavedChanges) == "unsaved-changes"@,
        property_name_spec(CanvasProperty::Empty) == "empty"@,
        property_name_spec(CanvasProperty::TouchDrawing) == "touch-drawing"@,
        property_name_spec(CanvasProperty::ShowDrawingCursor) == "show-drawing-cursor"@,
        property_name_spec(CanvasProperty::RegularCursor) == "regular-cursor"@,
        property_name_spec(CanvasProperty::DrawingCursor) == "drawing-cursor"@,
        property_name_spec(CanvasProperty::HScrollPolicy) == "hscroll-policy"@,
        property_name_spec(CanvasProperty::VScrollPolicy) == "vscroll-policy"@,
        property_name_spec(CanvasProperty::HAdjustment) == "hadjustment"@,
        property_name_spec(CanvasProperty::VAdjustment) == "vadjustment"@,
{
}

/// The cursor for each drawing state: the regular one while not drawing;
/// while drawing the drawing cursor, or the invisible one when it is hidden.
pub proof fn law_cursor_table(drawing: bool, show: bool)
    ensures
        !drawing ==> cursor_for(drawing, show) == CursorKind::Regular,
        drawing && show ==> cursor_for(drawing, show) == CursorKind::Drawing,
        drawing && !show ==> cursor_for(drawing, show) == CursorKind::Invisible,
{
}

/// The textures of the cursors lie at
/// `<prefix>icons/scalable/actions/<icon>.svg`, and the default icons are
/// `cursor-dot-medium`, `cursor-dot-small` and `cursor-invisible`.
pub proof fn law_cursor_resources(app_idpath: Seq<char>, icon_name: Seq<char>)
    ensures
        cursor_resource_spec(app_idpath, icon_name) == app_idpath + "icons/scalable/actions/"@
            + icon_name + ".svg"@,
        default_regular_cursor_spec() == "cursor-dot-medium"@,
        default_drawing_cursor_spec() == "cursor-dot-small"@,
        invisible_cursor_spec() == "cursor-invisible"@,
{
}

/// A new canvas: no output file or saved time, no expected write, no save in
/// progress, no unsaved changes, empty, no touch drawing, drawing cursor
/// hidden and not enabled, the default icons, minimal scroll policies, the
/// regular cursor on the widget, no export folder.
pub proof fn law_initial_state()
    ensures
        initial_model() == (CanvasModel {
            output_file: None,
            output_file_saved_modified: None,
            output_file_expect_write: false,
            save_in_progress: false,
            unsaved_changes: false,
            empty: true,
            touch_drawing: false,
            show_drawing_cursor: false,
            drawing_cursor_enabled: false,
            regular_cursor_icon_name: "cursor-dot-medium"@,
            drawing_cursor_icon_name: "cursor-dot-small"@,
            hscroll_policy: ScrollPolicy::Minimum,
            vscroll_policy: ScrollPolicy::Minimum,
            cursor: CursorKind::Regular,
            last_export_dir: None,
        }),
{
}

/// Setting a plain property changes just that property, announces just it
/// and touches no cursor.
pub proof fn law_plain_properties(m: CanvasModel, app_idpath: Seq<char>, b: bool, p: ScrollPolicy)
    ensures
        set_property_spec(m, app_idpath, PropertyValueModel::UnsavedChanges(b)).0 == (CanvasModel { unsaved_changes: b, ..m }),
        set_property_spec(m, app_idpath, PropertyValueModel::UnsavedChanges(b)).1.notify =~= seq![CanvasProperty::UnsavedChanges],
        set_property_spec(m, app_idpath, PropertyValueModel::TouchDrawing(b)).0 == (CanvasModel { touch_drawing: b, ..m }),
        set_property_spec(m, app_idpath, PropertyValueModel::TouchDrawing(b)).1.notify =~= seq![CanvasProperty::TouchDrawing],
        set_property_spec(m, app_idpath, PropertyValueModel::HScrollPolicy(p)).0 == (CanvasModel { hscroll_policy: p, ..m }),
        set_property_spec(m, app_idpath, PropertyValueModel::HScrollPolicy(p)).1.notify =~= seq![CanvasProperty::HScrollPolicy],
        set_property_spec(m, app_idpath, PropertyValueModel::VScrollPolicy(p)).0 == (CanvasModel { vscroll_policy: p, ..m }),
        set_property_spec(m, app_idpath, PropertyValueModel::VScrollPolicy(p)).1.notify =~= seq![CanvasProperty::VScrollPolicy],
        set_property_spec(m, app_idpath, PropertyValueModel::UnsavedChanges(b)).1.load_cursor is None,
        set_property_spec(m, app_idpath, PropertyValueModel::UnsavedChanges(b)).1.apply_cursor is None,
        set_property_spec(m, app_idpath, PropertyValueModel::TouchDrawing(b)).1.load_cursor is None,
        set_property_spec(m, app_idpath, PropertyValueModel::TouchDrawing(b)).1.apply_cursor is None,
        set_property_spec(m, app_idpath, PropertyValueModel::HScrollPolicy(p)).1.load_cursor is None,
        set_property_spec(m, app_idpath, PropertyValueModel::HScrollPolicy(p)).1.apply_cursor is None,
        set_property_spec(m, app_idpath, PropertyValueModel::VScrollPolicy(p)).1.load_cursor is None,
        set_property_spec(m, app_idpath, PropertyValueModel::VScrollPolicy(p)).1.apply_cursor is None,
{
}

/// Setting `empty` to true marks the document empty and without unsaved
/// changes, announcing `empty` and, when there were unsaved changes, them.
pub proof fn law_empty_true(m: CanvasModel, app_idpath: Seq<char>)
    ensures
        set_property_spec(m, app_idpath, PropertyValueModel::Empty(true)).0 == (CanvasModel {
            empty: true,
            unsaved_changes: false,
            ..m
        }),
        set_property_spec(m, app_idpath, PropertyValueModel::Empty(true)).1.load_cursor is None,
        set_property_spec(m, app_idpath, PropertyValueModel::Empty(true)).1.apply_cursor is None,
{
}

/// Setting the output file keeps it, with the time read from it when there is
/// a file and none otherwise, and announces it.
pub proof fn law_set_output_file(m: CanvasModel, app_idpath: Seq<char>, f: Option<FileRefView>, t: Option<i64>)
    ensures
        set_property_spec(m, app_idpath, PropertyValueModel::OutputFile(f, t)).0 == (CanvasModel {
            output_file: f,
            output_file_saved_modified: if f is Some { t } else { None },
            ..m
        }),
        set_property_spec(m, app_idpath, PropertyValueModel::OutputFile(f, t)).1.notify =~= seq![CanvasProperty::OutputFile],
        set_property_spec(m, app_idpath, PropertyValueModel::OutputFile(f, t)).1.load_cursor is None,
        set_property_spec(m, app_idpath, PropertyValueModel::OutputFile(f, t)).1.apply_cursor is None,
{
}

/// Setting the regular cursor keeps its icon, loads its texture from the
/// icon's resource and puts it on the widget; setting the drawing cursor keeps
/// its icon and loads its texture, leaving the widget's cursor as it is.
pub proof fn law_cursor_icons(m: CanvasModel, app_idpath: Seq<char>, name: Seq<char>)
    ensures
        set_property_spec(m, app_idpath, PropertyValueModel::RegularCursor(name)).0 == (CanvasModel {
            regular_cursor_icon_name: name,
            cursor: CursorKind::Regular,
            ..m
        }),
        set_property_spec(m, app_idpath, PropertyValueModel::RegularCursor(name)).1.notify =~= seq![CanvasProperty::RegularCursor],
        set_property_spec(m, app_idpath, PropertyValueModel::RegularCursor(name)).1.load_cursor == Some(
            (CursorKind::Regular, app_idpath + "icons/scalable/actions/"@ + name + ".svg"@),
        ),
        set_property_spec(m, app_idpath, PropertyValueModel::RegularCursor(name)).1.apply_cursor == Some(CursorKind::Regular),
        set_property_spec(m, app_idpath, PropertyValueModel::DrawingCursor(name)).0 == (CanvasModel {
            drawing_cursor_icon_name: name,
            ..m
        }),
        set_property_spec(m, app_idpath, PropertyValueModel::DrawingCursor(name)).1.notify =~= seq![CanvasProperty::DrawingCursor],
        set_property_spec(m, app_idpath, PropertyValueModel::DrawingCursor(name)).1.load_cursor == Some(
            (CursorKind::Drawing, app_idpath + "icons/scalable/actions/"@ + name + ".svg"@),
        ),
        set_property_spec(m, app_idpath, PropertyValueModel::DrawingCursor(name)).1.apply_cursor is None,
{
}

/// A setter that checks for a change goes through the property system
/// exactly when the value differs.
pub proof fn law_set_if_changed(m: CanvasModel, v: PropertyValueModel)
    ensures
        set_if_changed_spec(m, true, v) == set_property_spec(m, Seq::empty(), v),
        set_if_changed_spec(m, false, v).0 == m,
        set_if_changed_spec(m, false, v).1.notify =~= Seq::<CanvasProperty>::empty(),
{
}

/// A change on disk, not expected and not leaving the saved modification
/// time as it was, marks unsaved changes (announced when there were none),
/// changes nothing else and offers to reload; so does a replacement through a
/// gio temporary file.
pub proof fn law_change_on_disk(
    m: CanvasModel,
    event: FileMonitorEvent,
    file_basename: Option<Seq<char>>,
    changed_modified: Option<i64>,
    other_file: Option<FileRefView>,
    other_modified: Option<i64>,
)
    requires
        !m.output_file_expect_write,
        event == FileMonitorEvent::Changed && !(m.output_file_saved_modified is Some
            && m.output_file_saved_modified == changed_modified)
        || event == FileMonitorEvent::Renamed && file_basename is Some
            && file_basename->0.len() >= ".goutputstream-"@.len()
            && file_basename->0.take(".goutputstream-"@.len() as int) == ".goutputstream-"@,
    ensures
        ({
            let (m1, r, e) = monitor_event_spec(m, event, file_basename, changed_modified, other_file, other_modified);
            &&& m1 == (CanvasModel { unsaved_changes: true, ..m })
            &&& r == MonitorReaction::OfferReload
            &&& e.notify =~= if m.unsaved_changes { Seq::empty() } else { seq![CanvasProperty::UnsavedChanges] }
            &&& e.load_cursor is None
            &&& e.apply_cursor is None
        }),
{
}

/// A rename on disk (not expected, not through a gio temporary file) makes
/// the new file the output file, with its modification time, and marks
/// unsaved changes only when there is no new file.
pub proof fn law_rename_on_disk(
    m: CanvasModel,
    file_basename: Option<Seq<char>>,
    changed_modified: Option<i64>,
    other_file: Option<FileRefView>,
    other_modified: Option<i64>,
)
    requires
        !m.output_file_expect_write,
        !(file_basename is Some && file_basename->0.len() >= ".goutputstream-"@.len()
            && file_basename->0.take(".goutputstream-"@.len() as int) == ".goutputstream-"@),
    ensures
        ({
            let (m1, r, e) = monitor_event_spec(m, FileMonitorEvent::Renamed, file_basename, changed_modified, other_file, other_modified);
            &&& m1 == (CanvasModel {
                output_file: other_file,
                output_file_saved_modified: if other_file is Some { other_modified } else { None },
                unsaved_changes: m.unsaved_changes || other_file is None,
                ..m
            })
            &&& r == MonitorReaction::Renamed
            &&& e.notify =~= if other_file is None && !m.unsaved_changes {
                seq![CanvasProperty::UnsavedChanges, CanvasProperty::OutputFile]
            } else {
                seq![CanvasProperty::OutputFile]
            }
        }),
{
    reveal_strlit(".goutputstream-");
}

/// A deletion or a move away on disk (not expected) drops the output file and
/// its saved time and marks unsaved changes.
pub proof fn law_lost_file_exact(
    m: CanvasModel,
    event: FileMonitorEvent,
    file_basename: Option<Seq<char>>,
    changed_modified: Option<i64>,
    other_file: Option<FileRefView>,
    other_modified: Option<i64>,
)
    requires
        !m.output_file_expect_write,
        event == FileMonitorEvent::Deleted || event == FileMonitorEvent::MovedOut,
    ensures
        ({
            let (m1, r, e) = monitor_event_spec(m, event, file_basename, changed_modified, other_file, other_modified);
            &&& m1 == (CanvasModel {
                output_file: None,
                output_file_saved_modified: None,
                unsaved_changes: true,
                ..m
            })
            &&& r == MonitorReaction::MovedOrDeleted
            &&& e.notify =~= if m.unsaved_changes {
                seq![CanvasProperty::OutputFile]
            } else {
                seq![CanvasProperty::UnsavedChanges, CanvasProperty::OutputFile]
            }
        }),
{
}

/// Files are opened and texts inserted; a file that cannot be taken out of
/// the drop is reported; anything else is refused.
pub proof fn law_drop_table()
    ensures
        drop_action_spec(DroppedValue::File { readable: true }) == DropAction::OpenFile,
        drop_action_spec(DroppedValue::File { readable: false }) == DropAction::ReportFileError,
        drop_action_spec(DroppedValue::Text) == DropAction::InsertText,
        drop_action_spec(DroppedValue::Other) == DropAction::Reject,
{
}

proof fn lemma_last_dot(s: Seq<char>)
    ensures
        -1 <= last_dot(s) < s.len(),
        last_dot(s) >= 0 ==> s[last_dot(s)] == '.',
        forall|j: int| last_dot(s) < j < s.len() ==> s[j] != '.',
    decreases s.len(),
{
    if s.len() > 0 && s.last() != '.' {
        lemma_last_dot(s.drop_last());
        assert forall|j: int| last_dot(s) < j < s.len() implies s[j] != '.' by {
            if j < s.len() - 1 {
                assert(s[j] == s.drop_last()[j]);
            }
        }
    }
}

/// The stem of a file name: when the name has a `.` after its first
/// character, the name is the stem, a `.` and an extension without any `.`,
/// and the stem is not empty; otherwise the stem is the whole name.
pub proof fn law_file_stem_shape(name: Seq<char>)
    ensures
        (exists|i: int| 0 < i < name.len() && name[i] == '.') ==> {
            &&& file_stem_spec(name).len() > 0
            &&& name == file_stem_spec(name) + seq!['.'] + name.skip(file_stem_spec(name).len() as int + 1)
            &&& !name.skip(file_stem_spec(name).len() as int + 1).contains('.')
        },
        !(exists|i: int| 0 < i < name.len() && name[i] == '.') ==> file_stem_spec(name) == name,
{
    lemma_last_dot(name);
    let k = last_dot(name);
    if exists|i: int| 0 < i < name.len() && name[i] == '.' {
        let i = choose|i: int| 0 < i < name.len() && name[i] == '.';
        assert(k >= i);
        let ext = name.skip(k + 1);
        assert(name =~= name.take(k) + seq!['.'] + ext);
        if ext.contains('.') {
            let j = choose|j: int| 0 <= j < ext.len() && ext[j] == '.';
            assert(name[k + 1 + j] == '.');
        }
    } else {
        if k > 0 {
            assert(name[k] == '.');
        }
    }
}

} // verus!
