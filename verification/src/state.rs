use vstd::prelude::*;
use crate::cursor::{
    CursorKind, cursor_for, select_cursor, cursor_resource_path, cursor_resource_spec,
    default_regular_cursor, default_drawing_cursor, default_regular_cursor_spec,
    default_drawing_cursor_spec,
};
use crate::file::{FileRef, FileRefView, opt_file_view, copy_opt_file};
use crate::property::CanvasProperty;

verus! {

/// How a scrollable sizes itself along one axis.
#[derive(Debug, Clone, Copy, PartialEq, Eq, Structural)]
pub enum ScrollPolicy {
    Minimum,
    Natural,
}

/// A new value for one of the canvas properties that the library keeps.
/// The adjustments are toolkit objects and are kept by the caller.
#[derive(Debug)]
pub enum PropertyValue {
    /// The output file, with the modification time (in microseconds since the
    /// epoch) that was read from it when it was handed over, if it could be read.
    OutputFile(Option<FileRef>, Option<i64>),
    UnsavedChanges(bool),
    Empty(bool),
    TouchDrawing(bool),
    ShowDrawingCursor(bool),
    /// The icon name of the regular cursor.
    RegularCursor(String),
    /// The icon name of the drawing cursor.
    DrawingCursor(String),
    HScrollPolicy(ScrollPolicy),
    VScrollPolicy(ScrollPolicy),
}

/// The mathematical model of a [`PropertyValue`].
pub enum PropertyValueModel {
    OutputFile(Option<FileRefView>, Option<i64>),
    UnsavedChanges(bool),
    Empty(bool),
    TouchDrawing(bool),
    ShowDrawingCursor(bool),
    RegularCursor(Seq<char>),
    DrawingCursor(Seq<char>),
    HScrollPolicy(ScrollPolicy),
    VScrollPolicy(ScrollPolicy),
}

impl View for PropertyValue {
    type V = PropertyValueModel;

    open spec fn view(&self) -> PropertyValueModel {
        match self {
            PropertyValue::OutputFile(f, t) => PropertyValueModel::OutputFile(opt_file_view(*f), *t),
            PropertyValue::UnsavedChanges(b) => PropertyValueModel::UnsavedChanges(*b),
            PropertyValue::Empty(b) => PropertyValueModel::Empty(*b),
            PropertyValue::TouchDrawing(b) => PropertyValueModel::TouchDrawing(*b),
            PropertyValue::ShowDrawingCursor(b) => PropertyValueModel::ShowDrawingCursor(*b),
            PropertyValue::RegularCursor(s) => PropertyValueModel::RegularCursor(s@),
            PropertyValue::DrawingCursor(s) => PropertyValueModel::DrawingCursor(s@),
            PropertyValue::HScrollPolicy(p) => PropertyValueModel::HScrollPolicy(*p),
            PropertyValue::VScrollPolicy(p) => PropertyValueModel::VScrollPolicy(*p),
        }
    }
}

/// What the caller has to carry out after a property was set: the properties
/// to announce as changed, a cursor texture to load, and the cursor to put on
/// the widget.
#[derive(Debug)]
pub struct PropertyEffects {
    /// The properties announced as changed, in the order in which they were set.
    pub notify: Vec<CanvasProperty>,
    /// A cursor whose texture is loaded from the given resource path.
    pub load_cursor: Option<(CursorKind, String)>,
    /// The cursor to set on the widget, after any texture was loaded.
    pub apply_cursor: Option<CursorKind>,
}

/// The mathematical model of [`PropertyEffects`].
pub struct EffectsModel {
    pub notify: Seq<CanvasProperty>,
    pub load_cursor: Option<(CursorKind, Seq<char>)>,
    pub apply_cursor: Option<CursorKind>,
}

impl View for PropertyEffects {
    type V = EffectsModel;

    open spec fn view(&self) -> EffectsModel {
        EffectsModel {
            notify: self.notify@,
            load_cursor: match self.load_cursor {
                Some((k, s)) => Some((k, s@)),
                None => None,
            },
            apply_cursor: self.apply_cursor,
        }
    }
}

/// No effect at all.
pub open spec fn no_effects() -> EffectsModel {
    EffectsModel { notify: Seq::empty(), load_cursor: None, apply_cursor: None }
}

/// The effects of two steps, one after the other.
pub open spec fn then_effects(a: EffectsModel, b: EffectsModel) -> EffectsModel {
    EffectsModel {
        notify: a.notify + b.notify,
        load_cursor: if b.load_cursor is Some { b.load_cursor } else { a.load_cursor },
        apply_cursor: if b.apply_cursor is Some { b.apply_cursor } else { a.apply_cursor },
    }
}

impl PropertyEffects {
    /// No effect at all.
    pub fn none() -> (e: PropertyEffects)
        ensures
            e@ == no_effects(),
    {
        PropertyEffects { notify: Vec::new(), load_cursor: None, apply_cursor: None }
    }

    /// Only the announcement that `p` changed.
    pub fn notify_only(p: CanvasProperty) -> (e: PropertyEffects)
        ensures
            e@ == (EffectsModel { notify: seq![p], load_cursor: None, apply_cursor: None }),
    {
        let mut notify = Vec::new();
        notify.push(p);
        PropertyEffects { notify, load_cursor: None, apply_cursor: None }
    }

    /// Appends the effects of a later step.
    pub fn followed_by(&mut self, later: PropertyEffects)
        ensures
            final(self)@ == then_effects(old(self)@, later@),
    {
        let PropertyEffects { notify, load_cursor, apply_cursor } = later;
        let mut notify = notify;
        self.notify.append(&mut notify);
        if load_cursor.is_some() {
            self.load_cursor = load_cursor;
        }
        if apply_cursor.is_some() {
            self.apply_cursor = apply_cursor;
        }
    }
}

/// The mathematical model of the canvas state.
pub struct CanvasModel {
    pub output_file: Option<FileRefView>,
    /// The modification time of the output file when it was set by the app.
    pub output_file_saved_modified: Option<i64>,
    pub output_file_expect_write: bool,
    pub save_in_progress: bool,
    pub unsaved_changes: bool,
    pub empty: bool,
    pub touch_drawing: bool,
    pub show_drawing_cursor: bool,
    pub drawing_cursor_enabled: bool,
    pub regular_cursor_icon_name: Seq<char>,
    pub drawing_cursor_icon_name: Seq<char>,
    pub hscroll_policy: ScrollPolicy,
    pub vscroll_policy: ScrollPolicy,
    /// The cursor currently set on the widget.
    pub cursor: CursorKind,
    pub last_export_dir: Option<FileRefView>,
}

/// The state of a canvas once it was created and constructed.
pub open spec fn initial_model() -> CanvasModel {
    CanvasModel {
        output_file: None,
        output_file_saved_modified: None,
        output_file_expect_write: false,
        save_in_progress: false,
        unsaved_changes: false,
        empty: true,
        touch_drawing: false,
        show_drawing_cursor: false,
        drawing_cursor_enabled: false,
        regular_cursor_icon_name: default_regular_cursor_spec(),
        drawing_cursor_icon_name: default_drawing_cursor_spec(),
        hscroll_policy: ScrollPolicy::Minimum,
        vscroll_policy: ScrollPolicy::Minimum,
        cursor: CursorKind::Regular,
        last_export_dir: None,
    }
}

/// The nested change of `unsaved-changes` that only sets it, and announces
/// it, when the value differs.
pub open spec fn set_unsaved_changes_spec(m: CanvasModel, v: bool) -> (CanvasModel, EffectsModel) {
    if m.unsaved_changes != v {
        (
            CanvasModel { unsaved_changes: v, ..m },
            EffectsModel {
                notify: seq![CanvasProperty::UnsavedChanges],
                load_cursor: None,
                apply_cursor: None,
            },
        )
    } else {
        (m, no_effects())
    }
}

/// Announcing one property, with no other effect.
pub open spec fn notify_spec(p: CanvasProperty) -> EffectsModel {
    EffectsModel { notify: seq![p], load_cursor: None, apply_cursor: None }
}

/// What setting a property does to the canvas and what the caller has to
/// carry out. Every set is announced; setting `empty` to true also clears
/// `unsaved-changes`; the cursor properties reload their texture, and the
/// regular one is put on the widget right away; `show-drawing-cursor` puts on
/// the cursor that fits the drawing state.
pub open spec fn set_property_spec(
    m: CanvasModel,
    app_idpath: Seq<char>,
    v: PropertyValueModel,
) -> (CanvasModel, EffectsModel) {
    match v {
        PropertyValueModel::OutputFile(f, t) => (
            CanvasModel {
                output_file: f,
                output_file_saved_modified: if f is Some { t } else { None },
                ..m
            },
            notify_spec(CanvasProperty::OutputFile),
        ),
        PropertyValueModel::UnsavedChanges(b) => (
            CanvasModel { unsaved_changes: b, ..m },
            notify_spec(CanvasProperty::UnsavedChanges),
        ),
        PropertyValueModel::Empty(b) => {
            let m1 = CanvasModel { empty: b, ..m };
            if b {
                let (m2, e2) = set_unsaved_changes_spec(m1, false);
                (m2, then_effects(notify_spec(CanvasProperty::Empty), e2))
            } else {
                (m1, notify_spec(CanvasProperty::Empty))
            }
        },
        PropertyValueModel::TouchDrawing(b) => (
            CanvasModel { touch_drawing: b, ..m },
            notify_spec(CanvasProperty::TouchDrawing),
        ),
        PropertyValueModel::ShowDrawingCursor(b) => {
            let c = cursor_for(m.drawing_cursor_enabled, b);
            (
                CanvasModel { show_drawing_cursor: b, cursor: c, ..m },
                EffectsModel {
                    notify: seq![CanvasProperty::ShowDrawingCursor],
                    load_cursor: None,
                    apply_cursor: Some(c),
                },
            )
        },
        PropertyValueModel::RegularCursor(name) => (
            CanvasModel { regular_cursor_icon_name: name, cursor: CursorKind::Regular, ..m },
            EffectsModel {
                notify: seq![CanvasProperty::RegularCursor],
                load_cursor: Some((CursorKind::Regular, cursor_resource_spec(app_idpath, name))),
                apply_cursor: Some(CursorKind::Regular),
            },
        ),
        PropertyValueModel::DrawingCursor(name) => (
            CanvasModel { drawing_cursor_icon_name: name, ..m },
            EffectsModel {
                notify: seq![CanvasProperty::DrawingCursor],
                load_cursor: Some((CursorKind::Drawing, cursor_resource_spec(app_idpath, name))),
                apply_cursor: None,
            },
        ),
        PropertyValueModel::HScrollPolicy(p) => (
            CanvasModel { hscroll_policy: p, ..m },
            notify_spec(CanvasProperty::HScrollPolicy),
        ),
        PropertyValueModel::VScrollPolicy(p) => (
            CanvasModel { vscroll_policy: p, ..m },
            notify_spec(CanvasProperty::VScrollPolicy),
        ),
    }
}

/// A setter that goes through the property system only when the value
/// differs, so that an unchanged value is not announced.
pub open spec fn set_if_changed_spec(
    m: CanvasModel,
    changed: bool,
    v: PropertyValueModel,
) -> (CanvasModel, EffectsModel) {
    if changed {
        set_property_spec(m, Seq::empty(), v)
    } else {
        (m, no_effects())
    }
}

/// The value a property reads, for the properties the library keeps.
pub open spec fn property_value_spec(m: CanvasModel, p: CanvasProperty) -> Option<PropertyValueModel> {
    match p {
        CanvasProperty::OutputFile => Some(
            PropertyValueModel::OutputFile(m.output_file, m.output_file_saved_modified),
        ),
        CanvasProperty::UnsavedChanges => Some(PropertyValueModel::UnsavedChanges(m.unsaved_changes)),
        CanvasProperty::Empty => Some(PropertyValueModel::Empty(m.empty)),
        CanvasProperty::TouchDrawing => Some(PropertyValueModel::TouchDrawing(m.touch_drawing)),
        CanvasProperty::ShowDrawingCursor => Some(
            PropertyValueModel::ShowDrawingCursor(m.show_drawing_cursor),
        ),
        CanvasProperty::RegularCursor => Some(
            PropertyValueModel::RegularCursor(m.regular_cursor_icon_name),
        ),
        CanvasProperty::DrawingCursor => Some(
            PropertyValueModel::DrawingCursor(m.drawing_cursor_icon_name),
        ),
        CanvasProperty::HScrollPolicy => Some(PropertyValueModel::HScrollPolicy(m.hscroll_policy)),
        CanvasProperty::VScrollPolicy => Some(PropertyValueModel::VScrollPolicy(m.vscroll_policy)),
        CanvasProperty::HAdjustment => None,
        CanvasProperty::VAdjustment => None,
    }
}

/// Switching between the regular and the drawing cursor: nothing happens when
/// the drawing state is unchanged, else the fitting cursor is put on.
pub open spec fn enable_drawing_cursor_spec(m: CanvasModel, drawing: bool) -> (CanvasModel, Option<CursorKind>) {
    if drawing == m.drawing_cursor_enabled {
        (m, None)
    } else {
        let c = cursor_for(drawing, m.show_drawing_cursor);
        (CanvasModel { drawing_cursor_enabled: drawing, cursor: c, ..m }, Some(c))
    }
}

/// The state of the canvas widget that is not a toolkit object.
#[derive(Debug)]
pub struct CanvasState {
    output_file: Option<FileRef>,
    output_file_saved_modified: Option<i64>,
    output_file_expect_write: bool,
    save_in_progress: bool,
    unsaved_changes: bool,
    empty: bool,
    touch_drawing: bool,
    show_drawing_cursor: bool,
    drawing_cursor_enabled: bool,
    regular_cursor_icon_name: String,
    drawing_cursor_icon_name: String,
    hscroll_policy: ScrollPolicy,
    vscroll_policy: ScrollPolicy,
    cursor: CursorKind,
    last_export_dir: Option<FileRef>,
}

impl View for CanvasState {
    type V = CanvasModel;

    closed spec fn view(&self) -> CanvasModel {
        CanvasModel {
            output_file: opt_file_view(self.output_file),
            output_file_saved_modified: self.output_file_saved_modified,
            output_file_expect_write: self.output_file_expect_write,
            save_in_progress: self.save_in_progress,
            unsaved_changes: self.unsaved_changes,
            empty: self.empty,
            touch_drawing: self.touch_drawing,
            show_drawing_cursor: self.show_drawing_cursor,
            drawing_cursor_enabled: self.drawing_cursor_enabled,
            regular_cursor_icon_name: self.regular_cursor_icon_name@,
            drawing_cursor_icon_name: self.drawing_cursor_icon_name@,
            hscroll_policy: self.hscroll_policy,
            vscroll_policy: self.vscroll_policy,
            cursor: self.cursor,
            last_export_dir: opt_file_view(self.last_export_dir),
        }
    }
}

impl CanvasState {
    /// A new canvas: empty, without output file or unsaved changes, showing
    /// the regular cursor `cursor-dot-medium`, with `cursor-dot-small` as
    /// drawing cursor.
    pub fn new() -> (s: CanvasState)
        ensures
            s@ == initial_model(),
    {
        CanvasState {
            output_file: None,
            output_file_saved_modified: None,
            output_file_expect_write: false,
            save_in_progress: false,
            unsaved_changes: false,
            empty: true,
            touch_drawing: false,
            show_drawing_cursor: false,
            drawing_cursor_enabled: false,
            regular_cursor_icon_name: default_regular_cursor(),
            drawing_cursor_icon_name: default_drawing_cursor(),
            hscroll_policy: ScrollPolicy::Minimum,
            vscroll_policy: ScrollPolicy::Minimum,
            cursor: CursorKind::Regular,
            last_export_dir: None,
        }
    }

    /// Sets a property and returns what the caller has to carry out; see
    /// [`set_property_spec`]. `app_idpath` is the application's resource
    /// prefix, below which the cursor textures lie.
    pub fn set_property(&mut self, app_idpath: &str, value: PropertyValue) -> (e: PropertyEffects)
        ensures
            (final(self)@, e@) == set_property_spec(old(self)@, app_idpath@, value@),
    {
        match value {
            PropertyValue::OutputFile(f, t) => self.put_output_file(f, t),
            PropertyValue::UnsavedChanges(b) => {
                self.unsaved_changes = b;
                PropertyEffects::notify_only(CanvasProperty::UnsavedChanges)
            },
            PropertyValue::Empty(b) => self.put_empty(b),
            PropertyValue::TouchDrawing(b) => {
                self.touch_drawing = b;
                PropertyEffects::notify_only(CanvasProperty::TouchDrawing)
            },
            PropertyValue::ShowDrawingCursor(b) => self.put_show_drawing_cursor(b),
            PropertyValue::RegularCursor(name) => self.put_regular_cursor(app_idpath, name),
            PropertyValue::DrawingCursor(name) => self.put_drawing_cursor(app_idpath, name),
            PropertyValue::HScrollPolicy(p) => {
                self.hscroll_policy = p;
                PropertyEffects::notify_only(CanvasProperty::HScrollPolicy)
            },
            PropertyValue::VScrollPolicy(p) => {
                self.vscroll_policy = p;
                PropertyEffects::notify_only(CanvasProperty::VScrollPolicy)
            },
        }
    }

    fn put_output_file(&mut self, f: Option<FileRef>, t: Option<i64>) -> (e: PropertyEffects)
        ensures
            (final(self)@, e@) == set_property_spec(
                old(self)@,
                Seq::empty(),
                PropertyValueModel::OutputFile(opt_file_view(f), t),
            ),
    {
        self.output_file_saved_modified = if f.is_some() { t } else { None };
        self.output_file = f;
        PropertyEffects::notify_only(CanvasProperty::OutputFile)
    }

    fn put_empty(&mut self, b: bool) -> (e: PropertyEffects)
        ensures
            (final(self)@, e@) == set_property_spec(
                old(self)@,
                Seq::empty(),
                PropertyValueModel::Empty(b),
            ),
    {
        let ghost m1 = CanvasModel { empty: b, ..self@ };
        self.empty = b;
        assert(self@ == m1);
        let mut e = PropertyEffects::notify_only(CanvasProperty::Empty);
        if b && self.unsaved_changes {
            // the nested `set_unsaved_changes(false)`
            self.unsaved_changes = false;
            e.followed_by(PropertyEffects::notify_only(CanvasProperty::UnsavedChanges));
            assert(e@.notify =~= seq![CanvasProperty::Empty] + seq![CanvasProperty::UnsavedChanges]);
        } else if b {
            assert(e@.notify =~= seq![CanvasProperty::Empty] + Seq::empty());
        }
        e
    }

    fn put_show_drawing_cursor(&mut self, b: bool) -> (e: PropertyEffects)
        ensures
            (final(self)@, e@) == set_property_spec(
                old(self)@,
                Seq::empty(),
                PropertyValueModel::ShowDrawingCursor(b),
            ),
    {
        self.show_drawing_cursor = b;
        let c = select_cursor(self.drawing_cursor_enabled, b);
        self.cursor = c;
        let mut e = PropertyEffects::notify_only(CanvasProperty::ShowDrawingCursor);
        e.apply_cursor = Some(c);
        e
    }

    fn put_regular_cursor(&mut self, app_idpath: &str, name: String) -> (e: PropertyEffects)
        ensures
            (final(self)@, e@) == set_property_spec(
                old(self)@,
                app_idpath@,
                PropertyValueModel::RegularCursor(name@),
            ),
    {
        let path = cursor_resource_path(app_idpath, name.as_str());
        self.regular_cursor_icon_name = name;
        self.cursor = CursorKind::Regular;
        let mut e = PropertyEffects::notify_only(CanvasProperty::RegularCursor);
        e.load_cursor = Some((CursorKind::Regular, path));
        e.apply_cursor = Some(CursorKind::Regular);
        e
    }

    fn put_drawing_cursor(&mut self, app_idpath: &str, name: String) -> (e: PropertyEffects)
        ensures
            (final(self)@, e@) == set_property_spec(
                old(self)@,
                app_idpath@,
                PropertyValueModel::DrawingCursor(name@),
            ),
    {
        let path = cursor_resource_path(app_idpath, name.as_str());
        self.drawing_cursor_icon_name = name;
        let mut e = PropertyEffects::notify_only(CanvasProperty::DrawingCursor);
        e.load_cursor = Some((CursorKind::Drawing, path));
        e
    }

    /// Reads a property the library keeps; `None` for the adjustments, which
    /// the caller keeps.
    pub fn property(&self, p: CanvasProperty) -> (v: Option<PropertyValue>)
        ensures
            match v {
                Some(v) => property_value_spec(self@, p) == Some(v@),
                None => property_value_spec(self@, p) is None,
            },
    {
        match p {
            CanvasProperty::OutputFile => Some(
                PropertyValue::OutputFile(
                    copy_opt_file(&self.output_file),
                    self.output_file_saved_modified,
                ),
            ),
            CanvasProperty::UnsavedChanges => Some(PropertyValue::UnsavedChanges(self.unsaved_changes)),
            CanvasProperty::Empty => Some(PropertyValue::Empty(self.empty)),
            CanvasProperty::TouchDrawing => Some(PropertyValue::TouchDrawing(self.touch_drawing)),
            CanvasProperty::ShowDrawingCursor => Some(
                PropertyValue::ShowDrawingCursor(self.show_drawing_cursor),
            ),
            CanvasProperty::RegularCursor => Some(
                PropertyValue::RegularCursor(self.regular_cursor_icon_name.clone()),
            ),
            CanvasProperty::DrawingCursor => Some(
                PropertyValue::DrawingCursor(self.drawing_cursor_icon_name.clone()),
            ),
            CanvasProperty::HScrollPolicy => Some(PropertyValue::HScrollPolicy(self.hscroll_policy)),
            CanvasProperty::VScrollPolicy => Some(PropertyValue::VScrollPolicy(self.vscroll_policy)),
            CanvasProperty::HAdjustment => None,
            CanvasProperty::VAdjustment => None,
        }
    }

    /// The icon name of the regular cursor.
    pub fn regular_cursor(&self) -> (name: String)
        ensures
            name@ == self@.regular_cursor_icon_name,
    {
        self.regular_cursor_icon_name.clone()
    }

    /// Sets the icon of the regular cursor; its texture is loaded from
    /// below `app_idpath` and put on the widget.
    pub fn set_regular_cursor(&mut self, app_idpath: &str, regular_cursor: &str) -> (e: PropertyEffects)
        ensures
            (final(self)@, e@) == set_property_spec(
                old(self)@,
                app_idpath@,
                PropertyValueModel::RegularCursor(regular_cursor@),
            ),
    {
        self.set_property(app_idpath, PropertyValue::RegularCursor(String::from_str(regular_cursor)))
    }

    /// The icon name of the drawing cursor.
    pub fn drawing_cursor(&self) -> (name: String)
        ensures
            name@ == self@.drawing_cursor_icon_name,
    {
        self.drawing_cursor_icon_name.clone()
    }

    /// Sets the icon of the drawing cursor; its texture is loaded from below
    /// `app_idpath`.
    pub fn set_drawing_cursor(&mut self, app_idpath: &str, drawing_cursor: &str) -> (e: PropertyEffects)
        ensures
            (final(self)@, e@) == set_property_spec(
                old(self)@,
                app_idpath@,
                PropertyValueModel::DrawingCursor(drawing_cursor@),
            ),
    {
        self.set_property(app_idpath, PropertyValue::DrawingCursor(String::from_str(drawing_cursor)))
    }

    /// The output file, if there is one.
    pub fn output_file(&self) -> (f: Option<FileRef>)
        ensures
            opt_file_view(f) == self@.output_file,
    {
        copy_opt_file(&self.output_file)
    }

    /// Sets the output file; `modified` is the modification time read from it.
    pub fn set_output_file(&mut self, output_file: Option<FileRef>, modified: Option<i64>) -> (e: PropertyEffects)
        ensures
            (final(self)@, e@) == set_property_spec(
                old(self)@,
                Seq::empty(),
                PropertyValueModel::OutputFile(opt_file_view(output_file), modified),
            ),
    {
        self.set_property("", PropertyValue::OutputFile(output_file, modified))
    }

    /// Whether a write of the output file by the app itself is expected.
    pub fn output_file_expect_write(&self) -> (b: bool)
        ensures
            b == self@.output_file_expect_write,
    {
        self.output_file_expect_write
    }

    /// Marks that the app is about to write the output file itself.
    pub fn set_output_file_expect_write(&mut self, expect_write: bool)
        ensures
            final(self)@ == (CanvasModel { output_file_expect_write: expect_write, ..old(self)@ }),
    {
        self.output_file_expect_write = expect_write;
    }

    /// Whether a save is in progress.
    pub fn save_in_progress(&self) -> (b: bool)
        ensures
            b == self@.save_in_progress,
    {
        self.save_in_progress
    }

    /// Marks whether a save is in progress.
    pub fn set_save_in_progress(&mut self, save_in_progress: bool)
        ensures
            final(self)@ == (CanvasModel { save_in_progress: save_in_progress, ..old(self)@ }),
    {
        self.save_in_progress = save_in_progress;
    }

    /// Whether the document has unsaved changes.
    pub fn unsaved_changes(&self) -> (b: bool)
        ensures
            b == self@.unsaved_changes,
    {
        self.unsaved_changes
    }

    /// Sets `unsaved-changes`, going through the property system, and so
    /// announcing it, only when the value differs.
    pub fn set_unsaved_changes(&mut self, unsaved_changes: bool) -> (e: PropertyEffects)
        ensures
            (final(self)@, e@) == set_if_changed_spec(
                old(self)@,
                old(self)@.unsaved_changes != unsaved_changes,
                PropertyValueModel::UnsavedChanges(unsaved_changes),
            ),
            (final(self)@, e@) == set_unsaved_changes_spec(old(self)@, unsaved_changes),
    {
        if self.unsaved_changes != unsaved_changes {
            self.set_property("", PropertyValue::UnsavedChanges(unsaved_changes))
        } else {
            PropertyEffects::none()
        }
    }

    /// Whether the document is empty.
    pub fn empty(&self) -> (b: bool)
        ensures
            b == self@.empty,
    {
        self.empty
    }

    /// Sets `empty` when the value differs; an empty document has no unsaved
    /// changes.
    pub fn set_empty(&mut self, empty: bool) -> (e: PropertyEffects)
        ensures
            (final(self)@, e@) == set_if_changed_spec(
                old(self)@,
                old(self)@.empty != empty,
                PropertyValueModel::Empty(empty),
            ),
    {
        if self.empty != empty {
            self.set_property("", PropertyValue::Empty(empty))
        } else {
            PropertyEffects::none()
        }
    }

    /// Whether drawing with touch input is enabled.
    pub fn touch_drawing(&self) -> (b: bool)
        ensures
            b == self@.touch_drawing,
    {
        self.touch_drawing
    }

    /// Sets `touch-drawing` when the value differs.
    pub fn set_touch_drawing(&mut self, touch_drawing: bool) -> (e: PropertyEffects)
        ensures
            (final(self)@, e@) == set_if_changed_spec(
                old(self)@,
                old(self)@.touch_drawing != touch_drawing,
                PropertyValueModel::TouchDrawing(touch_drawing),
            ),
    {
        if self.touch_drawing != touch_drawing {
            self.set_property("", PropertyValue::TouchDrawing(touch_drawing))
        } else {
            PropertyEffects::none()
        }
    }

    /// Whether the drawing cursor is shown while drawing.
    pub fn show_drawing_cursor(&self) -> (b: bool)
        ensures
            b == self@.show_drawing_cursor,
    {
        self.show_drawing_cursor
    }

    /// Sets `show-drawing-cursor` when the value differs, and puts on the
    /// cursor that fits.
    pub fn set_show_drawing_cursor(&mut self, show_drawing_cursor: bool) -> (e: PropertyEffects)
        ensures
            (final(self)@, e@) == set_if_changed_spec(
                old(self)@,
                old(self)@.show_drawing_cursor != show_drawing_cursor,
                PropertyValueModel::ShowDrawingCursor(show_drawing_cursor),
            ),
    {
        if self.show_drawing_cursor != show_drawing_cursor {
            self.set_property("", PropertyValue::ShowDrawingCursor(show_drawing_cursor))
        } else {
            PropertyEffects::none()
        }
    }

    /// The folder last exported to.
    pub fn last_export_dir(&self) -> (d: Option<FileRef>)
        ensures
            opt_file_view(d) == self@.last_export_dir,
    {
        copy_opt_file(&self.last_export_dir)
    }

    /// Remembers the folder last exported to.
    pub fn set_last_export_dir(&mut self, dir: Option<FileRef>)
        ensures
            final(self)@ == (CanvasModel { last_export_dir: opt_file_view(dir), ..old(self)@ }),
    {
        self.last_export_dir = dir;
    }

    /// The modification time of the output file as it was when the app set
    /// it. It is stale when the file was changed from outside the app.
    pub fn output_file_saved_modified_date_time(&self) -> (t: Option<i64>)
        ensures
            t == self@.output_file_saved_modified,
    {
        self.output_file_saved_modified
    }

    /// The cursor currently set on the widget.
    pub fn current_cursor(&self) -> (c: CursorKind)
        ensures
            c == self@.cursor,
    {
        self.cursor
    }

    /// Switches between the regular and the drawing cursor. Returns the
    /// cursor to put on the widget, or `None` when the drawing state is
    /// unchanged.
    pub fn enable_drawing_cursor(&mut self, drawing_cursor: bool) -> (c: Option<CursorKind>)
        ensures
            (final(self)@, c) == enable_drawing_cursor_spec(old(self)@, drawing_cursor),
    {
        if drawing_cursor == self.drawing_cursor_enabled {
            return None;
        }
        self.drawing_cursor_enabled = drawing_cursor;
        let c = select_cursor(drawing_cursor, self.show_drawing_cursor);
        self.cursor = c;
        Some(c)
    }
}

} // verus!
