use vstd::prelude::*;

verus! {

/// The three cursors the canvas can show.
#[derive(Debug, Clone, Copy, PartialEq, Eq, Structural)]
pub enum CursorKind {
    /// The cursor shown while not drawing.
    Regular,
    /// The cursor shown while drawing, when the drawing cursor is shown.
    Drawing,
    /// The cursor shown while drawing, when the drawing cursor is hidden.
    Invisible,
}

/// The cursor the canvas shows, given whether drawing is in progress and
/// whether the drawing cursor should be visible.
pub open spec fn cursor_for(drawing_cursor_enabled: bool, show_drawing_cursor: bool) -> CursorKind {
    if drawing_cursor_enabled {
        if show_drawing_cursor {
            CursorKind::Drawing
        } else {
            CursorKind::Invisible
        }
    } else {
        CursorKind::Regular
    }
}

/// Chooses the cursor to show: the regular one when not drawing, else the
/// drawing cursor or the invisible one.
pub fn select_cursor(drawing_cursor_enabled: bool, show_drawing_cursor: bool) -> (c: CursorKind)
    ensures
        c == cursor_for(drawing_cursor_enabled, show_drawing_cursor),
{
    if drawing_cursor_enabled {
        if show_drawing_cursor {
            CursorKind::Drawing
        } else {
            CursorKind::Invisible
        }
    } else {
        CursorKind::Regular
    }
}

/// The directory, below the application's resource prefix, that holds the cursor icons.
pub open spec fn cursor_icon_dir() -> Seq<char> {
    "icons/scalable/actions/"@
}

/// The resource path of the icon named `icon_name` below the prefix `app_idpath`.
pub open spec fn cursor_resource_spec(app_idpath: Seq<char>, icon_name: Seq<char>) -> Seq<char> {
    app_idpath + cursor_icon_dir() + icon_name + ".svg"@
}

/// Builds the resource path `<app_idpath>icons/scalable/actions/<icon_name>.svg`
/// from which the texture of a cursor is loaded.
pub fn cursor_resource_path(app_idpath: &str, icon_name: &str) -> (path: String)
    ensures
        path@ == cursor_resource_spec(app_idpath@, icon_name@),
{
    let dir = "icons/scalable/actions/";
    let ext = ".svg";
    let mut path = String::from_str(app_idpath);
    path.append(dir);
    path.append(icon_name);
    path.append(ext);
    path
}

/// The name of the icon of the regular cursor when the canvas is created.
pub open spec fn default_regular_cursor_spec() -> Seq<char> {
    "cursor-dot-medium"@
}

/// The name of the icon of the drawing cursor when the canvas is created.
pub open spec fn default_drawing_cursor_spec() -> Seq<char> {
    "cursor-dot-small"@
}

/// The name of the icon of the invisible cursor.
pub open spec fn invisible_cursor_spec() -> Seq<char> {
    "cursor-invisible"@
}

/// `cursor-dot-medium`, the icon of the regular cursor of a new canvas.
pub fn default_regular_cursor() -> (name: String)
    ensures
        name@ == default_regular_cursor_spec(),
{
    let s = "cursor-dot-medium";
    String::from_str(s)
}

/// `cursor-dot-small`, the icon of the drawing cursor of a new canvas.
pub fn default_drawing_cursor() -> (name: String)
    ensures
        name@ == default_drawing_cursor_spec(),
{
    let s = "cursor-dot-small";
    String::from_str(s)
}

/// `cursor-invisible`, the icon of the invisible cursor.
pub fn invisible_cursor() -> (name: String)
    ensures
        name@ == invisible_cursor_spec(),
{
    let s = "cursor-invisible";
    String::from_str(s)
}

} // verus!
