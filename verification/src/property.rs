use vstd::prelude::*;
use crate::text::str_equal;

verus! {

/// The properties the canvas exposes to the toolkit, each known by its name.
#[derive(Debug, Clone, Copy, PartialEq, Eq, Structural)]
pub enum CanvasProperty {
    OutputFile,
    UnsavedChanges,
    Empty,
    TouchDrawing,
    ShowDrawingCursor,
    RegularCursor,
    DrawingCursor,
    HScrollPolicy,
    VScrollPolicy,
    HAdjustment,
    VAdjustment,
}

/// The name under which a property is registered.
pub open spec fn property_name_spec(p: CanvasProperty) -> Seq<char> {
    match p {
        CanvasProperty::OutputFile => "output-file"@,
        CanvasProperty::UnsavedChanges => "unsaved-changes"@,
        CanvasProperty::Empty => "empty"@,
        CanvasProperty::TouchDrawing => "touch-drawing"@,
        CanvasProperty::ShowDrawingCursor => "show-drawing-cursor"@,
        CanvasProperty::RegularCursor => "regular-cursor"@,
        CanvasProperty::DrawingCursor => "drawing-cursor"@,
        CanvasProperty::HScrollPolicy => "hscroll-policy"@,
        CanvasProperty::VScrollPolicy => "vscroll-policy"@,
        CanvasProperty::HAdjustment => "hadjustment"@,
        CanvasProperty::VAdjustment => "vadjustment"@,
    }
}

/// The value a property's specification declares as its default, where it
/// declares one: the boolean properties and the two cursor names.
pub enum PropertyDefault {
    Bool(bool),
    Str(&'static str),
    Undeclared,
}

impl CanvasProperty {
    /// All properties, in the order in which they are registered.
    pub open spec fn all_spec() -> Seq<CanvasProperty> {
        seq![
            CanvasProperty::OutputFile,
            CanvasProperty::UnsavedChanges,
            CanvasProperty::Empty,
            CanvasProperty::TouchDrawing,
            CanvasProperty::ShowDrawingCursor,
            CanvasProperty::RegularCursor,
            CanvasProperty::DrawingCursor,
            CanvasProperty::HScrollPolicy,
            CanvasProperty::VScrollPolicy,
            CanvasProperty::HAdjustment,
            CanvasProperty::VAdjustment,
        ]
    }

    /// All properties, in the order in which they are registered.
    pub fn all() -> (v: Vec<CanvasProperty>)
        ensures
            v@ == Self::all_spec(),
    {
        vec![
            CanvasProperty::OutputFile,
            CanvasProperty::UnsavedChanges,
            CanvasProperty::Empty,
            CanvasProperty::TouchDrawing,
            CanvasProperty::ShowDrawingCursor,
            CanvasProperty::RegularCursor,
            CanvasProperty::DrawingCursor,
            CanvasProperty::HScrollPolicy,
            CanvasProperty::VScrollPolicy,
            CanvasProperty::HAdjustment,
            CanvasProperty::VAdjustment,
        ]
    }

    /// The name under which the property is registered.
    pub fn name(&self) -> (n: &'static str)
        ensures
            n@ == property_name_spec(*self),
    {
        match self {
            CanvasProperty::OutputFile => "output-file",
            CanvasProperty::UnsavedChanges => "unsaved-changes",
            CanvasProperty::Empty => "empty",
            CanvasProperty::TouchDrawing => "touch-drawing",
            CanvasProperty::ShowDrawingCursor => "show-drawing-cursor",
            CanvasProperty::RegularCursor => "regular-cursor",
            CanvasProperty::DrawingCursor => "drawing-cursor",
            CanvasProperty::HScrollPolicy => "hscroll-policy",
            CanvasProperty::VScrollPolicy => "vscroll-policy",
            CanvasProperty::HAdjustment => "hadjustment",
            CanvasProperty::VAdjustment => "vadjustment",
        }
    }

    /// The property registered under `name`, or `None` for a name the canvas
    /// does not know (which the toolkit treats as a programming error).
    pub fn from_name(name: &str) -> (p: Option<CanvasProperty>)
        ensures
            p is Some ==> name@ == property_name_spec(p->0),
            p is None ==> forall|q: CanvasProperty| name@ != property_name_spec(q),
    {
        let all = CanvasProperty::all();
        let mut i: usize = 0;
        while i < all.len()
            invariant
                all@ == Self::all_spec(),
                i <= all.len(),
                forall|j: int| 0 <= j < i ==> name@ != property_name_spec(#[trigger] all@[j]),
            decreases all.len() - i,
        {
            let candidate = all[i];
            if str_equal(name, candidate.name()) {
                return Some(candidate);
            }
            i = i + 1;
        }
        assert forall|q: CanvasProperty| name@ != property_name_spec(q) by {
            let k: int = match q {
                CanvasProperty::OutputFile => 0,
                CanvasProperty::UnsavedChanges => 1,
                CanvasProperty::Empty => 2,
                CanvasProperty::TouchDrawing => 3,
                CanvasProperty::ShowDrawingCursor => 4,
                CanvasProperty::RegularCursor => 5,
                CanvasProperty::DrawingCursor => 6,
                CanvasProperty::HScrollPolicy => 7,
                CanvasProperty::VScrollPolicy => 8,
                CanvasProperty::HAdjustment => 9,
                CanvasProperty::VAdjustment => 10,
            };
            assert(all@[k] == q);
        }
        None
    }

    /// The default value declared in the property's specification.
    pub fn declared_default(&self) -> (d: PropertyDefault)
        ensures
            *self == CanvasProperty::UnsavedChanges ==> d == PropertyDefault::Bool(false),
            *self == CanvasProperty::Empty ==> d == PropertyDefault::Bool(true),
            *self == CanvasProperty::TouchDrawing ==> d == PropertyDefault::Bool(false),
            *self == CanvasProperty::ShowDrawingCursor ==> d == PropertyDefault::Bool(true),
            *self == CanvasProperty::RegularCursor ==> d is Str && d->Str_0@
                == "cursor-dot-medium"@,
            *self == CanvasProperty::DrawingCursor ==> d is Str && d->Str_0@
                == "cursor-dot-small"@,
            *self == CanvasProperty::OutputFile || *self == CanvasProperty::HScrollPolicy
                || *self == CanvasProperty::VScrollPolicy || *self == CanvasProperty::HAdjustment
                || *self == CanvasProperty::VAdjustment ==> d is Undeclared,
    {
        match self {
            CanvasProperty::UnsavedChanges => PropertyDefault::Bool(false),
            CanvasProperty::Empty => PropertyDefault::Bool(true),
            CanvasProperty::TouchDrawing => PropertyDefault::Bool(false),
            CanvasProperty::ShowDrawingCursor => PropertyDefault::Bool(true),
            CanvasProperty::RegularCursor => PropertyDefault::Str("cursor-dot-medium"),
            CanvasProperty::DrawingCursor => PropertyDefault::Str("cursor-dot-small"),
            _ => PropertyDefault::Undeclared,
        }
    }
}

} // verus!
