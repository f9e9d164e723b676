use vstd::prelude::*;

verus! {

/// Settles the import of the engine configuration stored in the settings.
///
/// A configuration that imported yields its result. A failed import is no
/// error when the stored configuration is empty, as it is on the first start
/// of the app; then there is nothing to apply. Otherwise the import's error
/// is returned.
pub fn settle_engine_config_import<F, E>(imported: Result<F, E>, engine_config: &str) -> (r: Result<Option<F>, E>)
    ensures
        imported is Ok ==> r is Ok && r->Ok_0 == Some(imported->Ok_0),
        imported is Err && engine_config@.len() == 0 ==> r is Ok && r->Ok_0 is None,
        imported is Err && engine_config@.len() > 0 ==> r is Err && r->Err_0 == imported->Err_0,
{
    match imported {
        Ok(flags) => Ok(Some(flags)),
        Err(e) => {
            if engine_config.is_empty() {
                Ok(None)
            } else {
                Err(e)
            }
        },
    }
}

/// A value dropped onto the canvas.
#[derive(Debug, Clone, Copy, PartialEq, Eq, Structural)]
pub enum DroppedValue {
    /// A file; `readable` tells whether the file could be taken out of the
    /// drop (it cannot, for instance, for some trashed files).
    File { readable: bool },
    /// A text.
    Text,
    /// Anything else.
    Other,
}

/// What the canvas does with a dropped value.
#[derive(Debug, Clone, Copy, PartialEq, Eq, Structural)]
pub enum DropAction {
    /// Open the file (with the app's dialogs), at the drop position.
    OpenFile,
    /// Insert the text at the drop position.
    InsertText,
    /// Report that inserting the file failed.
    ReportFileError,
    /// Refuse the drop.
    Reject,
}

/// Files come first, then text; anything else is refused.
pub open spec fn drop_action_spec(value: DroppedValue) -> DropAction {
    match value {
        DroppedValue::File { readable } => if readable {
            DropAction::OpenFile
        } else {
            DropAction::ReportFileError
        },
        DroppedValue::Text => DropAction::InsertText,
        DroppedValue::Other => DropAction::Reject,
    }
}

/// Decides what to do with a dropped value.
pub fn drop_action(value: DroppedValue) -> (a: DropAction)
    ensures
        a == drop_action_spec(value),
{
    match value {
        DroppedValue::File { readable } => if readable {
            DropAction::OpenFile
        } else {
            DropAction::ReportFileError
        },
        DroppedValue::Text => DropAction::InsertText,
        DroppedValue::Other => DropAction::Reject,
    }
}

/// The answer to a drop: whether it is accepted, and whether inserting the
/// text failed and has to be reported. `text_inserted` is the outcome of
/// inserting the text, for `InsertText`.
pub fn finish_drop(action: DropAction, text_inserted: bool) -> (r: (bool, bool))
    ensures
        r.0 == (action == DropAction::OpenFile || (action == DropAction::InsertText && text_inserted)),
        r.1 == (action == DropAction::InsertText && !text_inserted),
{
    match action {
        DropAction::OpenFile => (true, false),
        DropAction::InsertText => (text_inserted, !text_inserted),
        DropAction::ReportFileError => (false, false),
        DropAction::Reject => (false, false),
    }
}

} // verus!
