use vstd::prelude::*;
use crate::file::{FileRef, FileRefView, opt_chars, opt_file_view};
use crate::state::{
    CanvasModel, CanvasState, EffectsModel, PropertyEffects, PropertyValueModel, no_effects,
    set_property_spec, set_unsaved_changes_spec, then_effects,
};
use crate::text::starts_with;

verus! {

/// The kinds of change that a monitor of the output file reports. Only the
/// first four are acted on.
#[derive(Debug, Clone, Copy, PartialEq, Eq, Structural)]
pub enum FileMonitorEvent {
    Changed,
    Renamed,
    Deleted,
    MovedOut,
    /// Any other kind of event.
    Other,
}

/// How the canvas answers a change of its output file on disk.
#[derive(Debug, Clone, Copy, PartialEq, Eq, Structural)]
pub enum MonitorReaction {
    /// Nothing to do.
    Ignore,
    /// The change was the app's own write, which was expected; the
    /// expectation is cleared and nothing else happens.
    OwnWrite,
    /// The file was modified on disk: offer to reload it from disk.
    OfferReload,
    /// The file was renamed on disk; the canvas now saves to the new file.
    Renamed,
    /// The file was moved away or deleted; the canvas has no output file anymore.
    MovedOrDeleted,
}

/// What becomes of the monitor of the output file when the output file is
/// set or the canvas is initialized for an app window.
#[derive(Debug, Clone, Copy, PartialEq, Eq, Structural)]
pub enum MonitorAction {
    /// Install a monitor on the output file, replacing the old one.
    Install,
    /// Clear the monitor.
    Clear,
    /// Clear the monitor and dismiss the toast about a modified file.
    ClearAndDismissToast,
}

/// The outcome of handling a monitor event.
#[derive(Debug)]
pub struct MonitorOutcome {
    pub reaction: MonitorReaction,
    /// The property changes made while handling the event.
    pub effects: PropertyEffects,
}

/// The prefix of the temporary file through which gio replaces a file.
pub open spec fn goutputstream_prefix() -> Seq<char> {
    ".goutputstream-"@
}

/// Whether a file name is that of a temporary file through which gio
/// replaced a file (`.goutputstream-<hash>`).
pub open spec fn is_goutputstream_spec(basename: Option<Seq<char>>) -> bool {
    match basename {
        Some(b) => goutputstream_prefix().len() <= b.len()
            && b.take(goutputstream_prefix().len() as int) == goutputstream_prefix(),
        None => false,
    }
}

/// Whether the file with the given base name is a temporary file through
/// which gio replaced a file.
pub fn is_goutputstream_file(basename: &Option<String>) -> (r: bool)
    ensures
        r == is_goutputstream_spec(opt_chars(*basename)),
{
    match basename {
        Some(b) => starts_with(b.as_str(), ".goutputstream-"),
        None => false,
    }
}

/// Setting the unsaved changes and then the output file, as a rename does.
pub open spec fn renamed_spec(
    m: CanvasModel,
    other_file: Option<FileRefView>,
    other_modified: Option<i64>,
) -> (CanvasModel, EffectsModel) {
    let (m1, e1) = if other_file is None {
        set_unsaved_changes_spec(m, true)
    } else {
        (m, no_effects())
    };
    let (m2, e2) = set_property_spec(
        m1,
        Seq::empty(),
        PropertyValueModel::OutputFile(other_file, other_modified),
    );
    (m2, then_effects(e1, e2))
}

/// How the canvas answers an event of the monitor of its output file.
///
/// - An expected write of the app's own turns any of the four handled events
///   into `OwnWrite`, which only clears the expectation.
/// - `Changed`: ignored when the file's modification time equals the one saved
///   when the app set the file (both known); else the document is marked as
///   having unsaved changes and reloading is offered.
/// - `Renamed`: when the old name was a gio temporary file, handled as a
///   change; else the document is marked as having unsaved changes when there
///   is no new file, and the new file (possibly none) becomes the output file.
/// - `Deleted`, `MovedOut`: unsaved changes, and no output file.
/// - Any other event is ignored and leaves the expectation in place.
pub open spec fn monitor_event_spec(
    m: CanvasModel,
    event: FileMonitorEvent,
    file_basename: Option<Seq<char>>,
    changed_modified: Option<i64>,
    other_file: Option<FileRefView>,
    other_modified: Option<i64>,
) -> (CanvasModel, MonitorReaction, EffectsModel) {
    if event == FileMonitorEvent::Other {
        (m, MonitorReaction::Ignore, no_effects())
    } else if m.output_file_expect_write {
        (CanvasModel { output_file_expect_write: false, ..m }, MonitorReaction::OwnWrite, no_effects())
    } else {
        match event {
            FileMonitorEvent::Changed => {
                if m.output_file_saved_modified is Some && changed_modified is Some
                    && m.output_file_saved_modified == changed_modified {
                    (m, MonitorReaction::Ignore, no_effects())
                } else {
                    let (m1, e1) = set_unsaved_changes_spec(m, true);
                    (m1, MonitorReaction::OfferReload, e1)
                }
            },
            FileMonitorEvent::Renamed => {
                if is_goutputstream_spec(file_basename) {
                    let (m1, e1) = set_unsaved_changes_spec(m, true);
                    (m1, MonitorReaction::OfferReload, e1)
                } else {
                    let (m1, e1) = renamed_spec(m, other_file, other_modified);
                    (m1, MonitorReaction::Renamed, e1)
                }
            },
            _ => {
                let (m1, e1) = set_unsaved_changes_spec(m, true);
                let (m2, e2) = set_property_spec(
                    m1,
                    Seq::empty(),
                    PropertyValueModel::OutputFile(None, None),
                );
                (m2, MonitorReaction::MovedOrDeleted, then_effects(e1, e2))
            },
        }
    }
}

impl CanvasState {
    /// What to do with the monitor once the output file was set: install a
    /// monitor on the new file, or, when there is none anymore, clear the
    /// monitor and dismiss the toast about the old file.
    pub fn monitor_action_on_output_file_change(&self) -> (a: MonitorAction)
        ensures
            self@.output_file is Some ==> a == MonitorAction::Install,
            self@.output_file is None ==> a == MonitorAction::ClearAndDismissToast,
    {
        if self.output_file().is_some() {
            MonitorAction::Install
        } else {
            MonitorAction::ClearAndDismissToast
        }
    }

    /// What to do with the monitor when the canvas is initialized for an app
    /// window: install a monitor on the output file, or clear it when there is
    /// no output file.
    pub fn monitor_action_on_reinstall(&self) -> (a: MonitorAction)
        ensures
            self@.output_file is Some ==> a == MonitorAction::Install,
            self@.output_file is None ==> a == MonitorAction::Clear,
    {
        if self.output_file().is_some() {
            MonitorAction::Install
        } else {
            MonitorAction::Clear
        }
    }

    /// Handles an event of the monitor of the output file; see
    /// [`monitor_event_spec`]. `file_basename` is the base name of the file the
    /// event is about; `changed_modified` is that file's modification time as
    /// read after a `Changed` event; `other_file` is the file it was renamed
    /// to and `other_modified` that file's modification time.
    pub fn handle_output_file_event(
        &mut self,
        event: FileMonitorEvent,
        file_basename: &Option<String>,
        changed_modified: Option<i64>,
        other_file: Option<FileRef>,
        other_modified: Option<i64>,
    ) -> (out: MonitorOutcome)
        ensures
            (final(self)@, out.reaction, out.effects@) == monitor_event_spec(
                old(self)@,
                event,
                opt_chars(*file_basename),
                changed_modified,
                opt_file_view(other_file),
                other_modified,
            ),
    {
        if event == FileMonitorEvent::Other {
            return MonitorOutcome { reaction: MonitorReaction::Ignore, effects: PropertyEffects::none() };
        }
        if self.output_file_expect_write() {
            // the file was modified by the app's own save
            self.set_output_file_expect_write(false);
            return MonitorOutcome { reaction: MonitorReaction::OwnWrite, effects: PropertyEffects::none() };
        }
        match event {
            FileMonitorEvent::Changed => {
                let saved = self.output_file_saved_modified_date_time();
                let unchanged = match (saved, changed_modified) {
                    (Some(a), Some(b)) => a == b,
                    _ => false,
                };
                if unchanged {
                    // same modification time: a spurious event, as some
                    // synced or virtual file systems emit
                    MonitorOutcome { reaction: MonitorReaction::Ignore, effects: PropertyEffects::none() }
                } else {
                    let effects = self.set_unsaved_changes(true);
                    MonitorOutcome { reaction: MonitorReaction::OfferReload, effects }
                }
            },
            FileMonitorEvent::Renamed => {
                if is_goutputstream_file(file_basename) {
                    // replaced through a gio temporary file: a modification
                    let effects = self.set_unsaved_changes(true);
                    MonitorOutcome { reaction: MonitorReaction::OfferReload, effects }
                } else {
                    let mut effects = if other_file.is_none() {
                        self.set_unsaved_changes(true)
                    } else {
                        PropertyEffects::none()
                    };
                    let later = self.set_output_file(other_file, other_modified);
                    effects.followed_by(later);
                    MonitorOutcome { reaction: MonitorReaction::Renamed, effects }
                }
            },
            _ => {
                let mut effects = self.set_unsaved_changes(true);
                let later = self.set_output_file(None, None);
                effects.followed_by(later);
                MonitorOutcome { reaction: MonitorReaction::MovedOrDeleted, effects }
            },
        }
    }
}

} // verus!
