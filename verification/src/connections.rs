use vstd::prelude::*;

verus! {

/// Puts `value` into `slot` and hands back what was there.
fn swap_in<T>(slot: &mut Option<T>, value: T) -> (prev: Option<T>)
    ensures
        prev == *old(slot),
        *final(slot) == Some(value),
{
    let prev = slot.take();
    *slot = Some(value);
    prev
}

/// The connections a canvas makes to the app window it is shown in: signal
/// handlers (`S`) and property bindings (`B`).
#[derive(Debug)]
pub struct AppwindowConnections<S, B> {
    pub output_file: S,
    pub scalefactor: S,
    pub unsaved_changes: S,
    pub touch_drawing: B,
    pub show_drawing_cursor: B,
    pub regular_cursor: B,
    pub drawing_cursor: B,
    /// Connected to the canvas's drop target rather than to the canvas.
    pub drop_target: S,
    pub handle_widget_flags: S,
}

/// The bindings a canvas makes to the tab page that holds it.
#[derive(Debug)]
pub struct TabPageConnections<B> {
    pub output_file: B,
    pub unsaved_changes: B,
}

/// Every connection of the app window kind, present.
pub open spec fn appwindow_some<S, B>(c: AppwindowConnections<S, B>) -> AppwindowConnections<Option<S>, Option<B>> {
    AppwindowConnections {
        output_file: Some(c.output_file),
        scalefactor: Some(c.scalefactor),
        unsaved_changes: Some(c.unsaved_changes),
        touch_drawing: Some(c.touch_drawing),
        show_drawing_cursor: Some(c.show_drawing_cursor),
        regular_cursor: Some(c.regular_cursor),
        drawing_cursor: Some(c.drawing_cursor),
        drop_target: Some(c.drop_target),
        handle_widget_flags: Some(c.handle_widget_flags),
    }
}

/// No connection to an app window.
pub open spec fn appwindow_none<S, B>() -> AppwindowConnections<Option<S>, Option<B>> {
    AppwindowConnections {
        output_file: None,
        scalefactor: None,
        unsaved_changes: None,
        touch_drawing: None,
        show_drawing_cursor: None,
        regular_cursor: None,
        drawing_cursor: None,
        drop_target: None,
        handle_widget_flags: None,
    }
}

/// No connection to a tab page.
pub open spec fn tab_page_none<B>() -> TabPageConnections<Option<B>> {
    TabPageConnections { output_file: None, unsaved_changes: None }
}

/// The connections a canvas holds, so that it can disconnect them when it is
/// moved to another app window or tab page, or closed.
#[derive(Debug)]
pub struct Connections<S, B> {
    pub hadjustment: Option<S>,
    pub vadjustment: Option<S>,
    pub tab_page: TabPageConnections<Option<B>>,
    pub appwindow: AppwindowConnections<Option<S>, Option<B>>,
}

impl<S, B> Connections<S, B> {
    /// No connections at all.
    pub fn new() -> (c: Self)
        ensures
            c.hadjustment is None,
            c.vadjustment is None,
            c.tab_page == tab_page_none::<B>(),
            c.appwindow == appwindow_none::<S, B>(),
    {
        Connections {
            hadjustment: None,
            vadjustment: None,
            tab_page: TabPageConnections { output_file: None, unsaved_changes: None },
            appwindow: AppwindowConnections {
                output_file: None,
                scalefactor: None,
                unsaved_changes: None,
                touch_drawing: None,
                show_drawing_cursor: None,
                regular_cursor: None,
                drawing_cursor: None,
                drop_target: None,
                handle_widget_flags: None,
            },
        }
    }

    /// Stores the connections to a new app window and hands back those to the
    /// old one, which the caller disconnects.
    pub fn replace_appwindow(&mut self, new: AppwindowConnections<S, B>) -> (stale: AppwindowConnections<Option<S>, Option<B>>)
        ensures
            stale == old(self).appwindow,
            final(self).appwindow == appwindow_some(new),
            final(self).tab_page == old(self).tab_page,
            final(self).hadjustment == old(self).hadjustment,
            final(self).vadjustment == old(self).vadjustment,
    {
        let AppwindowConnections {
            output_file,
            scalefactor,
            unsaved_changes,
            touch_drawing,
            show_drawing_cursor,
            regular_cursor,
            drawing_cursor,
            drop_target,
            handle_widget_flags,
        } = new;
        AppwindowConnections {
            output_file: swap_in(&mut self.appwindow.output_file, output_file),
            scalefactor: swap_in(&mut self.appwindow.scalefactor, scalefactor),
            unsaved_changes: swap_in(&mut self.appwindow.unsaved_changes, unsaved_changes),
            touch_drawing: swap_in(&mut self.appwindow.touch_drawing, touch_drawing),
            show_drawing_cursor: swap_in(&mut self.appwindow.show_drawing_cursor, show_drawing_cursor),
            regular_cursor: swap_in(&mut self.appwindow.regular_cursor, regular_cursor),
            drawing_cursor: swap_in(&mut self.appwindow.drawing_cursor, drawing_cursor),
            drop_target: swap_in(&mut self.appwindow.drop_target, drop_target),
            handle_widget_flags: swap_in(&mut self.appwindow.handle_widget_flags, handle_widget_flags),
        }
    }

    /// Stores the bindings to a new tab page and hands back those to the old
    /// one, which the caller unbinds.
    pub fn replace_tab_page(&mut self, new: TabPageConnections<B>) -> (stale: TabPageConnections<Option<B>>)
        ensures
            stale == old(self).tab_page,
            final(self).tab_page == (TabPageConnections {
                output_file: Some(new.output_file),
                unsaved_changes: Some(new.unsaved_changes),
            }),
            final(self).appwindow == old(self).appwindow,
            final(self).hadjustment == old(self).hadjustment,
            final(self).vadjustment == old(self).vadjustment,
    {
        let TabPageConnections { output_file, unsaved_changes } = new;
        TabPageConnections {
            output_file: swap_in(&mut self.tab_page.output_file, output_file),
            unsaved_changes: swap_in(&mut self.tab_page.unsaved_changes, unsaved_changes),
        }
    }

    /// Takes every connection to the app window and the tab page, for the
    /// caller to disconnect. The handlers on the adjustments stay, as they
    /// belong to the canvas's own scrolling.
    pub fn take_external(&mut self) -> (stale: (AppwindowConnections<Option<S>, Option<B>>, TabPageConnections<Option<B>>))
        ensures
            stale.0 == old(self).appwindow,
            stale.1 == old(self).tab_page,
            final(self).appwindow == appwindow_none::<S, B>(),
            final(self).tab_page == tab_page_none::<B>(),
            final(self).hadjustment == old(self).hadjustment,
            final(self).vadjustment == old(self).vadjustment,
    {
        let appwindow = AppwindowConnections {
            output_file: self.appwindow.output_file.take(),
            scalefactor: self.appwindow.scalefactor.take(),
            unsaved_changes: self.appwindow.unsaved_changes.take(),
            touch_drawing: self.appwindow.touch_drawing.take(),
            show_drawing_cursor: self.appwindow.show_drawing_cursor.take(),
            regular_cursor: self.appwindow.regular_cursor.take(),
            drawing_cursor: self.appwindow.drawing_cursor.take(),
            drop_target: self.appwindow.drop_target.take(),
            handle_widget_flags: self.appwindow.handle_widget_flags.take(),
        };
        let tab_page = TabPageConnections {
            output_file: self.tab_page.output_file.take(),
            unsaved_changes: self.tab_page.unsaved_changes.take(),
        };
        (appwindow, tab_page)
    }

    /// Takes the handler on the old horizontal adjustment, for the caller to
    /// disconnect from it, and keeps the handler on the new one, if there is
    /// a new one.
    pub fn replace_hadjustment(&mut self, new: Option<S>) -> (stale: Option<S>)
        ensures
            stale == old(self).hadjustment,
            final(self).hadjustment == new,
            final(self).vadjustment == old(self).vadjustment,
            final(self).tab_page == old(self).tab_page,
            final(self).appwindow == old(self).appwindow,
    {
        let stale = self.hadjustment.take();
        if let Some(h) = new {
            self.hadjustment = Some(h);
        }
        stale
    }

    /// Takes the handler on the old vertical adjustment, for the caller to
    /// disconnect from it, and keeps the handler on the new one, if there is
    /// a new one.
    pub fn replace_vadjustment(&mut self, new: Option<S>) -> (stale: Option<S>)
        ensures
            stale == old(self).vadjustment,
            final(self).vadjustment == new,
            final(self).hadjustment == old(self).hadjustment,
            final(self).tab_page == old(self).tab_page,
            final(self).appwindow == old(self).appwindow,
    {
        let stale = self.vadjustment.take();
        if let Some(h) = new {
            self.vadjustment = Some(h);
        }
        stale
    }
}

/// What has to be done with the old monitor of the output file when a new one
/// is installed or the monitor is cleared.
#[derive(Debug)]
pub struct MonitorRelease<M, H> {
    /// The old monitor, to cancel.
    pub cancel: Option<M>,
    /// The old handler, to disconnect from the old monitor.
    pub disconnect: Option<H>,
}

/// The monitor (`M`) of the output file, with the handler (`H`) of its
/// `changed` signal.
#[derive(Debug)]
pub struct OutputFileMonitor<M, H> {
    pub monitor: Option<M>,
    pub handler: Option<H>,
}

impl<M, H> OutputFileMonitor<M, H> {
    /// No monitor.
    pub fn new() -> (m: Self)
        ensures
            m.monitor is None,
            m.handler is None,
    {
        OutputFileMonitor { monitor: None, handler: None }
    }

    /// Installs a new monitor with its handler. The old monitor, if any, is
    /// handed back to be cancelled, together with its handler to be
    /// disconnected, and only then is the new handler kept; when there was no
    /// old monitor the kept handler is left as it was and the new handler is
    /// not kept.
    pub fn install(&mut self, monitor: M, handler: H) -> (r: MonitorRelease<M, H>)
        ensures
            final(self).monitor == Some(monitor),
            r.cancel == old(self).monitor,
            old(self).monitor is Some ==> r.disconnect == old(self).handler && final(self).handler
                == Some(handler),
            old(self).monitor is None ==> r.disconnect is None && final(self).handler
                == old(self).handler,
    {
        match swap_in(&mut self.monitor, monitor) {
            Some(old_monitor) => {
                let old_handler = swap_in(&mut self.handler, handler);
                MonitorRelease { cancel: Some(old_monitor), disconnect: old_handler }
            },
            None => MonitorRelease { cancel: None, disconnect: None },
        }
    }

    /// Clears the monitor: it is handed back to be cancelled, with its
    /// handler to be disconnected. Without a monitor nothing happens.
    pub fn clear(&mut self) -> (r: MonitorRelease<M, H>)
        ensures
            final(self).monitor is None,
            r.cancel == old(self).monitor,
            old(self).monitor is Some ==> r.disconnect == old(self).handler && final(self).handler is None,
            old(self).monitor is None ==> r.disconnect is None && final(self).handler
                == old(self).handler,
    {
        match self.monitor.take() {
            Some(old_monitor) => {
                let old_handler = self.handler.take();
                MonitorRelease { cancel: Some(old_monitor), disconnect: old_handler }
            },
            None => MonitorRelease { cancel: None, disconnect: None },
        }
    }
}

} // verus!
