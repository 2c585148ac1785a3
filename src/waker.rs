//! Swappable wake handles of the input loop and the UI loop.

use vstd::prelude::*;

verus! {

/// The two loops' wake handles. Either may be missing: not yet installed,
/// or withdrawn when its loop exited. A wake aimed at a missing handle is
/// dropped; the caller logs it and goes on.
pub struct WakerRegistry<I, U> {
    input: Option<I>,
    ui: Option<U>,
}

/// Which loops a shutdown broadcast reaches.
#[derive(Clone, Copy, Debug, PartialEq, Eq, Structural)]
pub struct ShutdownTargets {
    pub input: bool,
    pub ui: bool,
}

impl<I, U> WakerRegistry<I, U> {
    /// The input loop's handle.
    pub closed spec fn input_handle(&self) -> Option<I> {
        self.input
    }

    /// The UI loop's handle.
    pub closed spec fn ui_handle(&self) -> Option<U> {
        self.ui
    }

    /// A registry with no handles.
    pub fn new() -> (r: WakerRegistry<I, U>)
        ensures
            r.input_handle() is None,
            r.ui_handle() is None,
    {
        WakerRegistry { input: None, ui: None }
    }

    /// Installs (or replaces) the input loop's handle.
    pub fn set_input_waker(&mut self, handle: I)
        ensures
            final(self).input_handle() == Some(handle),
            final(self).ui_handle() == old(self).ui_handle(),
    {
        self.input = Some(handle);
    }

    /// Installs (or replaces) the UI loop's handle.
    pub fn set_ui_waker(&mut self, handle: U)
        ensures
            final(self).ui_handle() == Some(handle),
            final(self).input_handle() == old(self).input_handle(),
    {
        self.ui = Some(handle);
    }

    /// Withdraws the input loop's handle, returning it.
    pub fn clear_input_waker(&mut self) -> (r: Option<I>)
        ensures
            r == old(self).input_handle(),
            final(self).input_handle() is None,
            final(self).ui_handle() == old(self).ui_handle(),
    {
        self.input.take()
    }

    /// Withdraws the UI loop's handle, returning it.
    pub fn clear_ui_waker(&mut self) -> (r: Option<U>)
        ensures
            r == old(self).ui_handle(),
            final(self).ui_handle() is None,
            final(self).input_handle() == old(self).input_handle(),
    {
        self.ui.take()
    }

    /// The handle to send an input-loop wake through, if installed.
    pub fn wake_input(&self) -> (r: Option<&I>)
        ensures
            r == match self.input_handle() {
                Some(h) => Some(&h),
                None => None,
            },
    {
        self.input.as_ref()
    }

    /// The handle to send a UI-loop wake through, if installed.
    pub fn wake_ui(&self) -> (r: Option<&U>)
        ensures
            r == match self.ui_handle() {
                Some(h) => Some(&h),
                None => None,
            },
    {
        self.ui.as_ref()
    }

    /// Which loops a terminate broadcast can reach now, of those asked for.
    pub fn shutdown_targets(&self, to_input: bool, to_ui: bool) -> (r: ShutdownTargets)
        ensures
            r.input == (to_input && self.input_handle() is Some),
            r.ui == (to_ui && self.ui_handle() is Some),
    {
        ShutdownTargets { input: to_input && self.input.is_some(), ui: to_ui && self.ui.is_some() }
    }
}

} // verus!
