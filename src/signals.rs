//! The process-wide interrupt handler list.

use vstd::prelude::*;

verus! {

/// Callbacks to run on an interrupt, in registration order, behind one
/// OS-level handler that is installed at most once.
pub struct InterruptHandlers<F> {
    handlers: Vec<F>,
    installed: bool,
}

impl<F> InterruptHandlers<F> {
    /// The registered callbacks.
    pub closed spec fn callbacks(&self) -> Seq<F> {
        self.handlers@
    }

    /// Whether the OS-level handler is (being) installed.
    pub closed spec fn is_installed(&self) -> bool {
        self.installed
    }

    /// No callbacks, no OS-level handler.
    pub fn new() -> (r: InterruptHandlers<F>)
        ensures
            r.callbacks() == Seq::<F>::empty(),
            !r.is_installed(),
    {
        InterruptHandlers { handlers: Vec::new(), installed: false }
    }

    /// Adds `handler` after the others. Returns whether the caller must now
    /// install the OS-level handler: only on the first registration, or the
    /// first after a failed installation.
    pub fn register_ctrlc_handler(&mut self, handler: F) -> (r: bool)
        ensures
            final(self).callbacks() == old(self).callbacks().push(handler),
            r == !old(self).is_installed(),
            final(self).is_installed(),
    {
        self.handlers.push(handler);
        let install = !self.installed;
        self.installed = true;
        install
    }

    /// The OS-level handler could not be installed; the next registration
    /// tries again. The callbacks stay.
    pub fn installation_failed(&mut self)
        ensures
            final(self).callbacks() == old(self).callbacks(),
            !final(self).is_installed(),
    {
        self.installed = false;
    }

    /// Number of registered callbacks.
    pub fn len(&self) -> (r: usize)
        ensures
            r == self.callbacks().len(),
    {
        self.handlers.len()
    }

    /// Mutable access to the callback at `i`, to run it.
    pub fn handler_mut(&mut self, i: usize) -> (r: &mut F)
        requires
            i < old(self).callbacks().len(),
        ensures
            *r == old(self).callbacks()[i as int],
            final(self).callbacks() == old(self).callbacks().update(i as int, *final(r)),
            final(self).is_installed() == old(self).is_installed(),
    {
        &mut self.handlers[i]
    }
}

} // verus!
