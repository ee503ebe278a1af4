use vstd::prelude::*;

verus! {

/// Direction of a key transition.
#[derive(Clone, Copy, Debug, PartialEq, Eq, Structural)]
pub enum KeyState {
    Pressed,
    Released,
}

/// One key transition as handed to the handler.
///
/// Everything but `handled` is fixed when the event is built; the handler's
/// only output is `handled`, which asks that the notification be swallowed
/// instead of being passed on to the next hook in the chain.
#[derive(Clone, Copy, Debug, PartialEq, Eq, Structural)]
pub struct KeyHookEvent {
    /// Platform key code (a virtual-key code on Windows).
    pub virtual_key: u32,
    pub state: KeyState,
    pub handled: bool,
}

impl KeyHookEvent {
    /// A fresh, not yet handled event.
    pub fn new(virtual_key: u32, state: KeyState) -> (r: Self)
        ensures
            r.virtual_key == virtual_key,
            r.state == state,
            !r.handled,
    {
        KeyHookEvent { virtual_key, state, handled: false }
    }

    /// Marks the event as consumed; the key code and direction stay.
    pub fn mark_handled(&mut self)
        ensures
            final(self).virtual_key == old(self).virtual_key,
            final(self).state == old(self).state,
            final(self).handled,
    {
        self.handled = true;
    }
}

/// Why a hook could not be started.
#[derive(Clone, Copy, Debug, PartialEq, Eq, Structural)]
pub enum RegisterError {
    /// The operating system refused to install the native hook.
    HookFailed,
    /// Another hook instance holds the process-wide registry slot.
    AlreadyRunning,
}

} // verus!
