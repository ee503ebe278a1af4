use crate::event::RegisterError;
use vstd::prelude::*;

verus! {

/// The slot after a retract with `ticket`: emptied when it holds the binding
/// published under that ticket, otherwise left as it is.
pub open spec fn slot_after_retract<B>(slot: Option<(u64, B)>, ticket: u64) -> Option<(u64, B)> {
    if slot is Some && slot.unwrap().0 == ticket {
        None
    } else {
        slot
    }
}

/// The ticket handed out after `t`.
pub open spec fn ticket_after(t: u64) -> u64 {
    if t == u64::MAX {
        0
    } else {
        (t + 1) as u64
    }
}

/// A single slot holding at most one hook binding.
///
/// The operating system's low-level keyboard callback carries no context, so
/// the callback finds the active hook through one process-wide registry. Each
/// published binding gets a ticket; only the holder of the current ticket can
/// retract it, so a stale controller never removes another one's binding.
pub struct HookRegistry<B> {
    slot: Option<(u64, B)>,
    next_ticket: u64,
}

impl<B> HookRegistry<B> {
    /// The published binding with its ticket, if any.
    pub closed spec fn slot(&self) -> Option<(u64, B)> {
        self.slot
    }

    /// The ticket that the next publish hands out.
    pub closed spec fn next_ticket(&self) -> u64 {
        self.next_ticket
    }

    /// An empty registry.
    pub fn new() -> (r: Self)
        ensures
            r.slot() is None,
            r.next_ticket() == 0,
    {
        HookRegistry { slot: None, next_ticket: 0 }
    }

    /// Installs `binding` if the slot is free and returns its ticket;
    /// a taken slot is left untouched and `AlreadyRunning` comes back.
    pub fn publish(&mut self, binding: B) -> (r: Result<u64, RegisterError>)
        ensures
            old(self).slot() is Some ==> {
                &&& r == Err::<u64, RegisterError>(RegisterError::AlreadyRunning)
                &&& final(self).slot() == old(self).slot()
                &&& final(self).next_ticket() == old(self).next_ticket()
            },
            old(self).slot() is None ==> {
                &&& r == Ok::<u64, RegisterError>(old(self).next_ticket())
                &&& final(self).slot() == Some((old(self).next_ticket(), binding))
                &&& final(self).next_ticket() == ticket_after(old(self).next_ticket())
            },
    {
        if self.slot.is_some() {
            return Err(RegisterError::AlreadyRunning);
        }
        let ticket = self.next_ticket;
        self.slot = Some((ticket, binding));
        self.next_ticket = if ticket == u64::MAX {
            0
        } else {
            ticket + 1
        };
        Ok(ticket)
    }

    /// Removes the binding published under `ticket`; true when one was removed.
    /// Retracting twice, or with a ticket that is not current, changes nothing.
    pub fn retract(&mut self, ticket: u64) -> (r: bool)
        ensures
            r == (old(self).slot() is Some && old(self).slot().unwrap().0 == ticket),
            final(self).slot() == slot_after_retract(old(self).slot(), ticket),
            final(self).next_ticket() == old(self).next_ticket(),
    {
        let held = match &self.slot {
            Some(entry) => entry.0 == ticket,
            None => false,
        };
        if held {
            self.slot = None;
        }
        held
    }

    /// The published binding, if any.
    pub fn current(&self) -> (r: Option<&B>)
        ensures
            self.slot() is None ==> r is None,
            self.slot() is Some ==> r == Some(&self.slot().unwrap().1),
    {
        match &self.slot {
            Some(entry) => Some(&entry.1),
            None => None,
        }
    }

    /// Whether a binding is published.
    pub fn is_bound(&self) -> (r: bool)
        ensures
            r == self.slot() is Some,
    {
        self.slot.is_some()
    }
}

} // verus!
