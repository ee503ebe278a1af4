use crate::event::RegisterError;
use crate::registry::{slot_after_retract, HookRegistry};
use crate::watch::{passes_filter, WatchSet};
use vstd::prelude::*;

verus! {

/// Lifecycle of a hook controller.
#[derive(Clone, Copy, Debug, PartialEq, Eq, Structural)]
pub enum HookPhase {
    Idle,
    /// The binding is published and the pump thread is installing the hook.
    Starting,
    /// The native hook is installed and the pump thread is running.
    Running,
    /// The pump thread has been asked to exit and is being joined.
    Stopping,
}

/// What the caller of `begin_start` does next.
#[derive(Clone, Copy, Debug, PartialEq, Eq, Structural)]
pub enum StartAction {
    /// The hook already runs: report success, install nothing.
    Ready,
    /// Spawn the pump thread, let it install the native hook, wait for its
    /// report, and hand that report to `finish_start`.
    Install,
}

/// What the caller of `begin_stop` does next.
#[derive(Clone, Copy, Debug, PartialEq, Eq, Structural)]
pub enum StopAction {
    /// Nothing runs: return at once.
    Nothing,
    /// Post a wake-up message to the pump thread, so that its blocking message
    /// wait returns without waiting for a key press, join it, then call
    /// `finish_stop`.
    WakeAndJoin,
}

/// The result of `begin_start` in phase `p` when the registry slot is taken
/// (`slot_taken`) or free.
pub open spec fn begin_start_result(p: HookPhase, slot_taken: bool) -> Result<StartAction, RegisterError> {
    match p {
        HookPhase::Running => Ok(StartAction::Ready),
        HookPhase::Idle => if slot_taken {
            Err(RegisterError::AlreadyRunning)
        } else {
            Ok(StartAction::Install)
        },
        _ => Err(RegisterError::AlreadyRunning),
    }
}

/// The phase after `begin_start`.
pub open spec fn phase_after_begin_start(p: HookPhase, slot_taken: bool) -> HookPhase {
    if p == HookPhase::Idle && !slot_taken {
        HookPhase::Starting
    } else {
        p
    }
}

/// The result of `finish_start` given the pump thread's report `installed`.
pub open spec fn finish_start_result(p: HookPhase, installed: bool) -> Result<(), RegisterError> {
    if p == HookPhase::Running || (p == HookPhase::Starting && installed) {
        Ok(())
    } else {
        Err(RegisterError::HookFailed)
    }
}

/// The phase after `finish_start`.
pub open spec fn phase_after_finish_start(p: HookPhase, installed: bool) -> HookPhase {
    if p == HookPhase::Starting {
        if installed {
            HookPhase::Running
        } else {
            HookPhase::Idle
        }
    } else {
        p
    }
}

/// The action that `begin_stop` asks for in phase `p`.
pub open spec fn stop_action_of(p: HookPhase) -> StopAction {
    if p == HookPhase::Starting || p == HookPhase::Running {
        StopAction::WakeAndJoin
    } else {
        StopAction::Nothing
    }
}

/// The phase after `begin_stop`.
pub open spec fn phase_after_begin_stop(p: HookPhase) -> HookPhase {
    if p == HookPhase::Starting || p == HookPhase::Running {
        HookPhase::Stopping
    } else {
        p
    }
}

/// The phase after `finish_stop`.
pub open spec fn phase_after_finish_stop(p: HookPhase) -> HookPhase {
    if p == HookPhase::Stopping {
        HookPhase::Idle
    } else {
        p
    }
}

/// The phase after a whole stop: `begin_stop`, then, when it asks for the
/// pump thread to be joined, `finish_stop`.
pub open spec fn phase_after_stop(p: HookPhase) -> HookPhase {
    if stop_action_of(p) == StopAction::WakeAndJoin {
        phase_after_finish_stop(phase_after_begin_stop(p))
    } else {
        p
    }
}

/// Whether a whole start (`begin_start`, then `finish_start` with the pump
/// thread's report `installed` when an install is asked for) succeeds.
pub open spec fn start_succeeds(p: HookPhase, slot_taken: bool, installed: bool) -> bool {
    begin_start_result(p, slot_taken) == Ok::<StartAction, RegisterError>(StartAction::Ready) || (
    begin_start_result(p, slot_taken) == Ok::<StartAction, RegisterError>(StartAction::Install)
        && installed)
}

/// The phase after a whole start.
pub open spec fn phase_after_start(p: HookPhase, slot_taken: bool, installed: bool) -> HookPhase {
    if begin_start_result(p, slot_taken) == Ok::<StartAction, RegisterError>(StartAction::Install) {
        phase_after_finish_start(phase_after_begin_start(p, slot_taken), installed)
    } else {
        phase_after_begin_start(p, slot_taken)
    }
}

/// Starting twice: once a start has succeeded the hook runs, and a second
/// start, whatever the registry holds, reports success again without asking
/// for another install.
pub proof fn lemma_start_twice(p: HookPhase, slot_taken: bool, installed: bool, taken_again: bool)
    requires
        start_succeeds(p, slot_taken, installed),
    ensures
        phase_after_start(p, slot_taken, installed) == HookPhase::Running,
        begin_start_result(phase_after_start(p, slot_taken, installed), taken_again) == Ok::<
            StartAction,
            RegisterError,
        >(StartAction::Ready),
        phase_after_begin_start(phase_after_start(p, slot_taken, installed), taken_again)
            == HookPhase::Running,
{
}

/// Stopping twice, or stopping a hook that never started: the hook ends idle
/// and any stop after the first asks for nothing, so it never waits on a join.
pub proof fn lemma_stop_twice(p: HookPhase)
    requires
        p != HookPhase::Stopping,
    ensures
        phase_after_stop(p) == HookPhase::Idle,
        stop_action_of(phase_after_stop(p)) == StopAction::Nothing,
        phase_after_stop(phase_after_stop(p)) == HookPhase::Idle,
        stop_action_of(HookPhase::Idle) == StopAction::Nothing,
        phase_after_stop(HookPhase::Idle) == HookPhase::Idle,
{
}

/// Stopping right after a successful start, with no key event in between,
/// asks for the pump thread to be woken by a posted message before it is
/// joined, and leaves the hook idle.
pub proof fn lemma_stop_after_start_wakes(p: HookPhase, slot_taken: bool, installed: bool)
    requires
        start_succeeds(p, slot_taken, installed),
    ensures
        stop_action_of(phase_after_start(p, slot_taken, installed)) == StopAction::WakeAndJoin,
        phase_after_stop(phase_after_start(p, slot_taken, installed)) == HookPhase::Idle,
{
}

/// Teardown of a hook that is not idle, whose binding holds the registry slot
/// under its ticket: the stop leaves the hook idle and the slot empty, so a
/// fresh start is then asked to install again.
pub proof fn lemma_teardown_frees_slot<B>(p: HookPhase, slot: Option<(u64, B)>, ticket: u64)
    requires
        p == HookPhase::Starting || p == HookPhase::Running,
        slot is Some,
        slot.unwrap().0 == ticket,
    ensures
        stop_action_of(p) == StopAction::WakeAndJoin,
        phase_after_stop(p) == HookPhase::Idle,
        slot_after_retract(slot, ticket) is None,
        begin_start_result(phase_after_stop(p), slot_after_retract(slot, ticket) is Some) == Ok::<
            StartAction,
            RegisterError,
        >(StartAction::Install),
{
}

/// The decisions of a global keyboard hook: its watch set, its lifecycle
/// phase, and the registry ticket of the binding it published.
///
/// The caller runs the pump thread and the native hook and reports back; each
/// step here says what to do next. `stop` must not be driven from inside the
/// handler, which runs on the pump thread that `stop` joins.
pub struct KeyboardHook {
    phase: HookPhase,
    keys: WatchSet,
    ticket: u64,
}

impl KeyboardHook {
    /// The lifecycle phase.
    pub closed spec fn state(&self) -> HookPhase {
        self.phase
    }

    /// The watched key codes.
    pub closed spec fn watched(&self) -> Set<u32> {
        self.keys@
    }

    /// The registry ticket of this hook's binding; meaningful while not idle.
    pub closed spec fn ticket(&self) -> u64 {
        self.ticket
    }

    /// An idle hook that watches every key.
    pub fn new() -> (r: Self)
        ensures
            r.state() == HookPhase::Idle,
            r.watched() == Set::<u32>::empty(),
    {
        KeyboardHook { phase: HookPhase::Idle, keys: WatchSet::new(), ticket: 0 }
    }

    /// Adds `vk_code` to the watch set; valid in every phase.
    pub fn register_key(&mut self, vk_code: u32)
        ensures
            final(self).watched() == old(self).watched().insert(vk_code),
            final(self).state() == old(self).state(),
            final(self).ticket() == old(self).ticket(),
    {
        self.keys.add(vk_code);
    }

    /// Removes `vk_code` from the watch set; valid in every phase.
    pub fn unregister_key(&mut self, vk_code: u32)
        ensures
            final(self).watched() == old(self).watched().remove(vk_code),
            final(self).state() == old(self).state(),
            final(self).ticket() == old(self).ticket(),
    {
        self.keys.remove(vk_code);
    }

    /// Whether a notification for `vk_code` passes the watch set.
    pub fn watches(&self, vk_code: u32) -> (r: bool)
        ensures
            r == passes_filter(self.watched(), vk_code),
    {
        self.keys.contains_or_empty(vk_code)
    }

    /// The current phase.
    pub fn phase(&self) -> (r: HookPhase)
        ensures
            r == self.state(),
    {
        self.phase
    }

    /// Whether the native hook is installed.
    pub fn is_running(&self) -> (r: bool)
        ensures
            r == (self.state() == HookPhase::Running),
    {
        self.phase == HookPhase::Running
    }

    /// First step of a start. A running hook reports `Ready` and changes
    /// nothing. An idle hook publishes `binding` into the registry and moves
    /// to `Starting`, unless another binding holds the slot, which is
    /// reported as `AlreadyRunning`. A hook that is starting or stopping
    /// rejects a second start with `AlreadyRunning`.
    pub fn begin_start<B>(&mut self, registry: &mut HookRegistry<B>, binding: B) -> (r: Result<
        StartAction,
        RegisterError,
    >)
        ensures
            r == begin_start_result(old(self).state(), old(registry).slot() is Some),
            final(self).state() == phase_after_begin_start(
                old(self).state(),
                old(registry).slot() is Some,
            ),
            final(self).watched() == old(self).watched(),
            r == Ok::<StartAction, RegisterError>(StartAction::Install) ==> {
                &&& final(self).ticket() == old(registry).next_ticket()
                &&& final(registry).slot() == Some((old(registry).next_ticket(), binding))
            },
            r != Ok::<StartAction, RegisterError>(StartAction::Install) ==> {
                &&& final(self).ticket() == old(self).ticket()
                &&& final(registry).slot() == old(registry).slot()
            },
    {
        match self.phase {
            HookPhase::Running => Ok(StartAction::Ready),
            HookPhase::Idle => {
                match registry.publish(binding) {
                    Ok(ticket) => {
                        self.ticket = ticket;
                        self.phase = HookPhase::Starting;
                        Ok(StartAction::Install)
                    },
                    Err(e) => Err(e),
                }
            },
            _ => Err(RegisterError::AlreadyRunning),
        }
    }

    /// Second step of a start: the pump thread's report. On success the hook
    /// runs; on failure the binding is retracted, the hook is idle again and
    /// `HookFailed` comes back. Outside `Starting` nothing changes, and a
    /// running hook reports success while an idle or stopping one reports
    /// `HookFailed`.
    pub fn finish_start<B>(&mut self, registry: &mut HookRegistry<B>, installed: bool) -> (r: Result<
        (),
        RegisterError,
    >)
        ensures
            r == finish_start_result(old(self).state(), installed),
            final(self).state() == phase_after_finish_start(old(self).state(), installed),
            final(self).watched() == old(self).watched(),
            final(self).ticket() == old(self).ticket(),
            old(self).state() == HookPhase::Starting && !installed ==> final(registry).slot()
                == slot_after_retract(old(registry).slot(), old(self).ticket()),
            !(old(self).state() == HookPhase::Starting && !installed) ==> final(registry).slot()
                == old(registry).slot(),
    {
        match self.phase {
            HookPhase::Starting => {
                if installed {
                    self.phase = HookPhase::Running;
                    Ok(())
                } else {
                    registry.retract(self.ticket);
                    self.phase = HookPhase::Idle;
                    Err(RegisterError::HookFailed)
                }
            },
            HookPhase::Running => Ok(()),
            _ => Err(RegisterError::HookFailed),
        }
    }

    /// First step of a stop. A starting or running hook moves to `Stopping`
    /// and asks for its pump thread to be woken and joined; otherwise nothing
    /// changes and nothing is to be done.
    pub fn begin_stop(&mut self) -> (r: StopAction)
        ensures
            r == stop_action_of(old(self).state()),
            final(self).state() == phase_after_begin_stop(old(self).state()),
            final(self).watched() == old(self).watched(),
            final(self).ticket() == old(self).ticket(),
    {
        match self.phase {
            HookPhase::Starting | HookPhase::Running => {
                self.phase = HookPhase::Stopping;
                StopAction::WakeAndJoin
            },
            _ => StopAction::Nothing,
        }
    }

    /// Last step of a stop, after the pump thread has exited: the binding is
    /// retracted and the hook is idle. Outside `Stopping` nothing changes.
    pub fn finish_stop<B>(&mut self, registry: &mut HookRegistry<B>)
        ensures
            final(self).state() == phase_after_finish_stop(old(self).state()),
            final(self).watched() == old(self).watched(),
            final(self).ticket() == old(self).ticket(),
            old(self).state() == HookPhase::Stopping ==> final(registry).slot() == slot_after_retract(
                old(registry).slot(),
                old(self).ticket(),
            ),
            old(self).state() != HookPhase::Stopping ==> final(registry).slot() == old(
                registry,
            ).slot(),
    {
        if self.phase == HookPhase::Stopping {
            registry.retract(self.ticket);
            self.phase = HookPhase::Idle;
        }
    }
}

} // verus!
