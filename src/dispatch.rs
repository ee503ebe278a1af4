use crate::controller::KeyboardHook;
use crate::event::{KeyHookEvent, KeyState};
use crate::watch::passes_filter;
use vstd::prelude::*;
use windows::Win32::UI::WindowsAndMessaging::{HC_ACTION, WM_KEYDOWN, WM_KEYUP};

verus! {

/// What the hook procedure tells the operating system about a notification.
#[derive(Clone, Copy, Debug, PartialEq, Eq, Structural)]
pub enum HookVerdict {
    /// Pass the notification on to the next hook in the chain, unchanged.
    Forward,
    /// Report it handled, so that no later hook or application sees it.
    Swallow,
}

/// Relies on windows' `HC_ACTION`: the hook code of a notification that the
/// hook must act on, 0.
#[verifier::external_body]
fn hook_action_code() -> (r: i32)
    ensures
        r == 0,
{
    HC_ACTION as i32
}

/// Relies on windows' `WM_KEYDOWN`: the message of a key press, 0x100.
#[verifier::external_body]
fn key_down_message() -> (r: u32)
    ensures
        r == 0x100,
{
    WM_KEYDOWN
}

/// Relies on windows' `WM_KEYUP`: the message of a key release, 0x101.
#[verifier::external_body]
fn key_up_message() -> (r: u32)
    ensures
        r == 0x101,
{
    WM_KEYUP
}

/// The transition that a low-level keyboard notification carries: only a
/// notification with the action code (0) and a key-down (0x100) or key-up
/// (0x101) message is one; everything else is forwarded undecoded.
pub open spec fn transition_of(code: i32, message: usize) -> Option<KeyState> {
    if code != 0 {
        None
    } else if message == 0x100 {
        Some(KeyState::Pressed)
    } else if message == 0x101 {
        Some(KeyState::Released)
    } else {
        None
    }
}

/// The event that the handler receives for a notification, if any: a decoded
/// transition of a key that passes the watch set, not yet handled.
pub open spec fn event_for(
    keys: Set<u32>,
    code: i32,
    message: usize,
    virtual_key: u32,
) -> Option<KeyHookEvent> {
    match transition_of(code, message) {
        Some(state) => if passes_filter(keys, virtual_key) {
            Some(KeyHookEvent { virtual_key, state, handled: false })
        } else {
            None
        },
        None => None,
    }
}

/// Filtering: a key transition reaches the handler exactly when the watch set,
/// as it stands when the notification is filtered, is empty or holds the key;
/// the event carries that key and direction and starts unhandled.
pub proof fn lemma_fires_iff_watched(keys: Set<u32>, code: i32, message: usize, virtual_key: u32)
    requires
        transition_of(code, message) is Some,
    ensures
        event_for(keys, code, message, virtual_key) is Some <==> passes_filter(keys, virtual_key),
        event_for(keys, code, message, virtual_key) is Some ==> event_for(
            keys,
            code,
            message,
            virtual_key,
        ) == Some(
            KeyHookEvent {
                virtual_key,
                state: transition_of(code, message).unwrap(),
                handled: false,
            },
        ),
{
}

/// A notification that is no key transition never reaches the handler.
pub proof fn lemma_other_notifications_forwarded(
    keys: Set<u32>,
    code: i32,
    message: usize,
    virtual_key: u32,
)
    requires
        transition_of(code, message) is None,
    ensures
        event_for(keys, code, message, virtual_key) is None,
{
}

/// Decodes the hook code and message of a notification into a transition.
pub fn decode_transition(code: i32, message: usize) -> (r: Option<KeyState>)
    ensures
        r == transition_of(code, message),
{
    if code != hook_action_code() {
        None
    } else if message == key_down_message() as usize {
        Some(KeyState::Pressed)
    } else if message == key_up_message() as usize {
        Some(KeyState::Released)
    } else {
        None
    }
}

/// The filtering half of the hook procedure: the event to hand to the
/// handler, or `None` when the notification is to be forwarded at once.
pub fn filter_notification(
    hook: &KeyboardHook,
    code: i32,
    message: usize,
    virtual_key: u32,
) -> (r: Option<KeyHookEvent>)
    ensures
        r == event_for(hook.watched(), code, message, virtual_key),
{
    match decode_transition(code, message) {
        Some(state) => if hook.watches(virtual_key) {
            Some(KeyHookEvent::new(virtual_key, state))
        } else {
            None
        },
        None => None,
    }
}

/// The deciding half of the hook procedure, after the handler returned: a
/// handled event is swallowed, any other is forwarded.
pub fn verdict(event: &KeyHookEvent) -> (r: HookVerdict)
    ensures
        r == (if event.handled {
            HookVerdict::Swallow
        } else {
            HookVerdict::Forward
        }),
{
    if event.handled {
        HookVerdict::Swallow
    } else {
        HookVerdict::Forward
    }
}

} // verus!
