//! The state behind "pick a point by clicking": once armed, the next press of
//! a mouse button anywhere on the screen is captured and kept from the window
//! under the pointer, together with the release that follows it.

use vstd::prelude::*;
use crate::model::MouseButton;

verus! {

/// The codes of the button messages that the hook looks at.
pub const WM_LBUTTONDOWN: u32 = 0x0201;

pub const WM_LBUTTONUP: u32 = 0x0202;

pub const WM_RBUTTONDOWN: u32 = 0x0204;

pub const WM_RBUTTONUP: u32 = 0x0205;

pub const WM_MBUTTONDOWN: u32 = 0x0207;

pub const WM_MBUTTONUP: u32 = 0x0208;

/// A captured press: where it was, and which button.
#[derive(Debug, Clone, Copy, PartialEq, Eq)]
pub struct CapturedClick {
    pub x: i32,
    pub y: i32,
    pub button: MouseButton,
}

/// What the hook remembers between two messages.
#[derive(Debug, Clone, Copy, PartialEq, Eq)]
pub struct GetCaptureHookState {
    pub armed: bool,
    pub captured: Option<CapturedClick>,
    /// The release message that is still to be swallowed.
    pub swallow_up_message: Option<u32>,
}

impl GetCaptureHookState {
    /// A hook that waits for nothing and holds nothing.
    pub open spec fn spec_idle() -> GetCaptureHookState {
        GetCaptureHookState { armed: false, captured: None, swallow_up_message: None }
    }

    #[verifier::when_used_as_spec(spec_idle)]
    pub fn idle() -> (state: GetCaptureHookState)
        ensures
            state == GetCaptureHookState::spec_idle(),
    {
        GetCaptureHookState { armed: false, captured: None, swallow_up_message: None }
    }
}

impl Default for GetCaptureHookState {
    fn default() -> (state: GetCaptureHookState)
        ensures
            state == GetCaptureHookState::spec_idle(),
    {
        GetCaptureHookState::idle()
    }
}

/// The button whose press `message` reports, and the message of its release.
pub open spec fn spec_pressed_button(message: u32) -> Option<(MouseButton, u32)> {
    if message == WM_LBUTTONDOWN {
        Some((MouseButton::Left, WM_LBUTTONUP))
    } else if message == WM_RBUTTONDOWN {
        Some((MouseButton::Right, WM_RBUTTONUP))
    } else if message == WM_MBUTTONDOWN {
        Some((MouseButton::Middle, WM_MBUTTONUP))
    } else {
        None
    }
}

#[verifier::when_used_as_spec(spec_pressed_button)]
pub fn pressed_button(message: u32) -> (pressed: Option<(MouseButton, u32)>)
    ensures
        pressed == spec_pressed_button(message),
{
    if message == WM_LBUTTONDOWN {
        Some((MouseButton::Left, WM_LBUTTONUP))
    } else if message == WM_RBUTTONDOWN {
        Some((MouseButton::Right, WM_RBUTTONUP))
    } else if message == WM_MBUTTONDOWN {
        Some((MouseButton::Middle, WM_MBUTTONUP))
    } else {
        None
    }
}

/// The name under which a captured button is reported.
pub open spec fn button_name_text(button: MouseButton) -> Seq<char> {
    match button {
        MouseButton::Left => "Left"@,
        MouseButton::Right => "Right"@,
        MouseButton::Middle => "Middle"@,
    }
}

pub fn button_name(button: MouseButton) -> (name: &'static str)
    ensures
        name@ == button_name_text(button),
{
    match button {
        MouseButton::Left => "Left",
        MouseButton::Right => "Right",
        MouseButton::Middle => "Middle",
    }
}

/// Arms the hook: the next press is captured. What was captured before is dropped.
pub fn arm_get_capture_hook(state: &mut GetCaptureHookState)
    ensures
        *final(state) == (GetCaptureHookState { armed: true, captured: None, swallow_up_message: None }),
{
    state.armed = true;
    state.captured = None;
    state.swallow_up_message = None;
}

/// Disarms the hook and drops what it holds.
pub fn disarm_get_capture_hook(state: &mut GetCaptureHookState)
    ensures
        *final(state) == GetCaptureHookState::spec_idle(),
{
    state.armed = false;
    state.captured = None;
    state.swallow_up_message = None;
}

/// Hands out the captured press, if there is one, and forgets it.
pub fn take_get_capture_hook_result(state: &mut GetCaptureHookState) -> (captured: Option<CapturedClick>)
    ensures
        captured == old(state).captured,
        *final(state) == (GetCaptureHookState { captured: None, ..*old(state) }),
{
    let captured = state.captured;
    state.captured = None;
    captured
}

/// What a button message does to the hook, and whether the message is swallowed.
///
/// The release that belongs to a captured press is swallowed once. An armed
/// hook captures the press of any of the three buttons at `(x, y)`, swallows
/// it, disarms itself and waits for the release. Every other message passes.
pub open spec fn spec_mouse_message(state: GetCaptureHookState, message: u32, x: i32, y: i32) -> (
    GetCaptureHookState,
    bool,
) {
    if state.swallow_up_message == Some(message) {
        (GetCaptureHookState { swallow_up_message: None, ..state }, true)
    } else {
        match spec_pressed_button(message) {
            Some(pressed) => if state.armed {
                (
                    GetCaptureHookState {
                        armed: false,
                        captured: Some(CapturedClick { x, y, button: pressed.0 }),
                        swallow_up_message: Some(pressed.1),
                    },
                    true,
                )
            } else {
                (state, false)
            },
            None => (state, false),
        }
    }
}

/// Feeds one button message to the hook and says whether to swallow it.
pub fn get_capture_mouse_message(state: &mut GetCaptureHookState, message: u32, x: i32, y: i32) -> (swallow: bool)
    ensures
        (*final(state), swallow) == spec_mouse_message(*old(state), message, x, y),
{
    if let Some(up_message) = state.swallow_up_message {
        if message == up_message {
            state.swallow_up_message = None;
            return true;
        }
    }
    if state.armed {
        if let Some((button, up_message)) = pressed_button(message) {
            state.captured = Some(CapturedClick { x, y, button });
            state.armed = false;
            state.swallow_up_message = Some(up_message);
            return true;
        }
    }
    false
}

/// A captured press disarms the hook, and only its own release is swallowed
/// after it: between arming and the next arming at most one press is captured.
pub proof fn lemma_hook_captures_once(state: GetCaptureHookState, message: u32, x: i32, y: i32)
    ensures
        spec_mouse_message(state, message, x, y).0.captured != state.captured ==> state.armed
            && !spec_mouse_message(state, message, x, y).0.armed,
        !state.armed ==> spec_mouse_message(state, message, x, y).0.captured == state.captured,
        !state.armed && state.swallow_up_message is None ==> spec_mouse_message(state, message, x, y) == (
            state,
            false,
        ),
{
}

} // verus!
