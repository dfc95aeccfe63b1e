//! Pointer and keyboard input requests sent through a remote desktop session:
//! button codes, key press sequences, typed keysyms and result messages.

use vstd::prelude::*;
use crate::text::{chars_of, concat2, concat3, i64_to_string, int_decimal};

verus! {

/// Delay between press and release of a click or key tap, in milliseconds.
pub const TAP_DELAY_MS: u64 = 50;

/// Delay after each press and release while typing text, in milliseconds.
pub const TYPING_DELAY_MS: u64 = 20;

/// The Linux evdev code of the left mouse button (`BTN_LEFT`).
pub const BTN_LEFT: i32 = 0x110;

/// The Linux evdev code of the right mouse button (`BTN_RIGHT`).
pub const BTN_RIGHT: i32 = 0x111;

/// The Linux evdev code of the middle mouse button (`BTN_MIDDLE`).
pub const BTN_MIDDLE: i32 = 0x112;

/// Mouse button types.
#[derive(Debug, Clone, Copy, PartialEq, Eq, Structural)]
pub enum MouseButton {
    Left,
    Right,
    Middle,
}

/// The evdev button code of a mouse button (BTN_LEFT, BTN_RIGHT, BTN_MIDDLE).
pub open spec fn button_code(b: MouseButton) -> i32 {
    match b {
        MouseButton::Left => 0x110,
        MouseButton::Right => 0x111,
        MouseButton::Middle => 0x112,
    }
}

/// Each mouse button is sent as its own evdev code from
/// `linux/input-event-codes.h`, and distinct buttons as distinct codes.
pub proof fn lemma_button_codes(a: MouseButton, b: MouseButton)
    ensures
        button_code(MouseButton::Left) == BTN_LEFT,
        button_code(MouseButton::Right) == BTN_RIGHT,
        button_code(MouseButton::Middle) == BTN_MIDDLE,
        a != b ==> button_code(a) != button_code(b),
{
}

/// The name `Debug` prints for a mouse button.
pub open spec fn button_label(b: MouseButton) -> Seq<char> {
    match b {
        MouseButton::Left => "Left"@,
        MouseButton::Right => "Right"@,
        MouseButton::Middle => "Middle"@,
    }
}

impl MouseButton {
    /// The evdev button code.
    pub fn to_button_code(&self) -> (r: i32)
        ensures
            r == button_code(*self),
    {
        match self {
            MouseButton::Left => 0x110,
            MouseButton::Right => 0x111,
            MouseButton::Middle => 0x112,
        }
    }

    /// The button's name.
    pub fn label(&self) -> (r: &'static str)
        ensures
            r@ == button_label(*self),
    {
        match self {
            MouseButton::Left => "Left",
            MouseButton::Right => "Right",
            MouseButton::Middle => "Middle",
        }
    }
}

/// The button clicked when none is given.
pub fn default_button() -> (r: MouseButton)
    ensures
        r == MouseButton::Left,
{
    MouseButton::Left
}

/// Keyboard key action.
#[derive(Debug, Clone, Copy, PartialEq, Eq, Structural)]
pub enum KeyAction {
    Press,
    Release,
    Tap,
}

/// The key action performed when none is given.
pub fn default_key_action() -> (r: KeyAction)
    ensures
        r == KeyAction::Tap,
{
    KeyAction::Tap
}

/// State of a key or button in an input notification.
#[derive(Debug, Clone, Copy, PartialEq, Eq, Structural)]
pub enum KeyState {
    Pressed,
    Released,
}

/// The key states sent for an action, in order; a tap pauses
/// `TAP_DELAY_MS` between its two states.
pub open spec fn key_states_for(action: KeyAction) -> Seq<KeyState> {
    match action {
        KeyAction::Press => seq![KeyState::Pressed],
        KeyAction::Release => seq![KeyState::Released],
        KeyAction::Tap => seq![KeyState::Pressed, KeyState::Released],
    }
}

/// What each key action leaves the key in: a press sends one notification
/// and leaves the key held down; a release sends one and leaves it up; a
/// tap presses it and then releases it. So the key ends pressed exactly for
/// a press, and a release notification is sent exactly when the action is
/// not a press.
pub proof fn lemma_key_action_effect(action: KeyAction)
    ensures
        key_states_for(action).len() > 0,
        key_states_for(action).last() == KeyState::Pressed <==> action == KeyAction::Press,
        key_states_for(action).contains(KeyState::Released) <==> action != KeyAction::Press,
        key_states_for(action).contains(KeyState::Pressed) <==> action != KeyAction::Release,
        key_states_for(action).len() == 2 <==> action == KeyAction::Tap,
        action == KeyAction::Tap ==> key_states_for(action)[0] == KeyState::Pressed,
        action != KeyAction::Tap ==> key_states_for(action).len() == 1,
{
    match action {
        KeyAction::Press => {
            assert(key_states_for(action)[0] == KeyState::Pressed);
        },
        KeyAction::Release => {
            assert(key_states_for(action)[0] == KeyState::Released);
        },
        KeyAction::Tap => {
            assert(key_states_for(action)[0] == KeyState::Pressed);
            assert(key_states_for(action)[1] == KeyState::Released);
        },
    }
}

/// The key states sent for an action.
pub fn key_action_states(action: KeyAction) -> (r: Vec<KeyState>)
    ensures
        r@ == key_states_for(action),
{
    let r = match action {
        KeyAction::Press => vec![KeyState::Pressed],
        KeyAction::Release => vec![KeyState::Released],
        KeyAction::Tap => vec![KeyState::Pressed, KeyState::Released],
    };
    assert(r@ =~= key_states_for(action));
    r
}

/// The message reported after a key action.
pub open spec fn key_action_message(keycode: i32, action: KeyAction) -> Seq<char> {
    "Key "@ + int_decimal(keycode as int) + match action {
        KeyAction::Press => " pressed"@,
        KeyAction::Release => " released"@,
        KeyAction::Tap => " tapped"@,
    }
}

/// The message reported after a key action.
pub fn key_message(keycode: i32, action: KeyAction) -> (r: String)
    ensures
        r@ == key_action_message(keycode, action),
{
    let n = i64_to_string(keycode as i64);
    let suffix = match action {
        KeyAction::Press => " pressed",
        KeyAction::Release => " released",
        KeyAction::Tap => " tapped",
    };
    concat3("Key ", n.as_str(), suffix)
}

/// The message reported after a click.
pub fn click_message(button: MouseButton) -> (r: String)
    ensures
        r@ == "Clicked "@ + button_label(button) + " button"@,
{
    concat3("Clicked ", button.label(), " button")
}

/// The keysym typed for a character: its code point (keysyms 0x20-0x7E match
/// ASCII).
pub open spec fn keysym_of(c: char) -> i32 {
    (c as u32) as i32
}

/// A character is typed as the keysym equal to its code point, so distinct
/// characters are typed as distinct keysyms.
pub proof fn lemma_keysym_is_code_point(c: char, d: char)
    ensures
        keysym_of(c) as int == c as int,
        c != d ==> keysym_of(c) != keysym_of(d),
{
    assert(c as u32 <= 0x10FFFF);
    assert(d as u32 <= 0x10FFFF);
}

/// The keysyms typed for a text, one per character, in order; each is
/// pressed and released with `TYPING_DELAY_MS` after each.
pub fn text_keysyms(text: &str) -> (r: Vec<i32>)
    ensures
        r@ == text@.map_values(|c: char| keysym_of(c)),
{
    let cs = chars_of(text);
    let mut r: Vec<i32> = Vec::new();
    let mut i: usize = 0;
    while i < cs.len()
        invariant
            cs@ == text@,
            i <= cs.len(),
            r@ == cs@.subrange(0, i as int).map_values(|c: char| keysym_of(c)),
        decreases cs.len() - i,
    {
        let c = cs[i];
        let k = (c as u32) as i32;
        r.push(k);
        assert(cs@.subrange(0, i + 1).map_values(|c: char| keysym_of(c)) =~= cs@.subrange(
            0,
            i as int,
        ).map_values(|c: char| keysym_of(c)).push(keysym_of(c)));
        i = i + 1;
    }
    assert(cs@.subrange(0, cs.len() as int) =~= cs@);
    r
}

/// The message reported after typing a text.
pub fn typed_message(text: &str) -> (r: String)
    ensures
        r@ == "Typed: "@ + text@,
{
    concat2("Typed: ", text)
}

/// Click a mouse button.
pub struct MouseClickInput {
    pub session_id: String,
    pub button: MouseButton,
}

/// Send a keyboard key.
pub struct KeyboardKeyInput {
    pub session_id: String,
    /// Key code (Linux evdev keycode).
    pub keycode: i32,
    pub action: KeyAction,
}

/// Type a text string.
pub struct KeyboardTypeInput {
    pub session_id: String,
    pub text: String,
}

} // verus!
