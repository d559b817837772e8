//! Keyboard input on its way to the text UI: what a key press means to a
//! terminal, and the queue in which key events wait for the application.
//!
//! Events leave the queue in the order in which they entered it. Nothing
//! is dropped but what the rules here filter out: key releases, presses of
//! modifier keys alone, and keys that a terminal has no name for.

use std::collections::VecDeque;
use vstd::prelude::*;

verus! {

/// A physical key, as far as the terminal cares which one it is.
#[derive(Clone, Copy, Debug, PartialEq, Eq, Structural)]
pub enum PhysicalKey {
    Space,
    Enter,
    NumpadEnter,
    Escape,
    Backspace,
    Tab,
    ArrowUp,
    ArrowDown,
    ArrowLeft,
    ArrowRight,
    Home,
    End,
    PageUp,
    PageDown,
    Delete,
    Insert,
    /// A function key by its number.
    F(u8),
    CapsLock,
    ScrollLock,
    NumLock,
    Pause,
    ShiftLeft,
    ShiftRight,
    ControlLeft,
    ControlRight,
    AltLeft,
    AltRight,
    SuperLeft,
    SuperRight,
    /// Any other key.
    Other,
}

/// A key as a terminal names it.
#[derive(Clone, Copy, Debug, PartialEq, Eq, Structural)]
pub enum KeyCode {
    Backspace,
    Enter,
    Left,
    Right,
    Up,
    Down,
    Home,
    End,
    PageUp,
    PageDown,
    Tab,
    Delete,
    Insert,
    F(u8),
    Char(char),
    Esc,
    CapsLock,
    ScrollLock,
    NumLock,
    Pause,
}

/// Modifier bit: shift.
pub const SHIFT: u8 = 1;

/// Modifier bit: alt.
pub const ALT: u8 = 2;

/// Modifier bit: control.
pub const CTRL: u8 = 4;

/// Modifier bit: super.
pub const SUPER: u8 = 8;

/// Whether a key event is a first press or a repeat of a held key.
#[derive(Clone, Copy, Debug, PartialEq, Eq, Structural)]
pub enum KeyEventKind {
    Press,
    Repeat,
}

/// A key event for the text UI.
#[derive(Clone, Copy, Debug, PartialEq, Eq, Structural)]
pub struct KeyEvent {
    pub code: KeyCode,
    /// The modifier bits that were held.
    pub modifiers: u8,
    pub kind: KeyEventKind,
}

/// A keyboard event from the host.
#[derive(Clone, Copy, Debug, PartialEq, Eq, Structural)]
pub struct KeyboardInput {
    pub key_code: PhysicalKey,
    /// The first character of the text that the key produced, if any.
    pub text: Option<char>,
    /// Pressed (else released).
    pub pressed: bool,
    /// A repeat of a held key.
    pub repeat: bool,
}

/// Which modifier keys are held down.
#[derive(Clone, Copy, Debug, PartialEq, Eq, Structural)]
pub struct HeldKeys {
    pub control_left: bool,
    pub control_right: bool,
    pub shift_left: bool,
    pub shift_right: bool,
    pub alt_left: bool,
    pub alt_right: bool,
    pub super_left: bool,
    pub super_right: bool,
}

/// The control characters: the code points below the space, and from
/// delete to the end of the second control block.
pub open spec fn control(ch: char) -> bool {
    (ch as int) < 0x20 || (0x7f <= (ch as int) && (ch as int) < 0xa0)
}

/// Whether `ch` is a control character.
pub fn is_control(ch: char) -> (b: bool)
    ensures
        b == control(ch),
{
    let c: u32 = ch as u32;
    c < 0x20 || (0x7f <= c && c < 0xa0)
}

/// The terminal's name for a physical key, if it has one.
pub open spec fn named(key: PhysicalKey) -> Option<KeyCode> {
    match key {
        PhysicalKey::Space => Some(KeyCode::Char(' ')),
        PhysicalKey::Enter => Some(KeyCode::Enter),
        PhysicalKey::NumpadEnter => Some(KeyCode::Enter),
        PhysicalKey::Escape => Some(KeyCode::Esc),
        PhysicalKey::Backspace => Some(KeyCode::Backspace),
        PhysicalKey::Tab => Some(KeyCode::Tab),
        PhysicalKey::ArrowUp => Some(KeyCode::Up),
        PhysicalKey::ArrowDown => Some(KeyCode::Down),
        PhysicalKey::ArrowLeft => Some(KeyCode::Left),
        PhysicalKey::ArrowRight => Some(KeyCode::Right),
        PhysicalKey::Home => Some(KeyCode::Home),
        PhysicalKey::End => Some(KeyCode::End),
        PhysicalKey::PageUp => Some(KeyCode::PageUp),
        PhysicalKey::PageDown => Some(KeyCode::PageDown),
        PhysicalKey::Delete => Some(KeyCode::Delete),
        PhysicalKey::Insert => Some(KeyCode::Insert),
        PhysicalKey::F(n) => if 1 <= n <= 12 {
            Some(KeyCode::F(n))
        } else {
            None
        },
        PhysicalKey::CapsLock => Some(KeyCode::CapsLock),
        PhysicalKey::ScrollLock => Some(KeyCode::ScrollLock),
        PhysicalKey::NumLock => Some(KeyCode::NumLock),
        PhysicalKey::Pause => Some(KeyCode::Pause),
        _ => None,
    }
}

/// The key that an event stands for: the character that it produced,
/// unless that is a control character or there is none; else the
/// terminal's name for the physical key.
pub open spec fn key_of(event: KeyboardInput) -> Option<KeyCode> {
    match event.text {
        Some(ch) => if control(ch) {
            named(event.key_code)
        } else {
            Some(KeyCode::Char(ch))
        },
        None => named(event.key_code),
    }
}

/// The modifier bits for the keys that are held: a modifier counts when
/// its left or its right key is down.
pub open spec fn modifiers_of(keys: HeldKeys) -> u8 {
    ((if keys.control_left || keys.control_right {
        CTRL
    } else {
        0u8
    }) + (if keys.shift_left || keys.shift_right {
        SHIFT
    } else {
        0u8
    }) + (if keys.alt_left || keys.alt_right {
        ALT
    } else {
        0u8
    }) + (if keys.super_left || keys.super_right {
        SUPER
    } else {
        0u8
    })) as u8
}

/// The key event that a keyboard event becomes, if its key has a name.
pub open spec fn event_of(event: KeyboardInput, keys: HeldKeys) -> Option<KeyEvent> {
    match key_of(event) {
        Some(code) => Some(
            KeyEvent {
                code,
                modifiers: modifiers_of(keys),
                kind: if event.repeat {
                    KeyEventKind::Repeat
                } else {
                    KeyEventKind::Press
                },
            },
        ),
        None => None,
    }
}

/// The key events that a run of keyboard events becomes, in order: one
/// for each press whose key has a name.
pub open spec fn forwarded(events: Seq<KeyboardInput>, keys: HeldKeys) -> Seq<KeyEvent>
    decreases events.len(),
{
    if events.len() == 0 {
        Seq::empty()
    } else {
        let before = forwarded(events.drop_last(), keys);
        let last = events.last();
        if last.pressed && event_of(last, keys) is Some {
            before.push(event_of(last, keys)->0)
        } else {
            before
        }
    }
}

/// Names the key of a keyboard event for the terminal.
pub fn bevy_keycode_to_terminput(event: &KeyboardInput) -> (r: Option<KeyCode>)
    ensures
        r == key_of(*event),
{
    if let Some(ch) = event.text {
        if !is_control(ch) {
            return Some(KeyCode::Char(ch));
        }
    }
    match event.key_code {
        PhysicalKey::Space => Some(KeyCode::Char(' ')),
        PhysicalKey::Enter => Some(KeyCode::Enter),
        PhysicalKey::NumpadEnter => Some(KeyCode::Enter),
        PhysicalKey::Escape => Some(KeyCode::Esc),
        PhysicalKey::Backspace => Some(KeyCode::Backspace),
        PhysicalKey::Tab => Some(KeyCode::Tab),
        PhysicalKey::ArrowUp => Some(KeyCode::Up),
        PhysicalKey::ArrowDown => Some(KeyCode::Down),
        PhysicalKey::ArrowLeft => Some(KeyCode::Left),
        PhysicalKey::ArrowRight => Some(KeyCode::Right),
        PhysicalKey::Home => Some(KeyCode::Home),
        PhysicalKey::End => Some(KeyCode::End),
        PhysicalKey::PageUp => Some(KeyCode::PageUp),
        PhysicalKey::PageDown => Some(KeyCode::PageDown),
        PhysicalKey::Delete => Some(KeyCode::Delete),
        PhysicalKey::Insert => Some(KeyCode::Insert),
        PhysicalKey::F(n) => if 1 <= n && n <= 12 {
            Some(KeyCode::F(n))
        } else {
            None
        },
        PhysicalKey::CapsLock => Some(KeyCode::CapsLock),
        PhysicalKey::ScrollLock => Some(KeyCode::ScrollLock),
        PhysicalKey::NumLock => Some(KeyCode::NumLock),
        PhysicalKey::Pause => Some(KeyCode::Pause),
        _ => None,
    }
}

/// Turns a keyboard event into a key event for the text UI.
pub fn bevy_key_to_terminal_event(event: &KeyboardInput, keys: &HeldKeys) -> (r: Option<KeyEvent>)
    ensures
        r == event_of(*event, *keys),
{
    let mut modifiers: u8 = 0;
    if keys.control_left || keys.control_right {
        modifiers = modifiers + CTRL;
    }
    if keys.shift_left || keys.shift_right {
        modifiers = modifiers + SHIFT;
    }
    if keys.alt_left || keys.alt_right {
        modifiers = modifiers + ALT;
    }
    if keys.super_left || keys.super_right {
        modifiers = modifiers + SUPER;
    }
    let code = match bevy_keycode_to_terminput(event) {
        Some(code) => code,
        None => {
            return None;
        },
    };
    let kind = if event.repeat {
        KeyEventKind::Repeat
    } else {
        KeyEventKind::Press
    };
    Some(KeyEvent { code, modifiers, kind })
}

/// The key events that wait for the application, oldest first.
pub struct TerminalInputQueue {
    pub events: VecDeque<KeyEvent>,
}

impl Default for TerminalInputQueue {
    fn default() -> (q: TerminalInputQueue)
        ensures
            q.events@ == Seq::<KeyEvent>::empty(),
    {
        TerminalInputQueue { events: VecDeque::new() }
    }
}

impl TerminalInputQueue {
    /// Takes the oldest event out of the queue.
    pub fn pop(&mut self) -> (e: Option<KeyEvent>)
        ensures
            match e {
                Some(event) => old(self).events@.len() > 0 && event == old(self).events@[0]
                    && final(self).events@ == old(self).events@.subrange(
                    1,
                    old(self).events@.len() as int,
                ),
                None => old(self).events@.len() == 0 && final(self).events@ == old(self).events@,
            },
    {
        self.events.pop_front()
    }
}

/// Puts the key events for a run of keyboard events into the queue,
/// behind the ones that wait there, in the order of the run. Releases,
/// and presses of keys that the terminal has no name for, are left out.
pub fn forward_input(keyboard_events: &[KeyboardInput], keys: &HeldKeys, queue: &mut TerminalInputQueue)
    ensures
        final(queue).events@ == old(queue).events@ + forwarded(keyboard_events@, *keys),
{
    let mut i: usize = 0;
    assert(keyboard_events@.take(0) =~= Seq::<KeyboardInput>::empty());
    assert(queue.events@ =~= old(queue).events@ + forwarded(keyboard_events@.take(0), *keys));
    while i < keyboard_events.len()
        invariant
            i <= keyboard_events@.len(),
            queue.events@ == old(queue).events@ + forwarded(keyboard_events@.take(i as int), *keys),
        decreases keyboard_events@.len() - i,
    {
        let event = keyboard_events[i];
        proof {
            let upto = keyboard_events@.take(i as int + 1);
            assert(upto.drop_last() =~= keyboard_events@.take(i as int));
            assert(upto.last() == event);
        }
        if event.pressed {
            if let Some(terminal_event) = bevy_key_to_terminal_event(&event, keys) {
                queue.events.push_back(terminal_event);
                assert(queue.events@ =~= old(queue).events@ + forwarded(
                    keyboard_events@.take(i as int + 1),
                    *keys,
                ));
            }
        }
        i += 1;
    }
    assert(keyboard_events@.take(keyboard_events@.len() as int) =~= keyboard_events@);
}

/// Events leave the queue in the order in which they entered it: after a
/// run of keyboard events was forwarded to an empty queue, the first key
/// event out is the one of the first press that has a name.
pub proof fn lemma_forwarding_keeps_order(events: Seq<KeyboardInput>, keys: HeldKeys, more: KeyboardInput)
    ensures
        forwarded(events.push(more), keys).len() >= forwarded(events, keys).len(),
        forall|i: int|
            0 <= i < forwarded(events, keys).len() ==> forwarded(events.push(more), keys)[i]
                == forwarded(events, keys)[i],
        !more.pressed ==> forwarded(events.push(more), keys) == forwarded(events, keys),
{
    assert(events.push(more).drop_last() =~= events);
}

} // verus!
