//! Global keyboard events, normalised for the subscriber.
//!
//! The listener itself lives with the host. Here is what it decides: which
//! modifiers are held, and what is reported for a key.

use vstd::prelude::*;

verus! {

/// Which modifiers are held down.
#[derive(Debug, Clone, Copy, PartialEq, Eq, Structural)]
pub struct Modifiers {
    pub ctrl: bool,
    pub shift: bool,
    pub alt: bool,
    pub meta: bool,
}

/// Whether a key went down or came up.
#[derive(Debug, Clone, Copy, PartialEq, Eq, Structural)]
pub enum KeyAction {
    Press,
    Release,
}

/// A key event as the subscriber receives it.
#[derive(Debug, PartialEq, Eq)]
pub struct GlobalKeyEvent {
    pub action: KeyAction,
    pub key: String,
    pub name: Option<String>,
    pub modifiers: Modifiers,
}

impl Clone for GlobalKeyEvent {
    fn clone(&self) -> (copy: Self)
        ensures
            copy == *self,
    {
        let name = match &self.name {
            Some(text) => Some(text.clone()),
            None => None,
        };
        GlobalKeyEvent {
            action: self.action,
            key: self.key.clone(),
            name,
            modifiers: self.modifiers,
        }
    }
}

/// The keys that count as modifiers.
#[derive(Debug, Clone, Copy, PartialEq, Eq, Structural)]
pub enum ModifierKey {
    ControlLeft,
    ControlRight,
    ShiftLeft,
    ShiftRight,
    Alt,
    AltGr,
    MetaLeft,
    MetaRight,
}

/// What kind of event the listener saw.
#[derive(Debug, Clone, Copy, PartialEq, Eq, Structural)]
pub enum RawEventKind {
    KeyPress,
    KeyRelease,
    /// Mouse movement, buttons, wheel: not reported.
    Other,
}

/// An event of the listener, reduced to what is read of it.
#[derive(Debug, PartialEq, Eq)]
pub struct RawKeyEvent {
    pub kind: RawEventKind,
    /// The modifier that the key is, if it is one.
    pub modifier: Option<ModifierKey>,
    /// The key's own name.
    pub key: String,
    /// The text that the key produced, if any.
    pub name: Option<String>,
}

/// How many keys of each modifier are held down. Left and right keys of
/// one modifier share a counter.
#[derive(Debug, Clone, Copy, PartialEq, Eq, Structural)]
pub struct ModifierCounters {
    pub ctrl: u8,
    pub shift: u8,
    pub alt: u8,
    pub meta: u8,
}

/// A counter after one more key went down or came up. It stops at both
/// ends of its range.
pub open spec fn bumped(counter: u8, is_down: bool) -> u8 {
    if is_down {
        if counter == u8::MAX {
            counter
        } else {
            (counter + 1) as u8
        }
    } else {
        if counter == 0 {
            counter
        } else {
            (counter - 1) as u8
        }
    }
}

/// The counters after `key` went down or came up.
pub open spec fn applied(
    counters: ModifierCounters,
    key: ModifierKey,
    is_down: bool,
) -> ModifierCounters {
    match key {
        ModifierKey::ControlLeft | ModifierKey::ControlRight => ModifierCounters {
            ctrl: bumped(counters.ctrl, is_down),
            ..counters
        },
        ModifierKey::ShiftLeft | ModifierKey::ShiftRight => ModifierCounters {
            shift: bumped(counters.shift, is_down),
            ..counters
        },
        ModifierKey::Alt | ModifierKey::AltGr => ModifierCounters {
            alt: bumped(counters.alt, is_down),
            ..counters
        },
        ModifierKey::MetaLeft | ModifierKey::MetaRight => ModifierCounters {
            meta: bumped(counters.meta, is_down),
            ..counters
        },
    }
}

/// The counters after an event of the listener.
pub open spec fn counted(counters: ModifierCounters, event: RawKeyEvent) -> ModifierCounters {
    match (event.kind, event.modifier) {
        (RawEventKind::KeyPress, Some(key)) => applied(counters, key, true),
        (RawEventKind::KeyRelease, Some(key)) => applied(counters, key, false),
        _ => counters,
    }
}

impl ModifierCounters {
    /// No key is held.
    pub fn new() -> (counters: ModifierCounters)
        ensures
            counters == (ModifierCounters { ctrl: 0, shift: 0, alt: 0, meta: 0 }),
    {
        ModifierCounters { ctrl: 0, shift: 0, alt: 0, meta: 0 }
    }

    /// The modifiers of which at least one key is held.
    pub open spec fn held(self) -> Modifiers {
        Modifiers {
            ctrl: self.ctrl > 0,
            shift: self.shift > 0,
            alt: self.alt > 0,
            meta: self.meta > 0,
        }
    }

    /// Tells which modifiers are held.
    pub fn snapshot(&self) -> (modifiers: Modifiers)
        ensures
            modifiers == self.held(),
    {
        Modifiers {
            ctrl: self.ctrl > 0,
            shift: self.shift > 0,
            alt: self.alt > 0,
            meta: self.meta > 0,
        }
    }
}

/// Counts one more key down, or one less, without leaving the range.
pub fn bump(counter: &mut u8, is_down: bool)
    ensures
        *final(counter) == bumped(*old(counter), is_down),
{
    if is_down {
        *counter = counter.saturating_add(1);
    } else {
        *counter = counter.saturating_sub(1);
    }
}

/// Counts `key` going down or coming up on the counter of its modifier.
pub fn apply_modifier(counters: &mut ModifierCounters, key: ModifierKey, is_down: bool)
    ensures
        *final(counters) == applied(*old(counters), key, is_down),
{
    match key {
        ModifierKey::ControlLeft | ModifierKey::ControlRight => bump(&mut counters.ctrl, is_down),
        ModifierKey::ShiftLeft | ModifierKey::ShiftRight => bump(&mut counters.shift, is_down),
        ModifierKey::Alt | ModifierKey::AltGr => bump(&mut counters.alt, is_down),
        ModifierKey::MetaLeft | ModifierKey::MetaRight => bump(&mut counters.meta, is_down),
    }
}

/// Turns an event of the listener into what the subscriber receives. Key
/// presses and releases are reported with the modifiers held after the
/// event; nothing else is reported, and nothing else is counted.
pub fn translate_key_event(counters: &mut ModifierCounters, event: RawKeyEvent) -> (report: Option<
    GlobalKeyEvent,
>)
    ensures
        *final(counters) == counted(*old(counters), event),
        event.kind is Other <==> report is None,
        report matches Some(shown) ==> {
            &&& shown.action == if event.kind is KeyPress {
                KeyAction::Press
            } else {
                KeyAction::Release
            }
            &&& shown.key == event.key
            &&& shown.name == event.name
            &&& shown.modifiers == final(counters).held()
        },
{
    let action = match event.kind {
        RawEventKind::KeyPress => KeyAction::Press,
        RawEventKind::KeyRelease => KeyAction::Release,
        RawEventKind::Other => {
            return None;
        },
    };
    let is_down = match action {
        KeyAction::Press => true,
        KeyAction::Release => false,
    };
    match event.modifier {
        Some(key) => apply_modifier(counters, key, is_down),
        None => {},
    }
    Some(
        GlobalKeyEvent {
            action,
            key: event.key,
            name: event.name,
            modifiers: counters.snapshot(),
        },
    )
}

} // verus!
