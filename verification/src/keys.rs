//! Physical keys and the keystroke handling of the keyboard listener.
use vstd::prelude::*;
use crate::stats::TypingStats;
use crate::time::{Timestamp, utc_now, MAX_UTC_SECONDS};

verus! {

/// A physical key of a standard QWERTY layout, as the keyboard hook reports it.
#[derive(Clone, Copy, Debug, PartialEq, Eq, Structural)]
pub enum Key {
    Alt,
    AltGr,
    Backspace,
    CapsLock,
    ControlLeft,
    ControlRight,
    Delete,
    DownArrow,
    End,
    Escape,
    F1,
    F10,
    F11,
    F12,
    F2,
    F3,
    F4,
    F5,
    F6,
    F7,
    F8,
    F9,
    Home,
    LeftArrow,
    MetaLeft,
    MetaRight,
    PageDown,
    PageUp,
    Return,
    RightArrow,
    ShiftLeft,
    ShiftRight,
    Space,
    Tab,
    UpArrow,
    PrintScreen,
    ScrollLock,
    Pause,
    NumLock,
    BackQuote,
    Num1,
    Num2,
    Num3,
    Num4,
    Num5,
    Num6,
    Num7,
    Num8,
    Num9,
    Num0,
    Minus,
    Equal,
    KeyQ,
    KeyW,
    KeyE,
    KeyR,
    KeyT,
    KeyY,
    KeyU,
    KeyI,
    KeyO,
    KeyP,
    LeftBracket,
    RightBracket,
    KeyA,
    KeyS,
    KeyD,
    KeyF,
    KeyG,
    KeyH,
    KeyJ,
    KeyK,
    KeyL,
    SemiColon,
    Quote,
    BackSlash,
    IntlBackslash,
    KeyZ,
    KeyX,
    KeyC,
    KeyV,
    KeyB,
    KeyN,
    KeyM,
    Comma,
    Dot,
    Slash,
    Insert,
    KpReturn,
    KpMinus,
    KpPlus,
    KpMultiply,
    KpDivide,
    Kp0,
    Kp1,
    Kp2,
    Kp3,
    Kp4,
    Kp5,
    Kp6,
    Kp7,
    Kp8,
    Kp9,
    KpDelete,
    Function,
    Unknown(u32),
}

/// The keys that produce a printable character: letters, digits, space,
/// punctuation and the numeric keypad.
pub open spec fn printable(key: Key) -> bool {
    match key {
        Key::KeyA | Key::KeyB | Key::KeyC | Key::KeyD | Key::KeyE | Key::KeyF | Key::KeyG
        | Key::KeyH | Key::KeyI | Key::KeyJ | Key::KeyK | Key::KeyL | Key::KeyM | Key::KeyN
        | Key::KeyO | Key::KeyP | Key::KeyQ | Key::KeyR | Key::KeyS | Key::KeyT | Key::KeyU
        | Key::KeyV | Key::KeyW | Key::KeyX | Key::KeyY | Key::KeyZ => true,
        Key::Num0 | Key::Num1 | Key::Num2 | Key::Num3 | Key::Num4 | Key::Num5 | Key::Num6
        | Key::Num7 | Key::Num8 | Key::Num9 => true,
        Key::Space | Key::Comma | Key::Dot | Key::Slash | Key::SemiColon | Key::Quote
        | Key::LeftBracket | Key::RightBracket | Key::BackSlash | Key::Minus | Key::Equal
        | Key::BackQuote => true,
        Key::Kp0 | Key::Kp1 | Key::Kp2 | Key::Kp3 | Key::Kp4 | Key::Kp5 | Key::Kp6 | Key::Kp7
        | Key::Kp8 | Key::Kp9 | Key::KpMinus | Key::KpPlus | Key::KpMultiply | Key::KpDivide
        | Key::KpDelete => true,
        _ => false,
    }
}

/// The letter keys, A to Z.
pub open spec fn letter_key(key: Key) -> bool {
    ||| key == Key::KeyA ||| key == Key::KeyB ||| key == Key::KeyC ||| key == Key::KeyD
    ||| key == Key::KeyE ||| key == Key::KeyF ||| key == Key::KeyG ||| key == Key::KeyH
    ||| key == Key::KeyI ||| key == Key::KeyJ ||| key == Key::KeyK ||| key == Key::KeyL
    ||| key == Key::KeyM ||| key == Key::KeyN ||| key == Key::KeyO ||| key == Key::KeyP
    ||| key == Key::KeyQ ||| key == Key::KeyR ||| key == Key::KeyS ||| key == Key::KeyT
    ||| key == Key::KeyU ||| key == Key::KeyV ||| key == Key::KeyW ||| key == Key::KeyX
    ||| key == Key::KeyY ||| key == Key::KeyZ
}

/// The digit keys of the main block, 0 to 9.
pub open spec fn digit_key(key: Key) -> bool {
    ||| key == Key::Num0 ||| key == Key::Num1 ||| key == Key::Num2 ||| key == Key::Num3
    ||| key == Key::Num4 ||| key == Key::Num5 ||| key == Key::Num6 ||| key == Key::Num7
    ||| key == Key::Num8 ||| key == Key::Num9
}

/// The space bar and the punctuation keys of the main block.
pub open spec fn punctuation_key(key: Key) -> bool {
    ||| key == Key::Space ||| key == Key::Comma ||| key == Key::Dot ||| key == Key::Slash
    ||| key == Key::SemiColon ||| key == Key::Quote ||| key == Key::LeftBracket
    ||| key == Key::RightBracket ||| key == Key::BackSlash ||| key == Key::Minus
    ||| key == Key::Equal ||| key == Key::BackQuote
}

/// The digit, operator and decimal keys of the numeric keypad (not its Enter key).
pub open spec fn keypad_symbol_key(key: Key) -> bool {
    ||| key == Key::Kp0 ||| key == Key::Kp1 ||| key == Key::Kp2 ||| key == Key::Kp3
    ||| key == Key::Kp4 ||| key == Key::Kp5 ||| key == Key::Kp6 ||| key == Key::Kp7
    ||| key == Key::Kp8 ||| key == Key::Kp9 ||| key == Key::KpMinus ||| key == Key::KpPlus
    ||| key == Key::KpMultiply ||| key == Key::KpDivide ||| key == Key::KpDelete
}

/// A key is printable exactly when it is a letter, a digit, the space bar or
/// a punctuation key, or a keypad digit or operator: modifiers, function,
/// navigation and editing keys, Enter, Tab, Escape and unknown keys are not.
pub proof fn law_printable_keys(key: Key)
    ensures
        printable(key) <==> letter_key(key) || digit_key(key) || punctuation_key(key)
            || keypad_symbol_key(key),
        letter_key(key) || digit_key(key) ==> printable(key),
{
}

/// Checks whether a key produces a printable character.
pub fn is_printable_key(key: &Key) -> (r: bool)
    ensures
        r == printable(*key),
{
    match key {
        Key::KeyA | Key::KeyB | Key::KeyC | Key::KeyD | Key::KeyE | Key::KeyF | Key::KeyG
        | Key::KeyH | Key::KeyI | Key::KeyJ | Key::KeyK | Key::KeyL | Key::KeyM | Key::KeyN
        | Key::KeyO | Key::KeyP | Key::KeyQ | Key::KeyR | Key::KeyS | Key::KeyT | Key::KeyU
        | Key::KeyV | Key::KeyW | Key::KeyX | Key::KeyY | Key::KeyZ => true,
        Key::Num0 | Key::Num1 | Key::Num2 | Key::Num3 | Key::Num4 | Key::Num5 | Key::Num6
        | Key::Num7 | Key::Num8 | Key::Num9 => true,
        Key::Space | Key::Comma | Key::Dot | Key::Slash | Key::SemiColon | Key::Quote
        | Key::LeftBracket | Key::RightBracket | Key::BackSlash | Key::Minus | Key::Equal
        | Key::BackQuote => true,
        Key::Kp0 | Key::Kp1 | Key::Kp2 | Key::Kp3 | Key::Kp4 | Key::Kp5 | Key::Kp6 | Key::Kp7
        | Key::Kp8 | Key::Kp9 | Key::KpMinus | Key::KpPlus | Key::KpMultiply | Key::KpDivide
        | Key::KpDelete => true,
        _ => false,
    }
}

/// Handles one keyboard event of the listener at `now`: while tracking, a key
/// press is counted (printable or not, by its key) and the new total keystroke
/// count is returned to be sent on; anything else leaves the statistics as they are.
pub fn on_keyboard_event_at(
    stats: &mut TypingStats,
    tracking: bool,
    pressed: Option<Key>,
    now: Timestamp,
) -> (sent: Option<u64>)
    requires
        tracking && pressed is Some ==> old(stats).can_record(printable(pressed->0), now),
    ensures
        tracking && pressed is Some ==> {
            &&& *final(stats) == old(stats).after_keystroke(printable(pressed->0), now)
            &&& sent == Some(final(stats).total_keystrokes)
        },
        !(tracking && pressed is Some) ==> *final(stats) == *old(stats) && sent is None,
{
    if !tracking {
        return None;
    }
    match pressed {
        Some(key) => {
            let is_printable = is_printable_key(&key);
            stats.record_keystroke_at(is_printable, now);
            Some(stats.total_keystrokes)
        },
        None => None,
    }
}

/// Handles one keyboard event of the listener at the time of the call, by
/// the system clock: while tracking, a key press is counted and the new total
/// keystroke count is returned; anything else, or a key press whose time
/// cannot be read from the clock, changes nothing and returns `None`.
pub fn on_keyboard_event(stats: &mut TypingStats, tracking: bool, pressed: Option<Key>) -> (sent:
    Option<u64>)
    requires
        tracking && pressed is Some ==> {
            &&& old(stats).total_keystrokes < u64::MAX
            &&& printable(pressed->0) ==> old(stats).printable_chars < u64::MAX
        },
    ensures
        sent is Some ==> tracking && pressed is Some && exists|now: Timestamp|
            {
                &&& 0 <= now.secs <= MAX_UTC_SECONDS
                &&& now.nanos < 1_000_000_000
                &&& *final(stats) == #[trigger] old(stats).after_keystroke(printable(pressed->0), now)
                &&& sent == Some(final(stats).total_keystrokes)
            },
        sent is None ==> *final(stats) == *old(stats),
        !(tracking && pressed is Some) ==> sent is None,
{
    if !tracking || pressed.is_none() {
        return None;
    }
    match utc_now() {
        Some(now) => on_keyboard_event_at(stats, tracking, pressed, now),
        None => None,
    }
}

} // verus!
