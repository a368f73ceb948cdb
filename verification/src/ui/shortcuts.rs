//! The keyboard shortcuts, and when the lock screen needs a clock tick.
use vstd::prelude::*;
use crate::models::ShopProfile;
use crate::pin::spec_remaining_lock_secs;
use crate::text::same_text;
use crate::time::UtcTime;
use crate::ui::history::Stage;
use crate::ui::login::profile_times_ok;

verus! {

/// A pressed key, as far as the shortcuts care.
#[derive(Debug)]
pub enum Key {
    Tab,
    /// A key that types text.
    Character(String),
    Other,
}

/// The modifier keys held with it (`logo` is Cmd on macOS).
#[derive(Debug, Clone, Copy)]
pub struct Modifiers {
    pub shift: bool,
    pub control: bool,
    pub logo: bool,
}

/// What a key press asks for.
#[derive(Debug, Clone, Copy, PartialEq, Eq, Structural)]
pub enum Shortcut {
    Nothing,
    FocusNext,
    FocusPrevious,
    Undo,
    Redo,
}

/// Tab and Shift+Tab move between fields; Ctrl/Cmd+Z undoes,
/// Ctrl/Cmd+Shift+Z and Ctrl/Cmd+Y redo (either case of the letter).
pub open spec fn spec_shortcut(key: Key, m: Modifiers) -> Shortcut {
    match key {
        Key::Tab => if m.shift {
            Shortcut::FocusPrevious
        } else {
            Shortcut::FocusNext
        },
        Key::Character(c) => if !(m.control || m.logo) {
            Shortcut::Nothing
        } else if c@ == "z"@ || c@ == "Z"@ {
            if m.shift {
                Shortcut::Redo
            } else {
                Shortcut::Undo
            }
        } else if c@ == "y"@ || c@ == "Y"@ {
            Shortcut::Redo
        } else {
            Shortcut::Nothing
        },
        Key::Other => Shortcut::Nothing,
    }
}

/// Ctrl and Cmd are the same key to the shortcuts: what a press asks for
/// depends only on the key, on Shift, and on whether Ctrl or Cmd is held.
pub proof fn lemma_ctrl_and_cmd_agree(key: Key, m1: Modifiers, m2: Modifiers)
    requires
        m1.shift == m2.shift,
        (m1.control || m1.logo) == (m2.control || m2.logo),
    ensures
        spec_shortcut(key, m1) == spec_shortcut(key, m2),
{
}

/// With Ctrl or Cmd held, Z undoes and Shift+Z redoes, Y redoes, in either
/// case of the letter; without Ctrl or Cmd a letter is only typed; Tab
/// moves forward and Shift+Tab back.
pub proof fn lemma_shortcut_keys(c: String, m: Modifiers)
    ensures
        (m.control || m.logo) && (c@ == "z"@ || c@ == "Z"@) ==> spec_shortcut(Key::Character(c), m) == (if m.shift {
            Shortcut::Redo
        } else {
            Shortcut::Undo
        }),
        (m.control || m.logo) && (c@ == "y"@ || c@ == "Y"@) ==> spec_shortcut(Key::Character(c), m) == Shortcut::Redo,
        !(m.control || m.logo) ==> spec_shortcut(Key::Character(c), m) == Shortcut::Nothing,
        spec_shortcut(Key::Tab, m) == (if m.shift {
            Shortcut::FocusPrevious
        } else {
            Shortcut::FocusNext
        }),
{
    reveal_strlit("z");
    reveal_strlit("Z");
    reveal_strlit("y");
    reveal_strlit("Y");
    assert("y"@ != "z"@ && "y"@ != "Z"@ && "Y"@ != "z"@ && "Y"@ != "Z"@) by {
        assert("y"@[0] != "z"@[0] && "y"@[0] != "Z"@[0] && "Y"@[0] != "z"@[0] && "Y"@[0] != "Z"@[0]);
    }
}

/// What a key press asks for.
pub fn shortcut(key: &Key, m: Modifiers) -> (r: Shortcut)
    ensures
        r == spec_shortcut(*key, m),
{
    match key {
        Key::Tab => if m.shift {
            Shortcut::FocusPrevious
        } else {
            Shortcut::FocusNext
        },
        Key::Character(c) => {
            if !(m.control || m.logo) {
                Shortcut::Nothing
            } else if same_text(c.as_str(), "z") || same_text(c.as_str(), "Z") {
                if m.shift {
                    Shortcut::Redo
                } else {
                    Shortcut::Undo
                }
            } else if same_text(c.as_str(), "y") || same_text(c.as_str(), "Y") {
                Shortcut::Redo
            } else {
                Shortcut::Nothing
            }
        },
        Key::Other => Shortcut::Nothing,
    }
}

/// Whether the screen needs a tick every second: the lock screen is up and
/// its lockout is still counting down.
pub fn needs_ticks(stage: Stage, shop: &Option<ShopProfile>, now: UtcTime) -> (r: bool)
    requires
        now.representable(),
        profile_times_ok(*shop),
    ensures
        r == (stage == Stage::Login && match *shop {
            Some(p) => spec_remaining_lock_secs(p.pin_locked_until, now) is Some,
            None => false,
        }),
{
    if stage != Stage::Login {
        return false;
    }
    match shop {
        Some(p) => p.lock_remaining_secs(now).is_some(),
        None => false,
    }
}

} // verus!
