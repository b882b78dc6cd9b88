//! Reading the configured global hotkey.
use crate::config::Config;
use crate::text::{is_text, lower_of, lowercase};
use vstd::prelude::*;

verus! {

/// Modifier keys held with the hotkey.
#[derive(Clone, Copy, Debug, PartialEq, Eq, Structural)]
pub struct Modifiers {
    pub super_key: bool,
    pub control: bool,
    pub alt: bool,
    pub shift: bool,
}

#[derive(Clone, Copy, Debug, PartialEq, Eq, Structural)]
pub enum Modifier {
    Super,
    Control,
    Alt,
    Shift,
}

/// Keys a hotkey can use.
#[derive(Clone, Copy, Debug, PartialEq, Eq, Structural)]
pub enum KeyCode {
    KeyA,
    KeyB,
    KeyC,
    KeyD,
    KeyE,
    KeyF,
    KeyG,
    KeyH,
    KeyI,
    KeyJ,
    KeyK,
    KeyL,
    KeyM,
    KeyN,
    KeyO,
    KeyP,
    KeyQ,
    KeyR,
    KeyS,
    KeyT,
    KeyU,
    KeyV,
    KeyW,
    KeyX,
    KeyY,
    KeyZ,
    Space,
    F1,
    F2,
    F3,
    F4,
    F5,
    F6,
    F7,
    F8,
    F9,
    F10,
    F11,
    F12,
}

#[derive(Clone, Copy, Debug, PartialEq, Eq, Structural)]
pub struct Hotkey {
    pub modifiers: Modifiers,
    pub key: KeyCode,
}

#[derive(Clone, Debug)]
pub enum HotkeyError {
    /// This configured modifier names no modifier.
    UnknownModifier(String),
    /// The configured key names no key.
    UnknownKey(String),
}

/// The modifier a lowercase name stands for.
pub open spec fn modifier_named(s: Seq<char>) -> Option<Modifier> {
    if s == "super"@ || s == "meta"@ || s == "cmd"@ {
        Some(Modifier::Super)
    } else if s == "ctrl"@ || s == "control"@ {
        Some(Modifier::Control)
    } else if s == "alt"@ {
        Some(Modifier::Alt)
    } else if s == "shift"@ {
        Some(Modifier::Shift)
    } else {
        None
    }
}

/// The key a lowercase name stands for: a letter, "space", or "f1" to "f12".
pub open spec fn key_named(s: Seq<char>) -> Option<KeyCode> {
    if s == "a"@ {
        Some(KeyCode::KeyA)
    } else if s == "b"@ {
        Some(KeyCode::KeyB)
    } else if s == "c"@ {
        Some(KeyCode::KeyC)
    } else if s == "d"@ {
        Some(KeyCode::KeyD)
    } else if s == "e"@ {
        Some(KeyCode::KeyE)
    } else if s == "f"@ {
        Some(KeyCode::KeyF)
    } else if s == "g"@ {
        Some(KeyCode::KeyG)
    } else if s == "h"@ {
        Some(KeyCode::KeyH)
    } else if s == "i"@ {
        Some(KeyCode::KeyI)
    } else if s == "j"@ {
        Some(KeyCode::KeyJ)
    } else if s == "k"@ {
        Some(KeyCode::KeyK)
    } else if s == "l"@ {
        Some(KeyCode::KeyL)
    } else if s == "m"@ {
        Some(KeyCode::KeyM)
    } else if s == "n"@ {
        Some(KeyCode::KeyN)
    } else if s == "o"@ {
        Some(KeyCode::KeyO)
    } else if s == "p"@ {
        Some(KeyCode::KeyP)
    } else if s == "q"@ {
        Some(KeyCode::KeyQ)
    } else if s == "r"@ {
        Some(KeyCode::KeyR)
    } else if s == "s"@ {
        Some(KeyCode::KeyS)
    } else if s == "t"@ {
        Some(KeyCode::KeyT)
    } else if s == "u"@ {
        Some(KeyCode::KeyU)
    } else if s == "v"@ {
        Some(KeyCode::KeyV)
    } else if s == "w"@ {
        Some(KeyCode::KeyW)
    } else if s == "x"@ {
        Some(KeyCode::KeyX)
    } else if s == "y"@ {
        Some(KeyCode::KeyY)
    } else if s == "z"@ {
        Some(KeyCode::KeyZ)
    } else if s == "space"@ {
        Some(KeyCode::Space)
    } else if s == "f1"@ {
        Some(KeyCode::F1)
    } else if s == "f2"@ {
        Some(KeyCode::F2)
    } else if s == "f3"@ {
        Some(KeyCode::F3)
    } else if s == "f4"@ {
        Some(KeyCode::F4)
    } else if s == "f5"@ {
        Some(KeyCode::F5)
    } else if s == "f6"@ {
        Some(KeyCode::F6)
    } else if s == "f7"@ {
        Some(KeyCode::F7)
    } else if s == "f8"@ {
        Some(KeyCode::F8)
    } else if s == "f9"@ {
        Some(KeyCode::F9)
    } else if s == "f10"@ {
        Some(KeyCode::F10)
    } else if s == "f11"@ {
        Some(KeyCode::F11)
    } else if s == "f12"@ {
        Some(KeyCode::F12)
    } else {
        None
    }
}

pub fn modifier_from_lowercase(s: &str) -> (r: Option<Modifier>)
    ensures
        r == modifier_named(s@),
{
    if is_text(s, "super") || is_text(s, "meta") || is_text(s, "cmd") {
        Some(Modifier::Super)
    } else if is_text(s, "ctrl") || is_text(s, "control") {
        Some(Modifier::Control)
    } else if is_text(s, "alt") {
        Some(Modifier::Alt)
    } else if is_text(s, "shift") {
        Some(Modifier::Shift)
    } else {
        None
    }
}

pub fn key_from_lowercase(s: &str) -> (r: Option<KeyCode>)
    ensures
        r == key_named(s@),
{
    if is_text(s, "a") {
        Some(KeyCode::KeyA)
    } else if is_text(s, "b") {
        Some(KeyCode::KeyB)
    } else if is_text(s, "c") {
        Some(KeyCode::KeyC)
    } else if is_text(s, "d") {
        Some(KeyCode::KeyD)
    } else if is_text(s, "e") {
        Some(KeyCode::KeyE)
    } else if is_text(s, "f") {
        Some(KeyCode::KeyF)
    } else if is_text(s, "g") {
        Some(KeyCode::KeyG)
    } else if is_text(s, "h") {
        Some(KeyCode::KeyH)
    } else if is_text(s, "i") {
        Some(KeyCode::KeyI)
    } else if is_text(s, "j") {
        Some(KeyCode::KeyJ)
    } else if is_text(s, "k") {
        Some(KeyCode::KeyK)
    } else if is_text(s, "l") {
        Some(KeyCode::KeyL)
    } else if is_text(s, "m") {
        Some(KeyCode::KeyM)
    } else if is_text(s, "n") {
        Some(KeyCode::KeyN)
    } else if is_text(s, "o") {
        Some(KeyCode::KeyO)
    } else if is_text(s, "p") {
        Some(KeyCode::KeyP)
    } else if is_text(s, "q") {
        Some(KeyCode::KeyQ)
    } else if is_text(s, "r") {
        Some(KeyCode::KeyR)
    } else if is_text(s, "s") {
        Some(KeyCode::KeyS)
    } else if is_text(s, "t") {
        Some(KeyCode::KeyT)
    } else if is_text(s, "u") {
        Some(KeyCode::KeyU)
    } else if is_text(s, "v") {
        Some(KeyCode::KeyV)
    } else if is_text(s, "w") {
        Some(KeyCode::KeyW)
    } else if is_text(s, "x") {
        Some(KeyCode::KeyX)
    } else if is_text(s, "y") {
        Some(KeyCode::KeyY)
    } else if is_text(s, "z") {
        Some(KeyCode::KeyZ)
    } else if is_text(s, "space") {
        Some(KeyCode::Space)
    } else if is_text(s, "f1") {
        Some(KeyCode::F1)
    } else if is_text(s, "f2") {
        Some(KeyCode::F2)
    } else if is_text(s, "f3") {
        Some(KeyCode::F3)
    } else if is_text(s, "f4") {
        Some(KeyCode::F4)
    } else if is_text(s, "f5") {
        Some(KeyCode::F5)
    } else if is_text(s, "f6") {
        Some(KeyCode::F6)
    } else if is_text(s, "f7") {
        Some(KeyCode::F7)
    } else if is_text(s, "f8") {
        Some(KeyCode::F8)
    } else if is_text(s, "f9") {
        Some(KeyCode::F9)
    } else if is_text(s, "f10") {
        Some(KeyCode::F10)
    } else if is_text(s, "f11") {
        Some(KeyCode::F11)
    } else if is_text(s, "f12") {
        Some(KeyCode::F12)
    } else {
        None
    }
}

/// Modifier names are read without regard to case.
pub open spec fn modifier_of(s: Seq<char>) -> Option<Modifier> {
    modifier_named(lower_of(s))
}

pub open spec fn holds_modifier(mods: Seq<String>, m: Modifier) -> bool {
    exists|i: int| 0 <= i < mods.len() && modifier_of(#[trigger] mods[i]@) == Some(m)
}

pub open spec fn all_modifiers_known(mods: Seq<String>) -> bool {
    forall|i: int| 0 <= i < mods.len() ==> (#[trigger] modifier_of(mods[i]@)) is Some
}

/// The set of modifiers the names stand for.
pub open spec fn modifiers_of(mods: Seq<String>) -> Modifiers {
    Modifiers {
        super_key: holds_modifier(mods, Modifier::Super),
        control: holds_modifier(mods, Modifier::Control),
        alt: holds_modifier(mods, Modifier::Alt),
        shift: holds_modifier(mods, Modifier::Shift),
    }
}

pub fn add_modifier(m: Modifiers, k: Modifier) -> (r: Modifiers)
    ensures
        r.super_key == (m.super_key || k == Modifier::Super),
        r.control == (m.control || k == Modifier::Control),
        r.alt == (m.alt || k == Modifier::Alt),
        r.shift == (m.shift || k == Modifier::Shift),
{
    match k {
        Modifier::Super => Modifiers { super_key: true, ..m },
        Modifier::Control => Modifiers { control: true, ..m },
        Modifier::Alt => Modifiers { alt: true, ..m },
        Modifier::Shift => Modifiers { shift: true, ..m },
    }
}

/// The hotkey of a configuration. Modifier and key names are read without
/// regard to case; the first modifier that names nothing is reported, and
/// only then an unknown key.
pub fn parse_hotkey(config: &Config) -> (r: Result<Hotkey, HotkeyError>)
    ensures
        ({
            let mods = config.hotkey.modifiers@;
            let key = key_named(lower_of(config.hotkey.key@));
            &&& r is Ok <==> all_modifiers_known(mods) && key is Some
            &&& r is Ok ==> r->Ok_0 == Hotkey { modifiers: modifiers_of(mods), key: key->0 }
            &&& !all_modifiers_known(mods) ==> exists|i: int|
                0 <= i < mods.len() && modifier_of(mods[i]@) is None && (forall|j: int|
                    0 <= j < i ==> (#[trigger] modifier_of(mods[j]@)) is Some) && (r->Err_0 matches HotkeyError::UnknownModifier(
                    m,
                ) && m@ == mods[i]@)
            &&& all_modifiers_known(mods) && key is None ==> (r->Err_0 matches HotkeyError::UnknownKey(k)
                && k@ == config.hotkey.key@)
        }),
{
    let mods = &config.hotkey.modifiers;
    let mut set = Modifiers { super_key: false, control: false, alt: false, shift: false };
    let mut i: usize = 0;
    while i < mods.len()
        invariant
            i <= mods@.len(),
            mods == config.hotkey.modifiers,
            forall|j: int| 0 <= j < i ==> (#[trigger] modifier_of(mods@[j]@)) is Some,
            set == modifiers_of(mods@.subrange(0, i as int)),
        decreases mods.len() - i,
    {
        let lowered = lowercase(mods[i].as_str());
        match modifier_from_lowercase(lowered.as_str()) {
            Some(m) => {
                let ghost before = mods@.subrange(0, i as int);
                let ghost after = mods@.subrange(0, i as int + 1);
                set = add_modifier(set, m);
                proof {
                    assert(after =~= before.push(mods@[i as int]));
                    assert forall|k: Modifier| holds_modifier(after, k) == (holds_modifier(before, k) || k == m) by {
                        if holds_modifier(after, k) {
                            let j = choose|j: int| 0 <= j < after.len() && modifier_of(#[trigger] after[j]@) == Some(k);
                            if j < i {
                                assert(before[j] == after[j]);
                            }
                        }
                        if holds_modifier(before, k) {
                            let j = choose|j: int| 0 <= j < before.len() && modifier_of(#[trigger] before[j]@) == Some(k);
                            assert(before[j] == after[j]);
                        }
                        if k == m {
                            assert(after[i as int] == mods@[i as int]);
                        }
                    }
                    assert(set == modifiers_of(after));
                }
            },
            None => {
                proof {
                    assert(!all_modifiers_known(mods@));
                }
                return Err(HotkeyError::UnknownModifier(mods[i].clone()));
            },
        }
        i = i + 1;
    }
    proof {
        assert(mods@.subrange(0, mods@.len() as int) =~= mods@);
    }
    let key = lowercase(config.hotkey.key.as_str());
    match key_from_lowercase(key.as_str()) {
        Some(code) => Ok(Hotkey { modifiers: set, key: code }),
        None => Err(HotkeyError::UnknownKey(config.hotkey.key.clone())),
    }
}

} // verus!
