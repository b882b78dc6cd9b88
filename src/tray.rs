//! Decisions behind the system-tray icon: which desktop runs, whether it can
//! show the icon, where icon files may lie, and the menu's labels.
use crate::config::HotkeyConfig;
use crate::text::{contains_text, has_infix, joined, lower_of, lowercase, upper_of, uppercase};
use vstd::prelude::*;

verus! {

#[derive(Clone, Copy, Debug, PartialEq, Eq, Structural)]
pub enum DesktopKind {
    Gnome,
    KdePlasma,
    Xfce,
    Unknown,
}

/// The desktop named by `XDG_CURRENT_DESKTOP`, if it names a known one.
pub open spec fn desktop_from_current(v: Seq<char>) -> Option<DesktopKind> {
    let l = lower_of(v);
    if has_infix(l, "gnome"@) {
        Some(DesktopKind::Gnome)
    } else if has_infix(l, "kde"@) || has_infix(l, "plasma"@) {
        Some(DesktopKind::KdePlasma)
    } else if has_infix(l, "xfce"@) {
        Some(DesktopKind::Xfce)
    } else {
        None
    }
}

/// The desktop named by `DESKTOP_SESSION`, if it names a known one.
pub open spec fn desktop_from_session(v: Seq<char>) -> Option<DesktopKind> {
    let l = lower_of(v);
    if has_infix(l, "gnome"@) {
        Some(DesktopKind::Gnome)
    } else if has_infix(l, "plasma"@) {
        Some(DesktopKind::KdePlasma)
    } else {
        None
    }
}

pub open spec fn desktop_of(current: Option<String>, session: Option<String>) -> DesktopKind {
    match (current, session) {
        (Some(c), _) if desktop_from_current(c@) is Some => desktop_from_current(c@)->0,
        (_, Some(s)) if desktop_from_session(s@) is Some => desktop_from_session(s@)->0,
        _ => DesktopKind::Unknown,
    }
}

fn desktop_in_current(v: &String) -> (r: Option<DesktopKind>)
    ensures
        r == desktop_from_current(v@),
{
    let l = lowercase(v.as_str());
    if contains_text(l.as_str(), "gnome") {
        Some(DesktopKind::Gnome)
    } else if contains_text(l.as_str(), "kde") || contains_text(l.as_str(), "plasma") {
        Some(DesktopKind::KdePlasma)
    } else if contains_text(l.as_str(), "xfce") {
        Some(DesktopKind::Xfce)
    } else {
        None
    }
}

fn desktop_in_session(v: &String) -> (r: Option<DesktopKind>)
    ensures
        r == desktop_from_session(v@),
{
    let l = lowercase(v.as_str());
    if contains_text(l.as_str(), "gnome") {
        Some(DesktopKind::Gnome)
    } else if contains_text(l.as_str(), "plasma") {
        Some(DesktopKind::KdePlasma)
    } else {
        None
    }
}

/// The running desktop, from the values of `XDG_CURRENT_DESKTOP` and
/// `DESKTOP_SESSION` (each absent when unset); the first one that names a
/// known desktop decides.
pub fn detect_desktop_environment(current_desktop: &Option<String>, desktop_session: &Option<String>) -> (r:
    DesktopKind)
    ensures
        r == desktop_of(*current_desktop, *desktop_session),
{
    if let Some(c) = current_desktop {
        if let Some(d) = desktop_in_current(c) {
            return d;
        }
    }
    if let Some(s) = desktop_session {
        if let Some(d) = desktop_in_session(s) {
            return d;
        }
    }
    DesktopKind::Unknown
}

impl DesktopKind {
    pub fn name(&self) -> (r: String)
        ensures
            r@ == match *self {
                DesktopKind::Gnome => "GNOME"@,
                DesktopKind::KdePlasma => "KDE/Plasma"@,
                DesktopKind::Xfce => "XFCE"@,
                DesktopKind::Unknown => "Unknown"@,
            },
    {
        match self {
            DesktopKind::Gnome => String::from_str("GNOME"),
            DesktopKind::KdePlasma => String::from_str("KDE/Plasma"),
            DesktopKind::Xfce => String::from_str("XFCE"),
            DesktopKind::Unknown => String::from_str("Unknown"),
        }
    }
}

pub open spec fn is_watcher_name(n: Seq<char>) -> bool {
    n == "org.kde.StatusNotifierWatcher"@ || has_infix(n, "StatusNotifierWatcher"@)
}

/// Whether a StatusNotifierWatcher is among the names on the session bus:
/// without one, no tray icon can be shown.
pub fn has_status_notifier_watcher(names: &Vec<String>) -> (r: bool)
    ensures
        r == exists|i: int| 0 <= i < names@.len() && is_watcher_name(#[trigger] names@[i]@),
{
    let mut i: usize = 0;
    while i < names.len()
        invariant
            i <= names@.len(),
            forall|k: int| 0 <= k < i ==> !is_watcher_name(#[trigger] names@[k]@),
        decreases names.len() - i,
    {
        let n = names[i].as_str();
        if crate::text::is_text(n, "org.kde.StatusNotifierWatcher") || contains_text(n, "StatusNotifierWatcher") {
            assert(is_watcher_name(names@[i as int]@));
            return true;
        }
        i = i + 1;
    }
    false
}

/// Theme directories searched for icons.
pub open spec fn icon_dirs() -> Seq<Seq<char>> {
    seq![
        "/usr/share/icons/hicolor"@,
        "/usr/share/icons/Adwaita"@,
        "/usr/share/icons/gnome"@,
        "/usr/share/pixmaps"@,
    ]
}

/// Places below a theme directory, before and after the icon's name.
pub open spec fn icon_patterns() -> Seq<(Seq<char>, Seq<char>)> {
    seq![
        ("/16x16/status/"@, ".png"@),
        ("/22x22/status/"@, ".png"@),
        ("/24x24/status/"@, ".png"@),
        ("/48x48/status/"@, ".png"@),
        ("/scalable/status/"@, ".svg"@),
        ("/16x16/devices/"@, ".png"@),
        ("/22x22/devices/"@, ".png"@),
        ("/24x24/devices/"@, ".png"@),
        ("/48x48/devices/"@, ".png"@),
        ("/scalable/devices/"@, ".svg"@),
        ("/"@, ".png"@),
        ("/"@, ".svg"@),
    ]
}

pub open spec fn icon_path(d: int, p: int, icon: Seq<char>) -> Seq<char> {
    icon_dirs()[d] + icon_patterns()[p].0 + icon + icon_patterns()[p].1
}

fn icon_dir(d: usize) -> (r: &'static str)
    requires
        d < 4,
    ensures
        r@ == icon_dirs()[d as int],
{
    if d == 0 {
        "/usr/share/icons/hicolor"
    } else if d == 1 {
        "/usr/share/icons/Adwaita"
    } else if d == 2 {
        "/usr/share/icons/gnome"
    } else {
        "/usr/share/pixmaps"
    }
}

fn icon_pattern(p: usize) -> (r: (&'static str, &'static str))
    requires
        p < 12,
    ensures
        r.0@ == icon_patterns()[p as int].0,
        r.1@ == icon_patterns()[p as int].1,
{
    if p == 0 {
        ("/16x16/status/", ".png")
    } else if p == 1 {
        ("/22x22/status/", ".png")
    } else if p == 2 {
        ("/24x24/status/", ".png")
    } else if p == 3 {
        ("/48x48/status/", ".png")
    } else if p == 4 {
        ("/scalable/status/", ".svg")
    } else if p == 5 {
        ("/16x16/devices/", ".png")
    } else if p == 6 {
        ("/22x22/devices/", ".png")
    } else if p == 7 {
        ("/24x24/devices/", ".png")
    } else if p == 8 {
        ("/48x48/devices/", ".png")
    } else if p == 9 {
        ("/scalable/devices/", ".svg")
    } else if p == 10 {
        ("/", ".png")
    } else {
        ("/", ".svg")
    }
}

/// Every file an icon of this name may be found at, directory by directory
/// and, within a directory, in the order of `icon_patterns`.
pub fn icon_candidate_paths(icon_name: &str) -> (r: Vec<String>)
    ensures
        r@.len() == 48,
        forall|d: int, p: int| 0 <= d < 4 && 0 <= p < 12 ==> (#[trigger] r@[d * 12 + p])@ == icon_path(d, p, icon_name@),
{
    let mut out: Vec<String> = Vec::new();
    let mut d: usize = 0;
    while d < 4
        invariant
            d <= 4,
            out@.len() == d * 12,
            forall|e: int, p: int| 0 <= e < d && 0 <= p < 12 ==> (#[trigger] out@[e * 12 + p])@ == icon_path(e, p, icon_name@),
        decreases 4 - d,
    {
        let mut p: usize = 0;
        while p < 12
            invariant
                d < 4,
                p <= 12,
                out@.len() == d * 12 + p,
                forall|e: int, q: int| 0 <= e < d && 0 <= q < 12 ==> (#[trigger] out@[e * 12 + q])@ == icon_path(e, q, icon_name@),
                forall|q: int| 0 <= q < p ==> (#[trigger] out@[d * 12 + q])@ == icon_path(d as int, q, icon_name@),
            decreases 12 - p,
        {
            let (before, after) = icon_pattern(p);
            let a = joined(icon_dir(d), before);
            let b = joined(a.as_str(), icon_name);
            let c = joined(b.as_str(), after);
            out.push(c);
            p = p + 1;
        }
        d = d + 1;
    }
    out
}

/// The first character of a name in upper case, the rest as it is.
pub open spec fn capitalized(s: Seq<char>) -> Seq<char> {
    if s.len() == 0 {
        s
    } else {
        upper_of(s.subrange(0, 1)) + s.subrange(1, s.len() as int)
    }
}

pub fn capitalize(s: &str) -> (r: String)
    ensures
        r@ == capitalized(s@),
{
    let n = s.unicode_len();
    if n == 0 {
        String::new()
    } else {
        let head = uppercase(s.substring_char(0, 1));
        joined(head.as_str(), s.substring_char(1, n))
    }
}

/// Modifier names, capitalized and joined by " + ".
pub open spec fn modifiers_label(mods: Seq<String>) -> Seq<char>
    decreases mods.len(),
{
    if mods.len() == 0 {
        Seq::empty()
    } else if mods.len() == 1 {
        capitalized(mods[0]@)
    } else {
        modifiers_label(mods.drop_last()) + " + "@ + capitalized(mods.last()@)
    }
}

/// How the hotkey is shown: "Super + V".
pub open spec fn hotkey_label_of(h: HotkeyConfig) -> Seq<char> {
    modifiers_label(h.modifiers@) + " + "@ + upper_of(h.key@)
}

pub fn hotkey_label(h: &HotkeyConfig) -> (r: String)
    ensures
        r@ == hotkey_label_of(*h),
{
    let mods = &h.modifiers;
    let mut label = String::new();
    let mut i: usize = 0;
    while i < mods.len()
        invariant
            i <= mods@.len(),
            mods == h.modifiers,
            label@ == modifiers_label(mods@.subrange(0, i as int)),
        decreases mods.len() - i,
    {
        let c = capitalize(mods[i].as_str());
        let ghost prefix = mods@.subrange(0, i as int + 1);
        proof {
            assert(prefix.drop_last() =~= mods@.subrange(0, i as int));
            assert(prefix.last() == mods@[i as int]);
        }
        if i == 0 {
            label = c;
            proof {
                assert(mods@.subrange(0, 0).len() == 0);
            }
        } else {
            let sep = joined(label.as_str(), " + ");
            label = joined(sep.as_str(), c.as_str());
        }
        i = i + 1;
    }
    proof {
        assert(mods@.subrange(0, mods@.len() as int) =~= mods@);
    }
    let key = uppercase(h.key.as_str());
    let with_sep = joined(label.as_str(), " + ");
    joined(with_sep.as_str(), key.as_str())
}

/// The label of the menu entry that toggles recording.
pub fn toggle_label(h: &HotkeyConfig) -> (r: String)
    ensures
        r@ == "Toggle Recording ("@ + hotkey_label_of(*h) + ")"@,
{
    let label = hotkey_label(h);
    let head = joined("Toggle Recording (", label.as_str());
    joined(head.as_str(), ")")
}

/// The label of the status entry.
pub fn status_label(recording: bool) -> (r: String)
    ensures
        r@ == if recording {
            "\u{1F534} Recording Active"@
        } else {
            "\u{26AA} Recording Inactive"@
        },
{
    if recording {
        String::from_str("\u{1F534} Recording Active")
    } else {
        String::from_str("\u{26AA} Recording Inactive")
    }
}

/// Icon names to try, most fitting first; the last one is also the fallback.
pub open spec fn icon_names() -> Seq<Seq<char>> {
    seq![
        "audio-input-microphone"@,
        "microphone"@,
        "audio-card"@,
        "media-record"@,
        "audio-x-generic"@,
        "application-x-executable"@,
    ]
}

/// Number of icon names tried.
pub const ICON_COUNT: usize = 6;

/// The `i`-th icon name to try.
pub fn icon_candidate(i: usize) -> (r: &'static str)
    requires
        i < ICON_COUNT,
    ensures
        r@ == icon_names()[i as int],
{
    if i == 0 {
        "audio-input-microphone"
    } else if i == 1 {
        "microphone"
    } else if i == 2 {
        "audio-card"
    } else if i == 3 {
        "media-record"
    } else if i == 4 {
        "audio-x-generic"
    } else {
        "application-x-executable"
    }
}

/// The first icon name whose entry in `available` is true, or the generic
/// fallback when none is.
pub fn choose_icon(available: &Vec<bool>) -> (r: String)
    requires
        available@.len() == ICON_COUNT,
    ensures
        (exists|i: int| 0 <= i < ICON_COUNT && available@[i]) ==> exists|i: int|
            0 <= i < ICON_COUNT && #[trigger] available@[i] && r@ == icon_names()[i] && (forall|j: int|
                0 <= j < i ==> !available@[j]),
        (forall|i: int| 0 <= i < ICON_COUNT ==> !#[trigger] available@[i]) ==> r@ == icon_names()[5],
{
    let mut i: usize = 0;
    while i < ICON_COUNT
        invariant
            available@.len() == ICON_COUNT,
            i <= ICON_COUNT,
            forall|j: int| 0 <= j < i ==> !#[trigger] available@[j],
        decreases ICON_COUNT - i,
    {
        if available[i] {
            return String::from_str(icon_candidate(i));
        }
        i = i + 1;
    }
    String::from_str(icon_candidate(5))
}

} // verus!
