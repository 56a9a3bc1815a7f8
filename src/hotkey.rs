use vstd::prelude::*;
use crate::text::{
    is_space, trim_end, trim_start, char_views, chars_are, chars_of, string_of, fold_case_chars, fold_case_seq, split_on, split_on_exec, trim,
    trim_chars,
};

verus! {

/// A physical key that a global shortcut can name.
#[derive(Clone, Copy, Debug, PartialEq, Eq, Structural)]
pub enum KeyCode {
    Space,
    Tab,
    Enter,
    Backspace,
    Delete,
    Escape,
    ArrowUp,
    ArrowDown,
    ArrowLeft,
    ArrowRight,
    F1,
    F2,
    F3,
    F4,
    F5,
    F6,
    F7,
    F8,
    F9,
    F10,
    F11,
    F12,
    Equal,
    KeyA,
    KeyB,
    KeyC,
    KeyD,
    KeyE,
    KeyF,
    KeyG,
    KeyH,
    KeyI,
    KeyJ,
    KeyK,
    KeyL,
    KeyM,
    KeyN,
    KeyO,
    KeyP,
    KeyQ,
    KeyR,
    KeyS,
    KeyT,
    KeyU,
    KeyV,
    KeyW,
    KeyX,
    KeyY,
    KeyZ,
    Digit0,
    Digit1,
    Digit2,
    Digit3,
    Digit4,
    Digit5,
    Digit6,
    Digit7,
    Digit8,
    Digit9,
    Slash,
    Period,
    Comma,
    Semicolon,
    Quote,
    BracketLeft,
    BracketRight,
    Minus,
    Backquote,
    Backslash,
}

/// The modifier keys held together with the main key of a shortcut.
#[derive(Clone, Copy, Debug, PartialEq, Eq, Structural)]
pub struct Modifiers {
    pub alt: bool,
    pub control: bool,
    pub shift: bool,
    pub meta: bool,
}

/// One modifier key.
#[derive(Clone, Copy, Debug, PartialEq, Eq, Structural)]
pub enum Modifier {
    Alt,
    Control,
    Shift,
    Meta,
}

/// A parsed global shortcut: a set of modifiers and the key they go with.
#[derive(Clone, Copy, Debug, PartialEq, Eq, Structural)]
pub struct HotkeySpec {
    pub modifiers: Modifiers,
    pub key: KeyCode,
}

/// What one `+`-separated segment of a shortcut text stands for.
pub enum Part {
    Mod(Modifier),
    Key(KeyCode),
    Unknown,
}

pub open spec fn no_modifiers() -> Modifiers {
    Modifiers { alt: false, control: false, shift: false, meta: false }
}

/// `m` with one more modifier in it.
pub open spec fn with_modifier(m: Modifiers, x: Modifier) -> Modifiers {
    match x {
        Modifier::Alt => Modifiers { alt: true, ..m },
        Modifier::Control => Modifiers { control: true, ..m },
        Modifier::Shift => Modifiers { shift: true, ..m },
        Modifier::Meta => Modifiers { meta: true, ..m },
    }
}

/// The modifier that a (case-folded, trimmed) segment names, if any.
pub open spec fn modifier_named(t: Seq<char>) -> Option<Modifier> {
    if t == "[alt]"@ {
        Some(Modifier::Alt)
    } else if t == "[ctrl]"@ {
        Some(Modifier::Control)
    } else if t == "[shift]"@ {
        Some(Modifier::Shift)
    } else if t == "[win]"@ || t == "[meta]"@ {
        Some(Modifier::Meta)
    } else {
        None
    }
}

/// The key that a (case-folded, trimmed) segment names by a word, if any; `plus` is the
/// marker that stands for a literal `+` and names the key that carries it.
pub open spec fn key_named(t: Seq<char>) -> Option<KeyCode> {
    if t == "[space]"@ {
        Some(KeyCode::Space)
    } else if t == "[tab]"@ {
        Some(KeyCode::Tab)
    } else if t == "[enter]"@ {
        Some(KeyCode::Enter)
    } else if t == "[return]"@ {
        Some(KeyCode::Enter)
    } else if t == "[backspace]"@ {
        Some(KeyCode::Backspace)
    } else if t == "[back]"@ {
        Some(KeyCode::Backspace)
    } else if t == "[delete]"@ {
        Some(KeyCode::Delete)
    } else if t == "[del]"@ {
        Some(KeyCode::Delete)
    } else if t == "[esc]"@ {
        Some(KeyCode::Escape)
    } else if t == "[escape]"@ {
        Some(KeyCode::Escape)
    } else if t == "[up]"@ {
        Some(KeyCode::ArrowUp)
    } else if t == "[down]"@ {
        Some(KeyCode::ArrowDown)
    } else if t == "[left]"@ {
        Some(KeyCode::ArrowLeft)
    } else if t == "[right]"@ {
        Some(KeyCode::ArrowRight)
    } else if t == "[f1]"@ {
        Some(KeyCode::F1)
    } else if t == "[f2]"@ {
        Some(KeyCode::F2)
    } else if t == "[f3]"@ {
        Some(KeyCode::F3)
    } else if t == "[f4]"@ {
        Some(KeyCode::F4)
    } else if t == "[f5]"@ {
        Some(KeyCode::F5)
    } else if t == "[f6]"@ {
        Some(KeyCode::F6)
    } else if t == "[f7]"@ {
        Some(KeyCode::F7)
    } else if t == "[f8]"@ {
        Some(KeyCode::F8)
    } else if t == "[f9]"@ {
        Some(KeyCode::F9)
    } else if t == "[f10]"@ {
        Some(KeyCode::F10)
    } else if t == "[f11]"@ {
        Some(KeyCode::F11)
    } else if t == "[f12]"@ {
        Some(KeyCode::F12)
    } else if t == "plus"@ {
        Some(KeyCode::Equal)
    } else {
        None
    }
}

/// The key of a single (case-folded) character: a letter, a digit or one of a few symbols.
pub open spec fn key_of_char(c: char) -> Option<KeyCode> {
    match c {
        'a' => Some(KeyCode::KeyA),
        'b' => Some(KeyCode::KeyB),
        'c' => Some(KeyCode::KeyC),
        'd' => Some(KeyCode::KeyD),
        'e' => Some(KeyCode::KeyE),
        'f' => Some(KeyCode::KeyF),
        'g' => Some(KeyCode::KeyG),
        'h' => Some(KeyCode::KeyH),
        'i' => Some(KeyCode::KeyI),
        'j' => Some(KeyCode::KeyJ),
        'k' => Some(KeyCode::KeyK),
        'l' => Some(KeyCode::KeyL),
        'm' => Some(KeyCode::KeyM),
        'n' => Some(KeyCode::KeyN),
        'o' => Some(KeyCode::KeyO),
        'p' => Some(KeyCode::KeyP),
        'q' => Some(KeyCode::KeyQ),
        'r' => Some(KeyCode::KeyR),
        's' => Some(KeyCode::KeyS),
        't' => Some(KeyCode::KeyT),
        'u' => Some(KeyCode::KeyU),
        'v' => Some(KeyCode::KeyV),
        'w' => Some(KeyCode::KeyW),
        'x' => Some(KeyCode::KeyX),
        'y' => Some(KeyCode::KeyY),
        'z' => Some(KeyCode::KeyZ),
        '0' => Some(KeyCode::Digit0),
        '1' => Some(KeyCode::Digit1),
        '2' => Some(KeyCode::Digit2),
        '3' => Some(KeyCode::Digit3),
        '4' => Some(KeyCode::Digit4),
        '5' => Some(KeyCode::Digit5),
        '6' => Some(KeyCode::Digit6),
        '7' => Some(KeyCode::Digit7),
        '8' => Some(KeyCode::Digit8),
        '9' => Some(KeyCode::Digit9),
        '/' => Some(KeyCode::Slash),
        '.' => Some(KeyCode::Period),
        ',' => Some(KeyCode::Comma),
        ';' => Some(KeyCode::Semicolon),
        '\'' => Some(KeyCode::Quote),
        '[' => Some(KeyCode::BracketLeft),
        ']' => Some(KeyCode::BracketRight),
        '-' => Some(KeyCode::Minus),
        '=' => Some(KeyCode::Equal),
        '`' => Some(KeyCode::Backquote),
        '\\' => Some(KeyCode::Backslash),
        _ => None,
    }
}

/// What a case-folded, trimmed segment stands for.
pub open spec fn classify(t: Seq<char>) -> Part {
    if modifier_named(t) is Some {
        Part::Mod(modifier_named(t)->0)
    } else if key_named(t) is Some {
        Part::Key(key_named(t)->0)
    } else if t.len() == 1 && key_of_char(t[0]) is Some {
        Part::Key(key_of_char(t[0])->0)
    } else {
        Part::Unknown
    }
}

/// `s` with each `++`, taken from the left, written `+Plus`.
pub open spec fn expand_plus(s: Seq<char>) -> Seq<char>
    decreases s.len(),
{
    if s.len() >= 2 && s[0] == '+' && s[1] == '+' {
        "+Plus"@ + expand_plus(s.skip(2))
    } else if s.len() > 0 {
        seq![s[0]] + expand_plus(s.skip(1))
    } else {
        s
    }
}

/// Modifiers and key gathered from the segments: modifiers add up, and a later key
/// replaces an earlier one; unknown segments change nothing.
pub open spec fn gather(segs: Seq<Seq<char>>) -> (Modifiers, Option<KeyCode>)
    decreases segs.len(),
{
    if segs.len() == 0 {
        (no_modifiers(), None)
    } else {
        let (m, k) = gather(segs.drop_last());
        match classify(fold_case_seq(trim(segs.last()))) {
            Part::Mod(x) => (with_modifier(m, x), k),
            Part::Key(c) => (m, Some(c)),
            Part::Unknown => (m, k),
        }
    }
}

/// The shortcut that a text describes: none for an empty text or one that names no key.
pub open spec fn hotkey_of(s: Seq<char>) -> Option<HotkeySpec> {
    if s.len() == 0 {
        None
    } else {
        let (m, k) = gather(split_on(expand_plus(s), '+'));
        match k {
            Some(key) => Some(HotkeySpec { modifiers: m, key }),
            None => None,
        }
    }
}

fn modifier_named_exec(t: &[char]) -> (r: Option<Modifier>)
    ensures
        r == modifier_named(t@),
{
    if chars_are(t, "[alt]") {
        Some(Modifier::Alt)
    } else if chars_are(t, "[ctrl]") {
        Some(Modifier::Control)
    } else if chars_are(t, "[shift]") {
        Some(Modifier::Shift)
    } else if chars_are(t, "[win]") || chars_are(t, "[meta]") {
        Some(Modifier::Meta)
    } else {
        None
    }
}

fn key_named_exec(t: &[char]) -> (r: Option<KeyCode>)
    ensures
        r == key_named(t@),
{
    if chars_are(t, "[space]") {
        Some(KeyCode::Space)
    } else if chars_are(t, "[tab]") {
        Some(KeyCode::Tab)
    } else if chars_are(t, "[enter]") {
        Some(KeyCode::Enter)
    } else if chars_are(t, "[return]") {
        Some(KeyCode::Enter)
    } else if chars_are(t, "[backspace]") {
        Some(KeyCode::Backspace)
    } else if chars_are(t, "[back]") {
        Some(KeyCode::Backspace)
    } else if chars_are(t, "[delete]") {
        Some(KeyCode::Delete)
    } else if chars_are(t, "[del]") {
        Some(KeyCode::Delete)
    } else if chars_are(t, "[esc]") {
        Some(KeyCode::Escape)
    } else if chars_are(t, "[escape]") {
        Some(KeyCode::Escape)
    } else if chars_are(t, "[up]") {
        Some(KeyCode::ArrowUp)
    } else if chars_are(t, "[down]") {
        Some(KeyCode::ArrowDown)
    } else if chars_are(t, "[left]") {
        Some(KeyCode::ArrowLeft)
    } else if chars_are(t, "[right]") {
        Some(KeyCode::ArrowRight)
    } else if chars_are(t, "[f1]") {
        Some(KeyCode::F1)
    } else if chars_are(t, "[f2]") {
        Some(KeyCode::F2)
    } else if chars_are(t, "[f3]") {
        Some(KeyCode::F3)
    } else if chars_are(t, "[f4]") {
        Some(KeyCode::F4)
    } else if chars_are(t, "[f5]") {
        Some(KeyCode::F5)
    } else if chars_are(t, "[f6]") {
        Some(KeyCode::F6)
    } else if chars_are(t, "[f7]") {
        Some(KeyCode::F7)
    } else if chars_are(t, "[f8]") {
        Some(KeyCode::F8)
    } else if chars_are(t, "[f9]") {
        Some(KeyCode::F9)
    } else if chars_are(t, "[f10]") {
        Some(KeyCode::F10)
    } else if chars_are(t, "[f11]") {
        Some(KeyCode::F11)
    } else if chars_are(t, "[f12]") {
        Some(KeyCode::F12)
    } else if chars_are(t, "plus") {
        Some(KeyCode::Equal)
    } else {
        None
    }
}

fn key_of_char_exec(c: char) -> (r: Option<KeyCode>)
    ensures
        r == key_of_char(c),
{
    match c {
        'a' => Some(KeyCode::KeyA),
        'b' => Some(KeyCode::KeyB),
        'c' => Some(KeyCode::KeyC),
        'd' => Some(KeyCode::KeyD),
        'e' => Some(KeyCode::KeyE),
        'f' => Some(KeyCode::KeyF),
        'g' => Some(KeyCode::KeyG),
        'h' => Some(KeyCode::KeyH),
        'i' => Some(KeyCode::KeyI),
        'j' => Some(KeyCode::KeyJ),
        'k' => Some(KeyCode::KeyK),
        'l' => Some(KeyCode::KeyL),
        'm' => Some(KeyCode::KeyM),
        'n' => Some(KeyCode::KeyN),
        'o' => Some(KeyCode::KeyO),
        'p' => Some(KeyCode::KeyP),
        'q' => Some(KeyCode::KeyQ),
        'r' => Some(KeyCode::KeyR),
        's' => Some(KeyCode::KeyS),
        't' => Some(KeyCode::KeyT),
        'u' => Some(KeyCode::KeyU),
        'v' => Some(KeyCode::KeyV),
        'w' => Some(KeyCode::KeyW),
        'x' => Some(KeyCode::KeyX),
        'y' => Some(KeyCode::KeyY),
        'z' => Some(KeyCode::KeyZ),
        '0' => Some(KeyCode::Digit0),
        '1' => Some(KeyCode::Digit1),
        '2' => Some(KeyCode::Digit2),
        '3' => Some(KeyCode::Digit3),
        '4' => Some(KeyCode::Digit4),
        '5' => Some(KeyCode::Digit5),
        '6' => Some(KeyCode::Digit6),
        '7' => Some(KeyCode::Digit7),
        '8' => Some(KeyCode::Digit8),
        '9' => Some(KeyCode::Digit9),
        '/' => Some(KeyCode::Slash),
        '.' => Some(KeyCode::Period),
        ',' => Some(KeyCode::Comma),
        ';' => Some(KeyCode::Semicolon),
        '\'' => Some(KeyCode::Quote),
        '[' => Some(KeyCode::BracketLeft),
        ']' => Some(KeyCode::BracketRight),
        '-' => Some(KeyCode::Minus),
        '=' => Some(KeyCode::Equal),
        '`' => Some(KeyCode::Backquote),
        '\\' => Some(KeyCode::Backslash),
        _ => None,
    }
}

/// What a case-folded, trimmed segment stands for.
pub fn classify_segment(t: &[char]) -> (r: Part)
    ensures
        r == classify(t@),
{
    match modifier_named_exec(t) {
        Some(m) => Part::Mod(m),
        None => match key_named_exec(t) {
            Some(k) => Part::Key(k),
            None => {
                if t.len() == 1 {
                    match key_of_char_exec(t[0]) {
                        Some(k) => Part::Key(k),
                        None => Part::Unknown,
                    }
                } else {
                    Part::Unknown
                }
            },
        },
    }
}

fn expand_plus_exec(s: &[char]) -> (r: Vec<char>)
    ensures
        r@ == expand_plus(s@),
{
    let mut out: Vec<char> = Vec::new();
    let mut i: usize = 0;
    assert(s@.skip(0) == s@);
    while i < s.len()
        invariant
            i <= s@.len(),
            out@ + expand_plus(s@.skip(i as int)) == expand_plus(s@),
        decreases s@.len() - i,
    {
        let ghost rest = s@.skip(i as int);
        let ghost before = out@;
        if i + 1 < s.len() && s[i] == '+' && s[i + 1] == '+' {
            assert(rest.skip(2) == s@.skip(i + 2));
            out.push('+');
            out.push('P');
            out.push('l');
            out.push('u');
            out.push('s');
            proof {
                reveal_strlit("+Plus");
                assert(out@ == before + "+Plus"@);
                assert(out@ + expand_plus(s@.skip(i + 2)) == before + ("+Plus"@ + expand_plus(rest.skip(2))));
            }
            i = i + 2;
        } else {
            assert(rest.skip(1) == s@.skip(i + 1));
            out.push(s[i]);
            assert(out@ + expand_plus(s@.skip(i + 1)) == before + (seq![rest[0]] + expand_plus(rest.skip(1))));
            i = i + 1;
        }
    }
    assert(s@.skip(i as int).len() == 0);
    assert(out@ + Seq::<char>::empty() == out@);
    out
}

/// Parses a shortcut text such as `[Ctrl]+[Alt]+a` or `[Alt]++`.
///
/// `++` is read as a literal `+` key. Segments are compared without regard to case or
/// surrounding white space; unknown segments are skipped, and the last key named wins.
/// Gives `None` for an empty text and for one that names no key.
pub fn parse_hotkey(text: &str) -> (r: Option<HotkeySpec>)
    ensures
        r == hotkey_of(text@),
{
    let cs = chars_of(text);
    if cs.len() == 0 {
        return None;
    }
    let expanded = expand_plus_exec(cs.as_slice());
    let segs = split_on_exec(expanded.as_slice(), '+');
    let ghost all = char_views(segs@);
    let mut mods = Modifiers { alt: false, control: false, shift: false, meta: false };
    let mut key: Option<KeyCode> = None;
    let mut i: usize = 0;
    assert(all.take(0).len() == 0);
    while i < segs.len()
        invariant
            all == char_views(segs@),
            all == split_on(expand_plus(text@), '+'),
            i <= segs@.len(),
            (mods, key) == gather(all.take(i as int)),
        decreases segs@.len() - i,
    {
        assert(all.take(i + 1).drop_last() == all.take(i as int));
        assert(all.take(i + 1).last() == segs@[i as int]@);
        let t = trim_chars(segs[i].as_slice());
        let f = fold_case_chars(t.as_slice());
        match classify_segment(f.as_slice()) {
            Part::Mod(m) => {
                match m {
                    Modifier::Alt => { mods.alt = true; },
                    Modifier::Control => { mods.control = true; },
                    Modifier::Shift => { mods.shift = true; },
                    Modifier::Meta => { mods.meta = true; },
                }
            },
            Part::Key(c) => {
                key = Some(c);
            },
            Part::Unknown => {},
        }
        i = i + 1;
    }
    assert(all.take(all.len() as int) == all);
    match key {
        Some(k) => Some(HotkeySpec { modifiers: mods, key: k }),
        None => None,
    }
}

/// The canonical name of a key: its bracketed name, or the character on it.
pub open spec fn key_name(k: KeyCode) -> Seq<char> {
    match k {
        KeyCode::Space => "[space]"@,
        KeyCode::Tab => "[tab]"@,
        KeyCode::Enter => "[enter]"@,
        KeyCode::Backspace => "[backspace]"@,
        KeyCode::Delete => "[delete]"@,
        KeyCode::Escape => "[esc]"@,
        KeyCode::ArrowUp => "[up]"@,
        KeyCode::ArrowDown => "[down]"@,
        KeyCode::ArrowLeft => "[left]"@,
        KeyCode::ArrowRight => "[right]"@,
        KeyCode::F1 => "[f1]"@,
        KeyCode::F2 => "[f2]"@,
        KeyCode::F3 => "[f3]"@,
        KeyCode::F4 => "[f4]"@,
        KeyCode::F5 => "[f5]"@,
        KeyCode::F6 => "[f6]"@,
        KeyCode::F7 => "[f7]"@,
        KeyCode::F8 => "[f8]"@,
        KeyCode::F9 => "[f9]"@,
        KeyCode::F10 => "[f10]"@,
        KeyCode::F11 => "[f11]"@,
        KeyCode::F12 => "[f12]"@,
        KeyCode::KeyA => seq!['a'],
        KeyCode::KeyB => seq!['b'],
        KeyCode::KeyC => seq!['c'],
        KeyCode::KeyD => seq!['d'],
        KeyCode::KeyE => seq!['e'],
        KeyCode::KeyF => seq!['f'],
        KeyCode::KeyG => seq!['g'],
        KeyCode::KeyH => seq!['h'],
        KeyCode::KeyI => seq!['i'],
        KeyCode::KeyJ => seq!['j'],
        KeyCode::KeyK => seq!['k'],
        KeyCode::KeyL => seq!['l'],
        KeyCode::KeyM => seq!['m'],
        KeyCode::KeyN => seq!['n'],
        KeyCode::KeyO => seq!['o'],
        KeyCode::KeyP => seq!['p'],
        KeyCode::KeyQ => seq!['q'],
        KeyCode::KeyR => seq!['r'],
        KeyCode::KeyS => seq!['s'],
        KeyCode::KeyT => seq!['t'],
        KeyCode::KeyU => seq!['u'],
        KeyCode::KeyV => seq!['v'],
        KeyCode::KeyW => seq!['w'],
        KeyCode::KeyX => seq!['x'],
        KeyCode::KeyY => seq!['y'],
        KeyCode::KeyZ => seq!['z'],
        KeyCode::Digit0 => seq!['0'],
        KeyCode::Digit1 => seq!['1'],
        KeyCode::Digit2 => seq!['2'],
        KeyCode::Digit3 => seq!['3'],
        KeyCode::Digit4 => seq!['4'],
        KeyCode::Digit5 => seq!['5'],
        KeyCode::Digit6 => seq!['6'],
        KeyCode::Digit7 => seq!['7'],
        KeyCode::Digit8 => seq!['8'],
        KeyCode::Digit9 => seq!['9'],
        KeyCode::Slash => seq!['/'],
        KeyCode::Period => seq!['.'],
        KeyCode::Comma => seq![','],
        KeyCode::Semicolon => seq![';'],
        KeyCode::Quote => seq!['\''],
        KeyCode::BracketLeft => seq!['['],
        KeyCode::BracketRight => seq![']'],
        KeyCode::Minus => seq!['-'],
        KeyCode::Equal => seq!['='],
        KeyCode::Backquote => seq!['`'],
        KeyCode::Backslash => seq!['\\'],
    }
}

/// `rest` with `name+` in front when `on` holds.
pub open spec fn with_prefix(on: bool, name: Seq<char>, rest: Seq<char>) -> Seq<char> {
    if on {
        name + seq!['+'] + rest
    } else {
        rest
    }
}

/// The canonical text of a shortcut: the names of the modifiers held, in the order
/// `[alt]`, `[ctrl]`, `[shift]`, `[win]`, then the key's name, joined with `+`.
pub open spec fn canonical_text(h: HotkeySpec) -> Seq<char> {
    with_prefix(h.modifiers.alt, "[alt]"@,
        with_prefix(h.modifiers.control, "[ctrl]"@,
            with_prefix(h.modifiers.shift, "[shift]"@,
                with_prefix(h.modifiers.meta, "[win]"@, key_name(h.key)))))
}

fn push_str(out: &mut Vec<char>, s: &str)
    ensures
        final(out)@ == old(out)@ + s@,
{
    let cs = chars_of(s);
    let mut i: usize = 0;
    while i < cs.len()
        invariant
            i <= cs@.len(),
            cs@ == s@,
            out@ == old(out)@ + cs@.take(i as int),
        decreases cs@.len() - i,
    {
        out.push(cs[i]);
        assert(cs@.take(i + 1) == cs@.take(i as int).push(cs@[i as int]));
        i = i + 1;
    }
    assert(cs@.take(cs@.len() as int) == cs@);
}

fn push_key_name(out: &mut Vec<char>, k: KeyCode)
    ensures
        final(out)@ == old(out)@ + key_name(k),
{
    match k {
        KeyCode::Space => {
            push_str(out, "[space]");
        },
        KeyCode::Tab => {
            push_str(out, "[tab]");
        },
        KeyCode::Enter => {
            push_str(out, "[enter]");
        },
        KeyCode::Backspace => {
            push_str(out, "[backspace]");
        },
        KeyCode::Delete => {
            push_str(out, "[delete]");
        },
        KeyCode::Escape => {
            push_str(out, "[esc]");
        },
        KeyCode::ArrowUp => {
            push_str(out, "[up]");
        },
        KeyCode::ArrowDown => {
            push_str(out, "[down]");
        },
        KeyCode::ArrowLeft => {
            push_str(out, "[left]");
        },
        KeyCode::ArrowRight => {
            push_str(out, "[right]");
        },
        KeyCode::F1 => {
            push_str(out, "[f1]");
        },
        KeyCode::F2 => {
            push_str(out, "[f2]");
        },
        KeyCode::F3 => {
            push_str(out, "[f3]");
        },
        KeyCode::F4 => {
            push_str(out, "[f4]");
        },
        KeyCode::F5 => {
            push_str(out, "[f5]");
        },
        KeyCode::F6 => {
            push_str(out, "[f6]");
        },
        KeyCode::F7 => {
            push_str(out, "[f7]");
        },
        KeyCode::F8 => {
            push_str(out, "[f8]");
        },
        KeyCode::F9 => {
            push_str(out, "[f9]");
        },
        KeyCode::F10 => {
            push_str(out, "[f10]");
        },
        KeyCode::F11 => {
            push_str(out, "[f11]");
        },
        KeyCode::F12 => {
            push_str(out, "[f12]");
        },
        KeyCode::KeyA => {
            out.push('a');
        },
        KeyCode::KeyB => {
            out.push('b');
        },
        KeyCode::KeyC => {
            out.push('c');
        },
        KeyCode::KeyD => {
            out.push('d');
        },
        KeyCode::KeyE => {
            out.push('e');
        },
        KeyCode::KeyF => {
            out.push('f');
        },
        KeyCode::KeyG => {
            out.push('g');
        },
        KeyCode::KeyH => {
            out.push('h');
        },
        KeyCode::KeyI => {
            out.push('i');
        },
        KeyCode::KeyJ => {
            out.push('j');
        },
        KeyCode::KeyK => {
            out.push('k');
        },
        KeyCode::KeyL => {
            out.push('l');
        },
        KeyCode::KeyM => {
            out.push('m');
        },
        KeyCode::KeyN => {
            out.push('n');
        },
        KeyCode::KeyO => {
            out.push('o');
        },
        KeyCode::KeyP => {
            out.push('p');
        },
        KeyCode::KeyQ => {
            out.push('q');
        },
        KeyCode::KeyR => {
            out.push('r');
        },
        KeyCode::KeyS => {
            out.push('s');
        },
        KeyCode::KeyT => {
            out.push('t');
        },
        KeyCode::KeyU => {
            out.push('u');
        },
        KeyCode::KeyV => {
            out.push('v');
        },
        KeyCode::KeyW => {
            out.push('w');
        },
        KeyCode::KeyX => {
            out.push('x');
        },
        KeyCode::KeyY => {
            out.push('y');
        },
        KeyCode::KeyZ => {
            out.push('z');
        },
        KeyCode::Digit0 => {
            out.push('0');
        },
        KeyCode::Digit1 => {
            out.push('1');
        },
        KeyCode::Digit2 => {
            out.push('2');
        },
        KeyCode::Digit3 => {
            out.push('3');
        },
        KeyCode::Digit4 => {
            out.push('4');
        },
        KeyCode::Digit5 => {
            out.push('5');
        },
        KeyCode::Digit6 => {
            out.push('6');
        },
        KeyCode::Digit7 => {
            out.push('7');
        },
        KeyCode::Digit8 => {
            out.push('8');
        },
        KeyCode::Digit9 => {
            out.push('9');
        },
        KeyCode::Slash => {
            out.push('/');
        },
        KeyCode::Period => {
            out.push('.');
        },
        KeyCode::Comma => {
            out.push(',');
        },
        KeyCode::Semicolon => {
            out.push(';');
        },
        KeyCode::Quote => {
            out.push('\'');
        },
        KeyCode::BracketLeft => {
            out.push('[');
        },
        KeyCode::BracketRight => {
            out.push(']');
        },
        KeyCode::Minus => {
            out.push('-');
        },
        KeyCode::Equal => {
            out.push('=');
        },
        KeyCode::Backquote => {
            out.push('`');
        },
        KeyCode::Backslash => {
            out.push('\\');
        },
    }
}

fn push_prefix(out: &mut Vec<char>, on: bool, name: &str)
    ensures
        forall|rest: Seq<char>| #[trigger] (final(out)@ + rest) == old(out)@ + with_prefix(on, name@, rest),
{
    let ghost start = out@;
    if on {
        push_str(out, name);
        out.push('+');
    }
    assert forall|rest: Seq<char>| #[trigger] (out@ + rest) == start + with_prefix(on, name@, rest) by {
        if on {
            assert(out@ + rest =~= start + (name@ + seq!['+'] + rest));
        } else {
            assert(out@ + rest =~= start + rest);
        }
    }
}

impl HotkeySpec {
    /// The canonical text of this shortcut, such as `[alt]+[ctrl]+a`; parsing it gives
    /// this shortcut back.
    pub fn to_text(&self) -> (r: String)
        ensures
            r@ == canonical_text(*self),
    {
        let mut out: Vec<char> = Vec::new();
        let ghost o0 = out@;
        push_prefix(&mut out, self.modifiers.alt, "[alt]");
        let ghost o1 = out@;
        push_prefix(&mut out, self.modifiers.control, "[ctrl]");
        let ghost o2 = out@;
        push_prefix(&mut out, self.modifiers.shift, "[shift]");
        let ghost o3 = out@;
        push_prefix(&mut out, self.modifiers.meta, "[win]");
        let ghost o4 = out@;
        push_key_name(&mut out, self.key);
        proof {
            let k = key_name(self.key);
            let r3 = with_prefix(self.modifiers.meta, "[win]"@, k);
            let r2 = with_prefix(self.modifiers.shift, "[shift]"@, r3);
            let r1 = with_prefix(self.modifiers.control, "[ctrl]"@, r2);
            assert(o4 + k == o3 + r3);
            assert(o3 + r3 == o2 + r2);
            assert(o2 + r2 == o1 + r1);
            assert(o1 + r1 == o0 + canonical_text(*self));
            assert(o0 + canonical_text(*self) =~= canonical_text(*self));
        }
        string_of(out.as_slice())
    }
}

/// A piece of canonical text: not empty, and none of its characters is white space, an
/// upper-case letter, the Kelvin sign or `+`.
pub open spec fn plain(x: Seq<char>) -> bool {
    &&& x.len() > 0
    &&& forall|i: int| 0 <= i < x.len() ==> {
        &&& !is_space(#[trigger] x[i])
        &&& !('A' <= x[i] && x[i] <= 'Z')
        &&& x[i] != '\u{212a}'
        &&& x[i] != '+'
    }
}

proof fn lemma_plain_is_normal(x: Seq<char>)
    requires
        plain(x),
    ensures
        trim(x) == x,
        fold_case_seq(x) == x,
{
    assert(trim_start(x) == x);
    assert(!is_space(x[x.len() - 1]));
    assert(trim_end(x) == x);
    assert(fold_case_seq(x) =~= x);
}

proof fn lemma_split_len(s: Seq<char>, sep: char)
    ensures
        split_on(s, sep).len() >= 1,
    decreases s.len(),
{
    if s.len() > 0 {
        lemma_split_len(s.drop_last(), sep);
    }
}

proof fn lemma_split_single(x: Seq<char>, sep: char)
    requires
        forall|i: int| 0 <= i < x.len() ==> #[trigger] x[i] != sep,
    ensures
        split_on(x, sep) == seq![x],
    decreases x.len(),
{
    if x.len() > 0 {
        lemma_split_single(x.drop_last(), sep);
        assert(x.drop_last().push(x.last()) == x);
        assert(seq![x.drop_last()].update(0, x.drop_last().push(x.last())) =~= seq![x]);
    } else {
        assert(x =~= Seq::<char>::empty());
    }
}

proof fn lemma_split_concat(x: Seq<char>, y: Seq<char>, sep: char)
    ensures
        split_on(x + seq![sep] + y, sep) == split_on(x, sep) + split_on(y, sep),
    decreases y.len(),
{
    let z = x + seq![sep] + y;
    if y.len() == 0 {
        assert(z.drop_last() =~= x);
        assert(split_on(y, sep) == seq![Seq::<char>::empty()]);
        assert(split_on(x, sep).push(Seq::empty()) =~= split_on(x, sep) + split_on(y, sep));
    } else {
        lemma_split_concat(x, y.drop_last(), sep);
        lemma_split_len(y.drop_last(), sep);
        assert(z.drop_last() =~= x + seq![sep] + y.drop_last());
        let a = split_on(x, sep);
        let b = split_on(y.drop_last(), sep);
        if y.last() == sep {
            assert((a + b).push(Seq::empty()) =~= a + b.push(Seq::empty()));
        } else {
            assert((a + b).update((a + b).len() - 1, (a + b).last().push(y.last()))
                =~= a + b.update(b.len() - 1, b.last().push(y.last())));
        }
    }
}

proof fn lemma_expand_plain(x: Seq<char>, y: Seq<char>)
    requires
        forall|i: int| 0 <= i < x.len() ==> #[trigger] x[i] != '+',
    ensures
        expand_plus(x + y) == x + expand_plus(y),
    decreases x.len(),
{
    if x.len() > 0 {
        lemma_expand_plain(x.skip(1), y);
        assert((x + y).skip(1) =~= x.skip(1) + y);
        assert(seq![x[0]] + (x.skip(1) + expand_plus(y)) =~= x + expand_plus(y));
    } else {
        assert(x + y =~= y);
        assert(x + expand_plus(y) =~= expand_plus(y));
    }
}

proof fn lemma_expand_separator(y: Seq<char>)
    requires
        y.len() == 0 || y[0] != '+',
    ensures
        expand_plus(seq!['+'] + y) == seq!['+'] + expand_plus(y),
{
    assert((seq!['+'] + y).skip(1) =~= y);
}

/// One optional modifier in front of the rest of a canonical text.
proof fn lemma_prefix_level(on: bool, name: Seq<char>, rest: Seq<char>, segs: Seq<Seq<char>>)
    requires
        plain(name),
        rest.len() > 0,
        rest[0] != '+',
        expand_plus(rest) == rest,
        split_on(rest, '+') == segs,
    ensures
        with_prefix(on, name, rest).len() > 0,
        with_prefix(on, name, rest)[0] != '+',
        expand_plus(with_prefix(on, name, rest)) == with_prefix(on, name, rest),
        split_on(with_prefix(on, name, rest), '+') == if on { seq![name] + segs } else { segs },
{
    if on {
        let w = name + seq!['+'] + rest;
        assert(w == name + (seq!['+'] + rest));
        lemma_expand_plain(name, seq!['+'] + rest);
        lemma_expand_separator(rest);
        assert(name + (seq!['+'] + rest) =~= w);
        lemma_split_concat(name, rest, '+');
        lemma_split_single(name, '+');
    }
}

proof fn lemma_gather_prepend(x: Seq<char>, rest: Seq<Seq<char>>, mx: Modifier)
    requires
        classify(fold_case_seq(trim(x))) == Part::Mod(mx),
    ensures
        gather(seq![x] + rest) == (with_modifier(gather(rest).0, mx), gather(rest).1),
    decreases rest.len(),
{
    if rest.len() == 0 {
        assert(seq![x] + rest =~= seq![x]);
        assert(seq![x].drop_last() =~= Seq::<Seq<char>>::empty());
        assert(gather(Seq::<Seq<char>>::empty()) == (no_modifiers(), Option::<KeyCode>::None));
        assert(gather(seq![x]) == (with_modifier(no_modifiers(), mx), Option::<KeyCode>::None));
    } else {
        lemma_gather_prepend(x, rest.drop_last(), mx);
        assert((seq![x] + rest).drop_last() =~= seq![x] + rest.drop_last());
        assert((seq![x] + rest).last() == rest.last());
        let g = gather(rest.drop_last());
        match classify(fold_case_seq(trim(rest.last()))) {
            Part::Mod(y) => {
                assert(with_modifier(with_modifier(g.0, mx), y) == with_modifier(with_modifier(g.0, y), mx));
            },
            _ => {},
        }
    }
}

proof fn lemma_modifier_tokens()
    ensures
        plain("[alt]"@),
        plain("[ctrl]"@),
        plain("[shift]"@),
        plain("[win]"@),
        classify("[alt]"@) == Part::Mod(Modifier::Alt),
        classify("[ctrl]"@) == Part::Mod(Modifier::Control),
        classify("[shift]"@) == Part::Mod(Modifier::Shift),
        classify("[win]"@) == Part::Mod(Modifier::Meta),
{
    reveal_strlit("[alt]");
    reveal_strlit("[ctrl]");
    reveal_strlit("[shift]");
    reveal_strlit("[win]");
    reveal_strlit("[meta]");
    assert("[win]"@[1] != "[alt]"@[1]);
}

/// Whether a key's canonical name is a bracketed word rather than one character.
pub open spec fn has_word_name(k: KeyCode) -> bool {
    match k {
        KeyCode::Space => true,
        KeyCode::Tab => true,
        KeyCode::Enter => true,
        KeyCode::Backspace => true,
        KeyCode::Delete => true,
        KeyCode::Escape => true,
        KeyCode::ArrowUp => true,
        KeyCode::ArrowDown => true,
        KeyCode::ArrowLeft => true,
        KeyCode::ArrowRight => true,
        KeyCode::F1 => true,
        KeyCode::F2 => true,
        KeyCode::F3 => true,
        KeyCode::F4 => true,
        KeyCode::F5 => true,
        KeyCode::F6 => true,
        KeyCode::F7 => true,
        KeyCode::F8 => true,
        KeyCode::F9 => true,
        KeyCode::F10 => true,
        KeyCode::F11 => true,
        KeyCode::F12 => true,
        _ => false,
    }
}

/// The characters of each word that a shortcut text may hold.
proof fn lemma_literal_contents()
    ensures
        "[space]"@ == seq!['[', 's', 'p', 'a', 'c', 'e', ']'],
        "[tab]"@ == seq!['[', 't', 'a', 'b', ']'],
        "[enter]"@ == seq!['[', 'e', 'n', 't', 'e', 'r', ']'],
        "[return]"@ == seq!['[', 'r', 'e', 't', 'u', 'r', 'n', ']'],
        "[backspace]"@ == seq!['[', 'b', 'a', 'c', 'k', 's', 'p', 'a', 'c', 'e', ']'],
        "[back]"@ == seq!['[', 'b', 'a', 'c', 'k', ']'],
        "[delete]"@ == seq!['[', 'd', 'e', 'l', 'e', 't', 'e', ']'],
        "[del]"@ == seq!['[', 'd', 'e', 'l', ']'],
        "[esc]"@ == seq!['[', 'e', 's', 'c', ']'],
        "[escape]"@ == seq!['[', 'e', 's', 'c', 'a', 'p', 'e', ']'],
        "[up]"@ == seq!['[', 'u', 'p', ']'],
        "[down]"@ == seq!['[', 'd', 'o', 'w', 'n', ']'],
        "[left]"@ == seq!['[', 'l', 'e', 'f', 't', ']'],
        "[right]"@ == seq!['[', 'r', 'i', 'g', 'h', 't', ']'],
        "[f1]"@ == seq!['[', 'f', '1', ']'],
        "[f2]"@ == seq!['[', 'f', '2', ']'],
        "[f3]"@ == seq!['[', 'f', '3', ']'],
        "[f4]"@ == seq!['[', 'f', '4', ']'],
        "[f5]"@ == seq!['[', 'f', '5', ']'],
        "[f6]"@ == seq!['[', 'f', '6', ']'],
        "[f7]"@ == seq!['[', 'f', '7', ']'],
        "[f8]"@ == seq!['[', 'f', '8', ']'],
        "[f9]"@ == seq!['[', 'f', '9', ']'],
        "[f10]"@ == seq!['[', 'f', '1', '0', ']'],
        "[f11]"@ == seq!['[', 'f', '1', '1', ']'],
        "[f12]"@ == seq!['[', 'f', '1', '2', ']'],
        "plus"@ == seq!['p', 'l', 'u', 's'],
        "[alt]"@ == seq!['[', 'a', 'l', 't', ']'],
        "[ctrl]"@ == seq!['[', 'c', 't', 'r', 'l', ']'],
        "[shift]"@ == seq!['[', 's', 'h', 'i', 'f', 't', ']'],
        "[win]"@ == seq!['[', 'w', 'i', 'n', ']'],
        "[meta]"@ == seq!['[', 'm', 'e', 't', 'a', ']'],
{
    reveal_strlit("[space]");
    reveal_strlit("[tab]");
    reveal_strlit("[enter]");
    reveal_strlit("[return]");
    reveal_strlit("[backspace]");
    reveal_strlit("[back]");
    reveal_strlit("[delete]");
    reveal_strlit("[del]");
    reveal_strlit("[esc]");
    reveal_strlit("[escape]");
    reveal_strlit("[up]");
    reveal_strlit("[down]");
    reveal_strlit("[left]");
    reveal_strlit("[right]");
    reveal_strlit("[f1]");
    reveal_strlit("[f2]");
    reveal_strlit("[f3]");
    reveal_strlit("[f4]");
    reveal_strlit("[f5]");
    reveal_strlit("[f6]");
    reveal_strlit("[f7]");
    reveal_strlit("[f8]");
    reveal_strlit("[f9]");
    reveal_strlit("[f10]");
    reveal_strlit("[f11]");
    reveal_strlit("[f12]");
    reveal_strlit("plus");
    reveal_strlit("[alt]");
    reveal_strlit("[ctrl]");
    reveal_strlit("[shift]");
    reveal_strlit("[win]");
    reveal_strlit("[meta]");
    assert("[space]"@ =~= seq!['[', 's', 'p', 'a', 'c', 'e', ']']);
    assert("[tab]"@ =~= seq!['[', 't', 'a', 'b', ']']);
    assert("[enter]"@ =~= seq!['[', 'e', 'n', 't', 'e', 'r', ']']);
    assert("[return]"@ =~= seq!['[', 'r', 'e', 't', 'u', 'r', 'n', ']']);
    assert("[backspace]"@ =~= seq!['[', 'b', 'a', 'c', 'k', 's', 'p', 'a', 'c', 'e', ']']);
    assert("[back]"@ =~= seq!['[', 'b', 'a', 'c', 'k', ']']);
    assert("[delete]"@ =~= seq!['[', 'd', 'e', 'l', 'e', 't', 'e', ']']);
    assert("[del]"@ =~= seq!['[', 'd', 'e', 'l', ']']);
    assert("[esc]"@ =~= seq!['[', 'e', 's', 'c', ']']);
    assert("[escape]"@ =~= seq!['[', 'e', 's', 'c', 'a', 'p', 'e', ']']);
    assert("[up]"@ =~= seq!['[', 'u', 'p', ']']);
    assert("[down]"@ =~= seq!['[', 'd', 'o', 'w', 'n', ']']);
    assert("[left]"@ =~= seq!['[', 'l', 'e', 'f', 't', ']']);
    assert("[right]"@ =~= seq!['[', 'r', 'i', 'g', 'h', 't', ']']);
    assert("[f1]"@ =~= seq!['[', 'f', '1', ']']);
    assert("[f2]"@ =~= seq!['[', 'f', '2', ']']);
    assert("[f3]"@ =~= seq!['[', 'f', '3', ']']);
    assert("[f4]"@ =~= seq!['[', 'f', '4', ']']);
    assert("[f5]"@ =~= seq!['[', 'f', '5', ']']);
    assert("[f6]"@ =~= seq!['[', 'f', '6', ']']);
    assert("[f7]"@ =~= seq!['[', 'f', '7', ']']);
    assert("[f8]"@ =~= seq!['[', 'f', '8', ']']);
    assert("[f9]"@ =~= seq!['[', 'f', '9', ']']);
    assert("[f10]"@ =~= seq!['[', 'f', '1', '0', ']']);
    assert("[f11]"@ =~= seq!['[', 'f', '1', '1', ']']);
    assert("[f12]"@ =~= seq!['[', 'f', '1', '2', ']']);
    assert("plus"@ =~= seq!['p', 'l', 'u', 's']);
    assert("[alt]"@ =~= seq!['[', 'a', 'l', 't', ']']);
    assert("[ctrl]"@ =~= seq!['[', 'c', 't', 'r', 'l', ']']);
    assert("[shift]"@ =~= seq!['[', 's', 'h', 'i', 'f', 't', ']']);
    assert("[win]"@ =~= seq!['[', 'w', 'i', 'n', ']']);
    assert("[meta]"@ =~= seq!['[', 'm', 'e', 't', 'a', ']']);
}

proof fn lemma_key_space()
    ensures
        plain(key_name(KeyCode::Space)),
        classify(key_name(KeyCode::Space)) == Part::Key(KeyCode::Space),
{
    lemma_literal_contents();
    assert("[space]"@[2] != "[shift]"@[2]);
    assert(key_name(KeyCode::Space) =~= seq!['[', 's', 'p', 'a', 'c', 'e', ']']);
}

proof fn lemma_key_tab()
    ensures
        plain(key_name(KeyCode::Tab)),
        classify(key_name(KeyCode::Tab)) == Part::Key(KeyCode::Tab),
{
    lemma_literal_contents();
    assert("[tab]"@[1] != "[alt]"@[1]);
    assert("[tab]"@[1] != "[win]"@[1]);
    assert(key_name(KeyCode::Tab) =~= seq!['[', 't', 'a', 'b', ']']);
}

proof fn lemma_key_enter()
    ensures
        plain(key_name(KeyCode::Enter)),
        classify(key_name(KeyCode::Enter)) == Part::Key(KeyCode::Enter),
{
    lemma_literal_contents();
    assert("[enter]"@[1] != "[shift]"@[1]);
    assert("[enter]"@[1] != "[space]"@[1]);
    assert(key_name(KeyCode::Enter) =~= seq!['[', 'e', 'n', 't', 'e', 'r', ']']);
}

proof fn lemma_key_backspace()
    ensures
        plain(key_name(KeyCode::Backspace)),
        classify(key_name(KeyCode::Backspace)) == Part::Key(KeyCode::Backspace),
{
    lemma_literal_contents();

    assert(key_name(KeyCode::Backspace) =~= seq!['[', 'b', 'a', 'c', 'k', 's', 'p', 'a', 'c', 'e', ']']);
}

proof fn lemma_key_delete()
    ensures
        plain(key_name(KeyCode::Delete)),
        classify(key_name(KeyCode::Delete)) == Part::Key(KeyCode::Delete),
{
    lemma_literal_contents();
    assert("[delete]"@[1] != "[return]"@[1]);
    assert(key_name(KeyCode::Delete) =~= seq!['[', 'd', 'e', 'l', 'e', 't', 'e', ']']);
}

proof fn lemma_key_escape()
    ensures
        plain(key_name(KeyCode::Escape)),
        classify(key_name(KeyCode::Escape)) == Part::Key(KeyCode::Escape),
{
    lemma_literal_contents();
    assert("[esc]"@[1] != "[alt]"@[1]);
    assert("[esc]"@[1] != "[win]"@[1]);
    assert("[esc]"@[1] != "[tab]"@[1]);
    assert("[esc]"@[1] != "[del]"@[1]);
    assert(key_name(KeyCode::Escape) =~= seq!['[', 'e', 's', 'c', ']']);
}

proof fn lemma_key_arrow_up()
    ensures
        plain(key_name(KeyCode::ArrowUp)),
        classify(key_name(KeyCode::ArrowUp)) == Part::Key(KeyCode::ArrowUp),
{
    lemma_literal_contents();

    assert(key_name(KeyCode::ArrowUp) =~= seq!['[', 'u', 'p', ']']);
}

proof fn lemma_key_arrow_down()
    ensures
        plain(key_name(KeyCode::ArrowDown)),
        classify(key_name(KeyCode::ArrowDown)) == Part::Key(KeyCode::ArrowDown),
{
    lemma_literal_contents();
    assert("[down]"@[1] != "[ctrl]"@[1]);
    assert("[down]"@[1] != "[meta]"@[1]);
    assert("[down]"@[1] != "[back]"@[1]);
    assert(key_name(KeyCode::ArrowDown) =~= seq!['[', 'd', 'o', 'w', 'n', ']']);
}

proof fn lemma_key_arrow_left()
    ensures
        plain(key_name(KeyCode::ArrowLeft)),
        classify(key_name(KeyCode::ArrowLeft)) == Part::Key(KeyCode::ArrowLeft),
{
    lemma_literal_contents();
    assert("[left]"@[1] != "[ctrl]"@[1]);
    assert("[left]"@[1] != "[meta]"@[1]);
    assert("[left]"@[1] != "[back]"@[1]);
    assert("[left]"@[1] != "[down]"@[1]);
    assert(key_name(KeyCode::ArrowLeft) =~= seq!['[', 'l', 'e', 'f', 't', ']']);
}

proof fn lemma_key_arrow_right()
    ensures
        plain(key_name(KeyCode::ArrowRight)),
        classify(key_name(KeyCode::ArrowRight)) == Part::Key(KeyCode::ArrowRight),
{
    lemma_literal_contents();
    assert("[right]"@[1] != "[shift]"@[1]);
    assert("[right]"@[1] != "[space]"@[1]);
    assert("[right]"@[1] != "[enter]"@[1]);
    assert(key_name(KeyCode::ArrowRight) =~= seq!['[', 'r', 'i', 'g', 'h', 't', ']']);
}

proof fn lemma_key_f1()
    ensures
        plain(key_name(KeyCode::F1)),
        classify(key_name(KeyCode::F1)) == Part::Key(KeyCode::F1),
{
    lemma_literal_contents();
    assert("[f1]"@[1] != "[up]"@[1]);
    assert(key_name(KeyCode::F1) =~= seq!['[', 'f', '1', ']']);
}

proof fn lemma_key_f2()
    ensures
        plain(key_name(KeyCode::F2)),
        classify(key_name(KeyCode::F2)) == Part::Key(KeyCode::F2),
{
    lemma_literal_contents();
    assert("[f2]"@[1] != "[up]"@[1]);
    assert("[f2]"@[2] != "[f1]"@[2]);
    assert(key_name(KeyCode::F2) =~= seq!['[', 'f', '2', ']']);
}

proof fn lemma_key_f3()
    ensures
        plain(key_name(KeyCode::F3)),
        classify(key_name(KeyCode::F3)) == Part::Key(KeyCode::F3),
{
    lemma_literal_contents();
    assert("[f3]"@[1] != "[up]"@[1]);
    assert("[f3]"@[2] != "[f1]"@[2]);
    assert("[f3]"@[2] != "[f2]"@[2]);
    assert(key_name(KeyCode::F3) =~= seq!['[', 'f', '3', ']']);
}

proof fn lemma_key_f4()
    ensures
        plain(key_name(KeyCode::F4)),
        classify(key_name(KeyCode::F4)) == Part::Key(KeyCode::F4),
{
    lemma_literal_contents();
    assert("[f4]"@[1] != "[up]"@[1]);
    assert("[f4]"@[2] != "[f1]"@[2]);
    assert("[f4]"@[2] != "[f2]"@[2]);
    assert("[f4]"@[2] != "[f3]"@[2]);
    assert(key_name(KeyCode::F4) =~= seq!['[', 'f', '4', ']']);
}

proof fn lemma_key_f5()
    ensures
        plain(key_name(KeyCode::F5)),
        classify(key_name(KeyCode::F5)) == Part::Key(KeyCode::F5),
{
    lemma_literal_contents();
    assert("[f5]"@[1] != "[up]"@[1]);
    assert("[f5]"@[2] != "[f1]"@[2]);
    assert("[f5]"@[2] != "[f2]"@[2]);
    assert("[f5]"@[2] != "[f3]"@[2]);
    assert("[f5]"@[2] != "[f4]"@[2]);
    assert(key_name(KeyCode::F5) =~= seq!['[', 'f', '5', ']']);
}

proof fn lemma_key_f6()
    ensures
        plain(key_name(KeyCode::F6)),
        classify(key_name(KeyCode::F6)) == Part::Key(KeyCode::F6),
{
    lemma_literal_contents();
    assert("[f6]"@[1] != "[up]"@[1]);
    assert("[f6]"@[2] != "[f1]"@[2]);
    assert("[f6]"@[2] != "[f2]"@[2]);
    assert("[f6]"@[2] != "[f3]"@[2]);
    assert("[f6]"@[2] != "[f4]"@[2]);
    assert("[f6]"@[2] != "[f5]"@[2]);
    assert(key_name(KeyCode::F6) =~= seq!['[', 'f', '6', ']']);
}

proof fn lemma_key_f7()
    ensures
        plain(key_name(KeyCode::F7)),
        classify(key_name(KeyCode::F7)) == Part::Key(KeyCode::F7),
{
    lemma_literal_contents();
    assert("[f7]"@[1] != "[up]"@[1]);
    assert("[f7]"@[2] != "[f1]"@[2]);
    assert("[f7]"@[2] != "[f2]"@[2]);
    assert("[f7]"@[2] != "[f3]"@[2]);
    assert("[f7]"@[2] != "[f4]"@[2]);
    assert("[f7]"@[2] != "[f5]"@[2]);
    assert("[f7]"@[2] != "[f6]"@[2]);
    assert(key_name(KeyCode::F7) =~= seq!['[', 'f', '7', ']']);
}

proof fn lemma_key_f8()
    ensures
        plain(key_name(KeyCode::F8)),
        classify(key_name(KeyCode::F8)) == Part::Key(KeyCode::F8),
{
    lemma_literal_contents();
    assert("[f8]"@[1] != "[up]"@[1]);
    assert("[f8]"@[2] != "[f1]"@[2]);
    assert("[f8]"@[2] != "[f2]"@[2]);
    assert("[f8]"@[2] != "[f3]"@[2]);
    assert("[f8]"@[2] != "[f4]"@[2]);
    assert("[f8]"@[2] != "[f5]"@[2]);
    assert("[f8]"@[2] != "[f6]"@[2]);
    assert("[f8]"@[2] != "[f7]"@[2]);
    assert(key_name(KeyCode::F8) =~= seq!['[', 'f', '8', ']']);
}

proof fn lemma_key_f9()
    ensures
        plain(key_name(KeyCode::F9)),
        classify(key_name(KeyCode::F9)) == Part::Key(KeyCode::F9),
{
    lemma_literal_contents();
    assert("[f9]"@[1] != "[up]"@[1]);
    assert("[f9]"@[2] != "[f1]"@[2]);
    assert("[f9]"@[2] != "[f2]"@[2]);
    assert("[f9]"@[2] != "[f3]"@[2]);
    assert("[f9]"@[2] != "[f4]"@[2]);
    assert("[f9]"@[2] != "[f5]"@[2]);
    assert("[f9]"@[2] != "[f6]"@[2]);
    assert("[f9]"@[2] != "[f7]"@[2]);
    assert("[f9]"@[2] != "[f8]"@[2]);
    assert(key_name(KeyCode::F9) =~= seq!['[', 'f', '9', ']']);
}

proof fn lemma_key_f10()
    ensures
        plain(key_name(KeyCode::F10)),
        classify(key_name(KeyCode::F10)) == Part::Key(KeyCode::F10),
{
    lemma_literal_contents();
    assert("[f10]"@[1] != "[alt]"@[1]);
    assert("[f10]"@[1] != "[win]"@[1]);
    assert("[f10]"@[1] != "[tab]"@[1]);
    assert("[f10]"@[1] != "[del]"@[1]);
    assert("[f10]"@[1] != "[esc]"@[1]);
    assert(key_name(KeyCode::F10) =~= seq!['[', 'f', '1', '0', ']']);
}

proof fn lemma_key_f11()
    ensures
        plain(key_name(KeyCode::F11)),
        classify(key_name(KeyCode::F11)) == Part::Key(KeyCode::F11),
{
    lemma_literal_contents();
    assert("[f11]"@[1] != "[alt]"@[1]);
    assert("[f11]"@[1] != "[win]"@[1]);
    assert("[f11]"@[1] != "[tab]"@[1]);
    assert("[f11]"@[1] != "[del]"@[1]);
    assert("[f11]"@[1] != "[esc]"@[1]);
    assert("[f11]"@[3] != "[f10]"@[3]);
    assert(key_name(KeyCode::F11) =~= seq!['[', 'f', '1', '1', ']']);
}

proof fn lemma_key_f12()
    ensures
        plain(key_name(KeyCode::F12)),
        classify(key_name(KeyCode::F12)) == Part::Key(KeyCode::F12),
{
    lemma_literal_contents();
    assert("[f12]"@[1] != "[alt]"@[1]);
    assert("[f12]"@[1] != "[win]"@[1]);
    assert("[f12]"@[1] != "[tab]"@[1]);
    assert("[f12]"@[1] != "[del]"@[1]);
    assert("[f12]"@[1] != "[esc]"@[1]);
    assert("[f12]"@[3] != "[f10]"@[3]);
    assert("[f12]"@[3] != "[f11]"@[3]);
    assert(key_name(KeyCode::F12) =~= seq!['[', 'f', '1', '2', ']']);
}

proof fn lemma_named_key(k: KeyCode)
    requires
        has_word_name(k),
    ensures
        plain(key_name(k)),
        classify(key_name(k)) == Part::Key(k),
{
    match k {
        KeyCode::Space => lemma_key_space(),
        KeyCode::Tab => lemma_key_tab(),
        KeyCode::Enter => lemma_key_enter(),
        KeyCode::Backspace => lemma_key_backspace(),
        KeyCode::Delete => lemma_key_delete(),
        KeyCode::Escape => lemma_key_escape(),
        KeyCode::ArrowUp => lemma_key_arrow_up(),
        KeyCode::ArrowDown => lemma_key_arrow_down(),
        KeyCode::ArrowLeft => lemma_key_arrow_left(),
        KeyCode::ArrowRight => lemma_key_arrow_right(),
        KeyCode::F1 => lemma_key_f1(),
        KeyCode::F2 => lemma_key_f2(),
        KeyCode::F3 => lemma_key_f3(),
        KeyCode::F4 => lemma_key_f4(),
        KeyCode::F5 => lemma_key_f5(),
        KeyCode::F6 => lemma_key_f6(),
        KeyCode::F7 => lemma_key_f7(),
        KeyCode::F8 => lemma_key_f8(),
        KeyCode::F9 => lemma_key_f9(),
        KeyCode::F10 => lemma_key_f10(),
        KeyCode::F11 => lemma_key_f11(),
        KeyCode::F12 => lemma_key_f12(),
        _ => {},
    }
}


#[verifier::rlimit(100)]
#[verifier::spinoff_prover]
proof fn lemma_char_key(k: KeyCode)
    requires
        !has_word_name(k),
    ensures
        plain(key_name(k)),
        classify(key_name(k)) == Part::Key(k),
{
    reveal_strlit("[space]");
    reveal_strlit("[tab]");
    reveal_strlit("[enter]");
    reveal_strlit("[return]");
    reveal_strlit("[backspace]");
    reveal_strlit("[back]");
    reveal_strlit("[delete]");
    reveal_strlit("[del]");
    reveal_strlit("[esc]");
    reveal_strlit("[escape]");
    reveal_strlit("[up]");
    reveal_strlit("[down]");
    reveal_strlit("[left]");
    reveal_strlit("[right]");
    reveal_strlit("[f1]");
    reveal_strlit("[f2]");
    reveal_strlit("[f3]");
    reveal_strlit("[f4]");
    reveal_strlit("[f5]");
    reveal_strlit("[f6]");
    reveal_strlit("[f7]");
    reveal_strlit("[f8]");
    reveal_strlit("[f9]");
    reveal_strlit("[f10]");
    reveal_strlit("[f11]");
    reveal_strlit("[f12]");
    reveal_strlit("plus");
    reveal_strlit("[alt]");
    reveal_strlit("[ctrl]");
    reveal_strlit("[shift]");
    reveal_strlit("[win]");
    reveal_strlit("[meta]");
    match k {
        KeyCode::Equal => {},
        KeyCode::KeyA => {},
        KeyCode::KeyB => {},
        KeyCode::KeyC => {},
        KeyCode::KeyD => {},
        KeyCode::KeyE => {},
        KeyCode::KeyF => {},
        KeyCode::KeyG => {},
        KeyCode::KeyH => {},
        KeyCode::KeyI => {},
        KeyCode::KeyJ => {},
        KeyCode::KeyK => {},
        KeyCode::KeyL => {},
        KeyCode::KeyM => {},
        KeyCode::KeyN => {},
        KeyCode::KeyO => {},
        KeyCode::KeyP => {},
        KeyCode::KeyQ => {},
        KeyCode::KeyR => {},
        KeyCode::KeyS => {},
        KeyCode::KeyT => {},
        KeyCode::KeyU => {},
        KeyCode::KeyV => {},
        KeyCode::KeyW => {},
        KeyCode::KeyX => {},
        KeyCode::KeyY => {},
        KeyCode::KeyZ => {},
        KeyCode::Digit0 => {},
        KeyCode::Digit1 => {},
        KeyCode::Digit2 => {},
        KeyCode::Digit3 => {},
        KeyCode::Digit4 => {},
        KeyCode::Digit5 => {},
        KeyCode::Digit6 => {},
        KeyCode::Digit7 => {},
        KeyCode::Digit8 => {},
        KeyCode::Digit9 => {},
        KeyCode::Slash => {},
        KeyCode::Period => {},
        KeyCode::Comma => {},
        KeyCode::Semicolon => {},
        KeyCode::Quote => {},
        KeyCode::BracketLeft => {},
        KeyCode::BracketRight => {},
        KeyCode::Minus => {},
        KeyCode::Backquote => {},
        KeyCode::Backslash => {},
        _ => {},
    }
}

proof fn lemma_key_name(k: KeyCode)
    ensures
        plain(key_name(k)),
        classify(key_name(k)) == Part::Key(k),
{
    if !has_word_name(k) {
        lemma_char_key(k);
    } else {
        lemma_named_key(k);
    }
}

/// Parsing the canonical text of a shortcut gives that shortcut back.
pub proof fn lemma_canonical_round_trip(h: HotkeySpec)
    ensures
        hotkey_of(canonical_text(h)) == Some(h),
{
    let m = h.modifiers;
    let k = key_name(h.key);
    lemma_key_name(h.key);
    lemma_modifier_tokens();
    lemma_plain_is_normal(k);
    lemma_plain_is_normal("[alt]"@);
    lemma_plain_is_normal("[ctrl]"@);
    lemma_plain_is_normal("[shift]"@);
    lemma_plain_is_normal("[win]"@);
    lemma_expand_plain(k, Seq::empty());
    assert(k + Seq::<char>::empty() =~= k);
    lemma_split_single(k, '+');

    let s4 = seq![k];
    let r3 = with_prefix(m.meta, "[win]"@, k);
    lemma_prefix_level(m.meta, "[win]"@, k, s4);
    let s3 = if m.meta { seq!["[win]"@] + s4 } else { s4 };
    let r2 = with_prefix(m.shift, "[shift]"@, r3);
    lemma_prefix_level(m.shift, "[shift]"@, r3, s3);
    let s2 = if m.shift { seq!["[shift]"@] + s3 } else { s3 };
    let r1 = with_prefix(m.control, "[ctrl]"@, r2);
    lemma_prefix_level(m.control, "[ctrl]"@, r2, s2);
    let s1 = if m.control { seq!["[ctrl]"@] + s2 } else { s2 };
    lemma_prefix_level(m.alt, "[alt]"@, r1, s1);
    let s0 = if m.alt { seq!["[alt]"@] + s1 } else { s1 };
    assert(canonical_text(h) == with_prefix(m.alt, "[alt]"@, r1));
    assert(split_on(expand_plus(canonical_text(h)), '+') == s0);

    assert(s4.drop_last() =~= Seq::<Seq<char>>::empty());
    assert(s4.last() == k);
    assert(gather(Seq::<Seq<char>>::empty()) == (no_modifiers(), Option::<KeyCode>::None));
    assert(gather(s4) == (no_modifiers(), Some(h.key)));
    if m.meta {
        lemma_gather_prepend("[win]"@, s4, Modifier::Meta);
    }
    if m.shift {
        lemma_gather_prepend("[shift]"@, s3, Modifier::Shift);
    }
    if m.control {
        lemma_gather_prepend("[ctrl]"@, s2, Modifier::Control);
    }
    if m.alt {
        lemma_gather_prepend("[alt]"@, s1, Modifier::Alt);
    }
    assert(gather(s0) == (m, Some(h.key)));
}

/// Parsing is idempotent: the canonical text of a parsed shortcut parses to the same
/// shortcut.
pub proof fn lemma_parse_idempotent(text: Seq<char>)
    requires
        hotkey_of(text) is Some,
    ensures
        hotkey_of(canonical_text(hotkey_of(text)->0)) == hotkey_of(text),
{
    lemma_canonical_round_trip(hotkey_of(text)->0);
}

} // verus!
