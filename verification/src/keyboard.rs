//! Hardware keyboard decoding: UIKeyboardHIDUsage key codes, UIKit
//! modifier flags, the press/insert de-duplication state, and the
//! non-QWERTY shortcut mapper.
use vstd::prelude::*;
use crate::strings::{owned, starts_with, string_from_char, to_lowercase, spec_to_lowercase, spec_decimal};

verus! {

/// The GPUI key name of a `UIKeyboardHIDUsage` key code, if it has one.
pub open spec fn spec_key_name(keycode: isize) -> Option<Seq<char>> {
    match keycode {
        0x28 => Some("enter"@),
        0x29 => Some("escape"@),
        0x2A => Some("backspace"@),
        0x2B => Some("tab"@),
        0x2C => Some("space"@),
        0x39 => Some("capslock"@),
        0x3A => Some("f1"@),
        0x3B => Some("f2"@),
        0x3C => Some("f3"@),
        0x3D => Some("f4"@),
        0x3E => Some("f5"@),
        0x3F => Some("f6"@),
        0x40 => Some("f7"@),
        0x41 => Some("f8"@),
        0x42 => Some("f9"@),
        0x43 => Some("f10"@),
        0x44 => Some("f11"@),
        0x45 => Some("f12"@),
        0x46 => Some("printscreen"@),
        0x47 => Some("scrolllock"@),
        0x48 => Some("pause"@),
        0x49 => Some("insert"@),
        0x4A => Some("home"@),
        0x4B => Some("pageup"@),
        0x4C => Some("delete"@),
        0x4D => Some("end"@),
        0x4E => Some("pagedown"@),
        0x4F => Some("right"@),
        0x50 => Some("left"@),
        0x51 => Some("down"@),
        0x52 => Some("up"@),
        0x53 => Some("numlock"@),
        0x54 => Some("numpad-divide"@),
        0x55 => Some("numpad-multiply"@),
        0x56 => Some("numpad-subtract"@),
        0x57 => Some("numpad-add"@),
        0x58 => Some("numpad-enter"@),
        0x59 => Some("numpad-1"@),
        0x5A => Some("numpad-2"@),
        0x5B => Some("numpad-3"@),
        0x5C => Some("numpad-4"@),
        0x5D => Some("numpad-5"@),
        0x5E => Some("numpad-6"@),
        0x5F => Some("numpad-7"@),
        0x60 => Some("numpad-8"@),
        0x61 => Some("numpad-9"@),
        0x62 => Some("numpad-0"@),
        0x63 => Some("numpad-decimal"@),
        0x67 => Some("numpad-equal"@),
        0x68 => Some("f13"@),
        0x69 => Some("f14"@),
        0x6A => Some("f15"@),
        0x6B => Some("f16"@),
        0x6C => Some("f17"@),
        0x6D => Some("f18"@),
        0x6E => Some("f19"@),
        0x6F => Some("f20"@),
        0x70 => Some("f21"@),
        0x71 => Some("f22"@),
        0x72 => Some("f23"@),
        0x73 => Some("f24"@),
        0x76 => Some("menu"@),
        0x7F => Some("mute"@),
        0x80 => Some("volumeup"@),
        0x81 => Some("volumedown"@),
        0xE0 => Some("leftctrl"@),
        0xE1 => Some("leftshift"@),
        0xE2 => Some("leftalt"@),
        0xE3 => Some("leftmeta"@),
        0xE4 => Some("rightctrl"@),
        0xE5 => Some("rightshift"@),
        0xE6 => Some("rightalt"@),
        0xE7 => Some("rightmeta"@),
        _ => None,
    }
}

/// Maps a `UIKeyboardHIDUsage` key code to a GPUI key name.
pub fn keycode_to_key_name(keycode: isize) -> (name: Option<&'static str>)
    ensures
        spec_key_name(keycode) == match name {
            Some(s) => Some(s@),
            None => None::<Seq<char>>,
        },
{
    match keycode {
        0x28 => Some("enter"),
        0x29 => Some("escape"),
        0x2A => Some("backspace"),
        0x2B => Some("tab"),
        0x2C => Some("space"),
        0x39 => Some("capslock"),
        0x3A => Some("f1"),
        0x3B => Some("f2"),
        0x3C => Some("f3"),
        0x3D => Some("f4"),
        0x3E => Some("f5"),
        0x3F => Some("f6"),
        0x40 => Some("f7"),
        0x41 => Some("f8"),
        0x42 => Some("f9"),
        0x43 => Some("f10"),
        0x44 => Some("f11"),
        0x45 => Some("f12"),
        0x46 => Some("printscreen"),
        0x47 => Some("scrolllock"),
        0x48 => Some("pause"),
        0x49 => Some("insert"),
        0x4A => Some("home"),
        0x4B => Some("pageup"),
        0x4C => Some("delete"),
        0x4D => Some("end"),
        0x4E => Some("pagedown"),
        0x4F => Some("right"),
        0x50 => Some("left"),
        0x51 => Some("down"),
        0x52 => Some("up"),
        0x53 => Some("numlock"),
        0x54 => Some("numpad-divide"),
        0x55 => Some("numpad-multiply"),
        0x56 => Some("numpad-subtract"),
        0x57 => Some("numpad-add"),
        0x58 => Some("numpad-enter"),
        0x59 => Some("numpad-1"),
        0x5A => Some("numpad-2"),
        0x5B => Some("numpad-3"),
        0x5C => Some("numpad-4"),
        0x5D => Some("numpad-5"),
        0x5E => Some("numpad-6"),
        0x5F => Some("numpad-7"),
        0x60 => Some("numpad-8"),
        0x61 => Some("numpad-9"),
        0x62 => Some("numpad-0"),
        0x63 => Some("numpad-decimal"),
        0x67 => Some("numpad-equal"),
        0x68 => Some("f13"),
        0x69 => Some("f14"),
        0x6A => Some("f15"),
        0x6B => Some("f16"),
        0x6C => Some("f17"),
        0x6D => Some("f18"),
        0x6E => Some("f19"),
        0x6F => Some("f20"),
        0x70 => Some("f21"),
        0x71 => Some("f22"),
        0x72 => Some("f23"),
        0x73 => Some("f24"),
        0x76 => Some("menu"),
        0x7F => Some("mute"),
        0x80 => Some("volumeup"),
        0x81 => Some("volumedown"),
        0xE0 => Some("leftctrl"),
        0xE1 => Some("leftshift"),
        0xE2 => Some("leftalt"),
        0xE3 => Some("leftmeta"),
        0xE4 => Some("rightctrl"),
        0xE5 => Some("rightshift"),
        0xE6 => Some("rightalt"),
        0xE7 => Some("rightmeta"),
        _ => None,
    }
}

/// Keyboard modifier state.
#[derive(Clone, Copy, Debug, PartialEq, Eq, Structural)]
pub struct Modifiers {
    pub control: bool,
    pub alt: bool,
    pub shift: bool,
    pub platform: bool,
    pub function: bool,
}

impl Modifiers {
    pub open spec fn spec_none() -> Modifiers {
        Modifiers { control: false, alt: false, shift: false, platform: false, function: false }
    }
}

impl Default for Modifiers {
    fn default() -> (m: Modifiers)
        ensures
            m == Modifiers::spec_none(),
    {
        Modifiers { control: false, alt: false, shift: false, platform: false, function: false }
    }
}

/// `UIKeyModifierFlags` bits.
pub const UI_KEY_MODIFIER_SHIFT: isize = 0x020000;
pub const UI_KEY_MODIFIER_CONTROL: isize = 0x040000;
pub const UI_KEY_MODIFIER_ALTERNATE: isize = 0x080000;
pub const UI_KEY_MODIFIER_COMMAND: isize = 0x100000;
pub const UI_KEY_MODIFIER_NUMERIC_PAD: isize = 0x800000;

/// Whether bit `bit` of `flags` is set.
pub open spec fn flag_bit(flags: isize, bit: isize) -> bool {
    (flags >> bit) & 1 == 1
}

/// The modifiers a `UIKeyModifierFlags` bitmask encodes: control is bit 18,
/// alternate bit 19, shift bit 17, command bit 20, and the numeric-pad bit
/// 23 stands in for the function key.
pub open spec fn spec_modifiers_from_flags(flags: isize) -> Modifiers {
    Modifiers {
        control: flag_bit(flags, 18),
        alt: flag_bit(flags, 19),
        shift: flag_bit(flags, 17),
        platform: flag_bit(flags, 20),
        function: flag_bit(flags, 23),
    }
}

pub fn modifiers_from_flags(flags: isize) -> (m: Modifiers)
    ensures
        m == spec_modifiers_from_flags(flags),
{
    let m = Modifiers {
        control: flags & UI_KEY_MODIFIER_CONTROL != 0,
        alt: flags & UI_KEY_MODIFIER_ALTERNATE != 0,
        shift: flags & UI_KEY_MODIFIER_SHIFT != 0,
        platform: flags & UI_KEY_MODIFIER_COMMAND != 0,
        function: flags & UI_KEY_MODIFIER_NUMERIC_PAD != 0,
    };
    assert((flags & 0x040000 != 0) == ((flags >> 18isize) & 1 == 1)) by (bit_vector);
    assert((flags & 0x080000 != 0) == ((flags >> 19isize) & 1 == 1)) by (bit_vector);
    assert((flags & 0x020000 != 0) == ((flags >> 17isize) & 1 == 1)) by (bit_vector);
    assert((flags & 0x100000 != 0) == ((flags >> 20isize) & 1 == 1)) by (bit_vector);
    assert((flags & 0x800000 != 0) == ((flags >> 23isize) & 1 == 1)) by (bit_vector);
    m
}

/// HID usages 224 to 231 are the modifier-only keys (left/right control,
/// shift, alt and meta).
pub open spec fn spec_is_modifier_key(keycode: isize) -> bool {
    224 <= keycode <= 231
}

pub fn is_modifier_key(keycode: isize) -> (b: bool)
    ensures
        b == spec_is_modifier_key(keycode),
{
    224 <= keycode && keycode <= 231
}


/// The view of an optional string slice.
pub open spec fn opt_str_view(s: Option<&str>) -> Option<Seq<char>> {
    match s {
        Some(t) => Some(t@),
        None => None,
    }
}

/// The view of an optional owned string.
pub open spec fn opt_string_view(s: Option<String>) -> Option<Seq<char>> {
    match s {
        Some(t) => Some(t@),
        None => None,
    }
}

/// A keystroke as GPUI receives it.
#[derive(Debug)]
pub struct Keystroke {
    pub modifiers: Modifiers,
    pub key: String,
    pub key_char: Option<String>,
    pub native_key_code: Option<u16>,
}

/// Keyboard events produced by the hardware keyboard and the text input
/// system.
#[derive(Debug)]
pub enum KeyInput {
    ModifiersChanged(Modifiers),
    KeyDown { keystroke: Keystroke, is_held: bool, prefer_character_input: bool },
    KeyUp { keystroke: Keystroke },
}

/// The key name a press reports: its HID name when it has one, otherwise
/// the lowercased `charactersIgnoringModifiers`; none when neither exists.
pub open spec fn spec_press_key_name(keycode: isize, characters_ignoring_modifiers: Option<Seq<char>>) -> Option<Seq<char>> {
    match spec_key_name(keycode) {
        Some(name) => Some(name),
        None => match characters_ignoring_modifiers {
            Some(chars) => Some(spec_to_lowercase(chars)),
            None => None,
        },
    }
}

fn press_key_name(keycode: isize, characters_ignoring_modifiers: Option<&str>) -> (r: Option<String>)
    ensures
        opt_string_view(r) == spec_press_key_name(keycode, opt_str_view(characters_ignoring_modifiers)),
{
    match keycode_to_key_name(keycode) {
        Some(name) => Some(owned(name)),
        None => match characters_ignoring_modifiers {
            Some(chars) => Some(to_lowercase(chars)),
            None => None,
        },
    }
}

/// Whether a press delivers a key (and so marks that the text system's
/// echo of it is to be dropped): a non-modifier key that has a name.
pub open spec fn spec_press_delivers_key(keycode: isize, characters_ignoring_modifiers: Option<Seq<char>>) -> bool {
    !spec_is_modifier_key(keycode) && spec_press_key_name(keycode, characters_ignoring_modifiers) is Some
}

/// The de-duplication flag after `insertText:` with `text`: any non-empty
/// text clears it.
pub open spec fn spec_flag_after_insert(flag: bool, text: Seq<char>) -> bool {
    if text.len() != 0 {
        false
    } else {
        flag
    }
}

/// Whether `insertText:` drops `text`: empty text, or text a hardware press
/// already delivered.
pub open spec fn spec_insert_dropped(flag: bool, text: Seq<char>) -> bool {
    text.len() == 0 || flag
}

/// Window-level keyboard state: the live modifier state and the flag that
/// tells `insertText:` that a hardware press already delivered the key.
#[derive(Debug)]
pub struct KeyboardInputState {
    pub current_modifiers: Modifiers,
    pub last_press_had_key: bool,
}

/// What the text input system's `insertText:` should do.
#[derive(Debug)]
pub enum TextInsertAction {
    /// Nothing to deliver.
    Ignore,
    /// Hand the text to the focused input handler.
    ReplaceText(String),
    /// No input handler: deliver the text as a key press.
    Dispatch(KeyInput),
}

impl KeyboardInputState {
    pub fn new() -> (s: Self)
        ensures
            s.current_modifiers == Modifiers::spec_none(),
            !s.last_press_had_key,
    {
        KeyboardInputState { current_modifiers: Modifiers::default(), last_press_had_key: false }
    }

    /// `pressesBegan:` for one press. The live modifiers always follow the
    /// press's flags. A modifier-only key reports a modifier change; any
    /// other key with a name becomes a key-down (and marks that a press
    /// delivered a key); a key without a name is dropped.
    pub fn press_began(
        &mut self,
        keycode: isize,
        modifier_flags: isize,
        characters_ignoring_modifiers: Option<&str>,
        characters: Option<&str>,
    ) -> (r: Option<KeyInput>)
        ensures
            final(self).current_modifiers == spec_modifiers_from_flags(modifier_flags),
            final(self).last_press_had_key == (old(self).last_press_had_key
                || spec_press_delivers_key(keycode, opt_str_view(characters_ignoring_modifiers))),
            spec_is_modifier_key(keycode) ==> (r == Some(KeyInput::ModifiersChanged(spec_modifiers_from_flags(modifier_flags)))
                && final(self).last_press_had_key == old(self).last_press_had_key),
            !spec_is_modifier_key(keycode) && spec_press_key_name(keycode, opt_str_view(characters_ignoring_modifiers)) is None
                ==> (r is None && final(self).last_press_had_key == old(self).last_press_had_key),
            !spec_is_modifier_key(keycode) && spec_press_key_name(keycode, opt_str_view(characters_ignoring_modifiers)) is Some
                ==> ({
                    &&& r matches Some(KeyInput::KeyDown { keystroke, is_held, prefer_character_input })
                    &&& !is_held && !prefer_character_input
                    &&& keystroke.modifiers == spec_modifiers_from_flags(modifier_flags)
                    &&& Some(keystroke.key@) == spec_press_key_name(keycode, opt_str_view(characters_ignoring_modifiers))
                    &&& opt_string_view(keystroke.key_char) == opt_str_view(characters)
                    &&& keystroke.native_key_code == Some(keycode as u16)
                    &&& final(self).last_press_had_key
                }),
    {
        let modifiers = modifiers_from_flags(modifier_flags);
        self.current_modifiers = modifiers;
        if is_modifier_key(keycode) {
            return Some(KeyInput::ModifiersChanged(modifiers));
        }
        let key = match press_key_name(keycode, characters_ignoring_modifiers) {
            Some(k) => k,
            None => return None,
        };
        let key_char = match characters {
            Some(c) => Some(owned(c)),
            None => None,
        };
        self.last_press_had_key = true;
        Some(
            KeyInput::KeyDown {
                keystroke: Keystroke {
                    modifiers,
                    key,
                    key_char,
                    native_key_code: Some(keycode as u16),
                },
                is_held: false,
                prefer_character_input: false,
            },
        )
    }

    /// `pressesEnded:` (and `pressesCancelled:`) for one press: like a
    /// press beginning, but a named key becomes a key-up without a
    /// character, and the de-duplication flag is left alone.
    pub fn press_ended(
        &mut self,
        keycode: isize,
        modifier_flags: isize,
        characters_ignoring_modifiers: Option<&str>,
    ) -> (r: Option<KeyInput>)
        ensures
            final(self).current_modifiers == spec_modifiers_from_flags(modifier_flags),
            final(self).last_press_had_key == old(self).last_press_had_key,
            spec_is_modifier_key(keycode) ==> r == Some(KeyInput::ModifiersChanged(spec_modifiers_from_flags(modifier_flags))),
            !spec_is_modifier_key(keycode) && spec_press_key_name(keycode, opt_str_view(characters_ignoring_modifiers)) is None
                ==> r is None,
            !spec_is_modifier_key(keycode) && spec_press_key_name(keycode, opt_str_view(characters_ignoring_modifiers)) is Some
                ==> ({
                    &&& r matches Some(KeyInput::KeyUp { keystroke })
                    &&& keystroke.modifiers == spec_modifiers_from_flags(modifier_flags)
                    &&& Some(keystroke.key@) == spec_press_key_name(keycode, opt_str_view(characters_ignoring_modifiers))
                    &&& keystroke.key_char is None
                    &&& keystroke.native_key_code == Some(keycode as u16)
                }),
    {
        let modifiers = modifiers_from_flags(modifier_flags);
        self.current_modifiers = modifiers;
        if is_modifier_key(keycode) {
            return Some(KeyInput::ModifiersChanged(modifiers));
        }
        let key = match press_key_name(keycode, characters_ignoring_modifiers) {
            Some(k) => k,
            None => return None,
        };
        Some(
            KeyInput::KeyUp {
                keystroke: Keystroke {
                    modifiers,
                    key,
                    key_char: None,
                    native_key_code: Some(keycode as u16),
                },
            },
        )
    }

    /// `insertText:` from the software keyboard or IME. Empty text is
    /// ignored. When a hardware press already delivered this key the flag
    /// is cleared and the text dropped. Otherwise the text goes to the
    /// input handler if there is one, or becomes a character key-down with
    /// no modifiers.
    pub fn insert_text(&mut self, text: &str, has_input_handler: bool) -> (a: TextInsertAction)
        ensures
            text@.len() == 0 ==> (a is Ignore && final(self).last_press_had_key == old(self).last_press_had_key),
            text@.len() != 0 && old(self).last_press_had_key ==> (a is Ignore && !final(self).last_press_had_key),
            text@.len() != 0 && !old(self).last_press_had_key && has_input_handler
                ==> (a matches TextInsertAction::ReplaceText(t) && t@ == text@),
            text@.len() != 0 && !old(self).last_press_had_key && !has_input_handler ==> ({
                &&& a matches TextInsertAction::Dispatch(KeyInput::KeyDown { keystroke, is_held, prefer_character_input })
                &&& !is_held && prefer_character_input
                &&& keystroke.modifiers == Modifiers::spec_none()
                &&& keystroke.key@ == text@
                &&& opt_string_view(keystroke.key_char) == Some(text@)
                &&& keystroke.native_key_code is None
            }),
            text@.len() != 0 && !old(self).last_press_had_key ==> !final(self).last_press_had_key,
            (a is Ignore) == spec_insert_dropped(old(self).last_press_had_key, text@),
            final(self).last_press_had_key == spec_flag_after_insert(old(self).last_press_had_key, text@),
            final(self).current_modifiers == old(self).current_modifiers,
    {
        if text.is_empty() {
            return TextInsertAction::Ignore;
        }
        if self.last_press_had_key {
            self.last_press_had_key = false;
            return TextInsertAction::Ignore;
        }
        if has_input_handler {
            return TextInsertAction::ReplaceText(owned(text));
        }
        TextInsertAction::Dispatch(
            KeyInput::KeyDown {
                keystroke: Keystroke {
                    modifiers: Modifiers::default(),
                    key: owned(text),
                    key_char: Some(owned(text)),
                    native_key_code: None,
                },
                is_held: false,
                prefer_character_input: true,
            },
        )
    }

    /// `deleteBackward`: dropped (clearing the flag) when a hardware press
    /// already delivered it, otherwise a `backspace` key-down.
    pub fn delete_backward(&mut self) -> (r: Option<KeyInput>)
        ensures
            old(self).last_press_had_key ==> r is None,
            !old(self).last_press_had_key ==> ({
                &&& r matches Some(KeyInput::KeyDown { keystroke, is_held, prefer_character_input })
                &&& !is_held && !prefer_character_input
                &&& keystroke.modifiers == Modifiers::spec_none()
                &&& keystroke.key@ == "backspace"@
                &&& keystroke.key_char is None
                &&& keystroke.native_key_code is None
            }),
            !final(self).last_press_had_key,
            final(self).current_modifiers == old(self).current_modifiers,
    {
        if self.last_press_had_key {
            self.last_press_had_key = false;
            return None;
        }
        Some(
            KeyInput::KeyDown {
                keystroke: Keystroke {
                    modifiers: Modifiers::default(),
                    key: owned("backspace"),
                    key_char: None,
                    native_key_code: None,
                },
                is_held: false,
                prefer_character_input: false,
            },
        )
    }
}


/// The physical-to-QWERTY key equivalents for a keyboard layout, chosen by
/// the layout identifier's language prefix: AZERTY for French and
/// Belgian, QWERTZ for German, Austrian, Czech, Slovak and Hungarian, the
/// Turkish F layout, and none for QWERTY layouts.
pub open spec fn spec_layout_equivalents(layout_id: Seq<char>) -> Option<Seq<(char, char)>> {
    if "fr"@.is_prefix_of(layout_id) {
        Some(seq![('a', 'q'), ('q', 'a'), ('z', 'w'), ('w', 'z'), ('m', ';')])
    } else if "de"@.is_prefix_of(layout_id) || "at"@.is_prefix_of(layout_id) {
        Some(seq![('y', 'z'), ('z', 'y')])
    } else if "cs"@.is_prefix_of(layout_id) || "sk"@.is_prefix_of(layout_id) || "hu"@.is_prefix_of(layout_id) {
        Some(seq![('y', 'z'), ('z', 'y')])
    } else if "be"@.is_prefix_of(layout_id) {
        Some(seq![('a', 'q'), ('q', 'a'), ('z', 'w'), ('w', 'z'), ('m', ';')])
    } else if "tr"@.is_prefix_of(layout_id) {
        Some(seq![('f', 'a'), ('g', 's'), ('j', 'h'), ('k', 'j')])
    } else {
        None
    }
}

/// The character a table maps `c` to: the value of the first pair keyed
/// by `c`.
pub open spec fn spec_lookup(pairs: Seq<(char, char)>, c: char) -> Option<char>
    decreases pairs.len(),
{
    if pairs.len() == 0 {
        None
    } else if pairs[0].0 == c {
        Some(pairs[0].1)
    } else {
        spec_lookup(pairs.drop_first(), c)
    }
}

/// No two pairs of the table share a key, so it is a map.
pub open spec fn keys_distinct(pairs: Seq<(char, char)>) -> bool {
    forall|i: int, j: int| 0 <= i < j < pairs.len() ==> pairs[i].0 != pairs[j].0
}

/// Every table a layout yields is a map: no key occurs twice.
pub proof fn lemma_layout_keys_distinct(layout_id: Seq<char>)
    ensures
        spec_layout_equivalents(layout_id) matches Some(pairs) ==> keys_distinct(pairs),
{
}

/// In a table without repeated keys, the lookup of a pair's key gives that
/// pair's value.
pub proof fn lemma_lookup_finds_pair(pairs: Seq<(char, char)>, i: int)
    requires
        keys_distinct(pairs),
        0 <= i < pairs.len(),
    ensures
        spec_lookup(pairs, pairs[i].0) == Some(pairs[i].1),
    decreases pairs.len(),
{
    if i > 0 {
        let rest = pairs.drop_first();
        assert(rest[i - 1] == pairs[i]);
        lemma_lookup_finds_pair(rest, i - 1);
    }
}

fn push_pair(v: &mut Vec<(char, char)>, a: char, b: char)
    ensures
        final(v)@ == old(v)@.push((a, b)),
{
    v.push((a, b));
}

fn azerty_pairs() -> (v: Vec<(char, char)>)
    ensures
        v@ == seq![('a', 'q'), ('q', 'a'), ('z', 'w'), ('w', 'z'), ('m', ';')],
{
    let mut v: Vec<(char, char)> = Vec::new();
    push_pair(&mut v, 'a', 'q');
    push_pair(&mut v, 'q', 'a');
    push_pair(&mut v, 'z', 'w');
    push_pair(&mut v, 'w', 'z');
    push_pair(&mut v, 'm', ';');
    v
}

fn qwertz_pairs() -> (v: Vec<(char, char)>)
    ensures
        v@ == seq![('y', 'z'), ('z', 'y')],
{
    let mut v: Vec<(char, char)> = Vec::new();
    push_pair(&mut v, 'y', 'z');
    push_pair(&mut v, 'z', 'y');
    v
}

fn turkish_f_pairs() -> (v: Vec<(char, char)>)
    ensures
        v@ == seq![('f', 'a'), ('g', 's'), ('j', 'h'), ('k', 'j')],
{
    let mut v: Vec<(char, char)> = Vec::new();
    push_pair(&mut v, 'f', 'a');
    push_pair(&mut v, 'g', 's');
    push_pair(&mut v, 'j', 'h');
    push_pair(&mut v, 'k', 'j');
    v
}

fn lookup(pairs: &Vec<(char, char)>, c: char) -> (r: Option<char>)
    ensures
        r == spec_lookup(pairs@, c),
{
    let mut i: usize = 0;
    assert(pairs@.subrange(0, pairs@.len() as int) == pairs@);
    while i < pairs.len()
        invariant
            i <= pairs.len(),
            spec_lookup(pairs@, c) == spec_lookup(pairs@.subrange(i as int, pairs@.len() as int), c),
        decreases pairs.len() - i,
    {
        let ghost rest = pairs@.subrange(i as int, pairs@.len() as int);
        if pairs[i].0 == c {
            return Some(pairs[i].1);
        }
        assert(rest.drop_first() == pairs@.subrange(i + 1, pairs@.len() as int));
        i = i + 1;
    }
    None
}

/// Maps keystrokes typed on a non-QWERTY hardware keyboard to the QWERTY
/// key at the same physical position, so that shortcuts keep their place.
#[derive(Debug)]
pub struct IosKeyboardMapper {
    key_equivalents: Option<Vec<(char, char)>>,
}

impl View for IosKeyboardMapper {
    type V = Option<Seq<(char, char)>>;

    closed spec fn view(&self) -> Option<Seq<(char, char)>> {
        match self.key_equivalents {
            Some(v) => Some(v@),
            None => None,
        }
    }
}

/// The key a keystroke maps to: with equivalents in use and a table
/// present, a one-character key that the table maps is replaced by its
/// equivalent; every other key stays as it is.
pub open spec fn spec_mapped_key(table: Option<Seq<(char, char)>>, key: Seq<char>, use_key_equivalents: bool) -> Seq<char> {
    match table {
        Some(pairs) => if use_key_equivalents && key.len() == 1 {
            match spec_lookup(pairs, key[0]) {
                Some(m) => seq![m],
                None => key,
            }
        } else {
            key
        },
        None => key,
    }
}

impl IosKeyboardMapper {
    /// The mapper for the layout with identifier `layout_id`.
    pub fn new(layout_id: &str) -> (m: Self)
        ensures
            m@ == spec_layout_equivalents(layout_id@),
    {
        let key_equivalents = if starts_with(layout_id, "fr") {
            Some(azerty_pairs())
        } else if starts_with(layout_id, "de") || starts_with(layout_id, "at") {
            Some(qwertz_pairs())
        } else if starts_with(layout_id, "cs") || starts_with(layout_id, "sk") || starts_with(
            layout_id,
            "hu",
        ) {
            Some(qwertz_pairs())
        } else if starts_with(layout_id, "be") {
            Some(azerty_pairs())
        } else if starts_with(layout_id, "tr") {
            Some(turkish_f_pairs())
        } else {
            None
        };
        IosKeyboardMapper { key_equivalents }
    }

    /// Applies the layout's key equivalent to a keystroke's key when
    /// `use_key_equivalents` is set; the rest of the keystroke is kept.
    pub fn map_key_equivalent(&self, keystroke: Keystroke, use_key_equivalents: bool) -> (r: Keystroke)
        ensures
            r.key@ == spec_mapped_key(self@, keystroke.key@, use_key_equivalents),
            r.modifiers == keystroke.modifiers,
            r.key_char == keystroke.key_char,
            r.native_key_code == keystroke.native_key_code,
    {
        let mut keystroke = keystroke;
        if use_key_equivalents {
            if let Some(map) = &self.key_equivalents {
                let chars = crate::strings::chars_of(keystroke.key.as_str());
                if chars.len() == 1 {
                    if let Some(mapped) = lookup(map, chars[0]) {
                        keystroke.key = string_from_char(mapped);
                    }
                }
            }
        }
        keystroke
    }

    /// The layout's key-equivalent table, if it has one.
    pub fn get_key_equivalents(&self) -> (r: Option<&Vec<(char, char)>>)
        ensures
            match r {
                Some(v) => self@ == Some(v@),
                None => self@ is None,
            },
    {
        match &self.key_equivalents {
            Some(v) => Some(v),
            None => None,
        }
    }
}

/// A keyboard layout's identifier and display name.
#[derive(Debug)]
pub struct IosKeyboardLayout {
    id: String,
    name: String,
}

impl View for IosKeyboardLayout {
    /// The identifier and the name.
    type V = (Seq<char>, Seq<char>);

    closed spec fn view(&self) -> (Seq<char>, Seq<char>) {
        (self.id@, self.name@)
    }
}

impl IosKeyboardLayout {
    /// The layout of the active text input mode: its primary language
    /// serves as both identifier and name; without one the layout is
    /// `ios` / `iOS`.
    pub fn current(primary_language: Option<&str>) -> (l: Self)
        ensures
            primary_language matches Some(lang) ==> l@ == (lang@, lang@),
            primary_language is None ==> l@ == ("ios"@, "iOS"@),
    {
        match primary_language {
            Some(lang) => IosKeyboardLayout { id: owned(lang), name: owned(lang) },
            None => IosKeyboardLayout { id: owned("ios"), name: owned("iOS") },
        }
    }

    pub fn id(&self) -> (r: &str)
        ensures
            r@ == self@.0,
    {
        self.id.as_str()
    }

    pub fn name(&self) -> (r: &str)
        ensures
            r@ == self@.1,
    {
        self.name.as_str()
    }
}

/// A hardware key press and the text system's echo of it reach GPUI
/// once: after a press that delivers a key, the next non-empty
/// `insertText:` is dropped, and it clears the mark, so the insertion after
/// it goes through again. Without a delivering press nothing is dropped.
pub proof fn lemma_press_echo_dropped_once(
    flag: bool,
    keycode: isize,
    characters_ignoring_modifiers: Option<Seq<char>>,
    echo: Seq<char>,
    next: Seq<char>,
)
    requires
        echo.len() != 0,
        next.len() != 0,
    ensures
        ({
            let after_press = flag || spec_press_delivers_key(keycode, characters_ignoring_modifiers);
            let after_echo = spec_flag_after_insert(after_press, echo);
            &&& spec_press_delivers_key(keycode, characters_ignoring_modifiers) ==> spec_insert_dropped(after_press, echo)
            &&& !spec_insert_dropped(after_echo, next)
            &&& !flag && !spec_press_delivers_key(keycode, characters_ignoring_modifiers) ==> !spec_insert_dropped(after_press, echo)
        }),
{
}

/// The arrow keys decode to their directions: HID usage 0x4F is the right
/// arrow, 0x50 the left, 0x51 the down and 0x52 the up arrow. The editing
/// keys decode to their names: 0x28 return, 0x29 escape, 0x2A backspace
/// (delete backward), 0x2B tab, 0x2C space, 0x49 insert, 0x4A home, 0x4B
/// page up, 0x4C delete (forward), 0x4D end and 0x4E page down.
pub proof fn lemma_navigation_key_names()
    ensures
        spec_key_name(0x4F) == Some("right"@),
        spec_key_name(0x50) == Some("left"@),
        spec_key_name(0x51) == Some("down"@),
        spec_key_name(0x52) == Some("up"@),
        spec_key_name(0x28) == Some("enter"@),
        spec_key_name(0x29) == Some("escape"@),
        spec_key_name(0x2A) == Some("backspace"@),
        spec_key_name(0x2B) == Some("tab"@),
        spec_key_name(0x2C) == Some("space"@),
        spec_key_name(0x49) == Some("insert"@),
        spec_key_name(0x4A) == Some("home"@),
        spec_key_name(0x4B) == Some("pageup"@),
        spec_key_name(0x4C) == Some("delete"@),
        spec_key_name(0x4D) == Some("end"@),
        spec_key_name(0x4E) == Some("pagedown"@),
{
}

/// The function keys are numbered in usage order: F1 to F12 are usages
/// 0x3A to 0x45 and F13 to F24 are usages 0x68 to 0x73, each named `f`
/// followed by its number.
pub proof fn lemma_function_key_names(k: int)
    requires
        1 <= k <= 24,
    ensures
        spec_key_name((if k <= 12 { 0x39 + k } else { 0x67 + (k - 12) }) as isize) == Some(
            "f"@ + spec_decimal(k as nat),
        ),
{
    reveal_with_fuel(spec_decimal, 3);
    reveal_strlit("f");
    assert(spec_decimal(1) == seq!['1']);
    assert(spec_decimal(2) == seq!['2']);
    assert(spec_decimal(3) == seq!['3']);
    assert(spec_decimal(4) == seq!['4']);
    assert(spec_decimal(5) == seq!['5']);
    assert(spec_decimal(6) == seq!['6']);
    assert(spec_decimal(7) == seq!['7']);
    assert(spec_decimal(8) == seq!['8']);
    assert(spec_decimal(9) == seq!['9']);
    if k == 1 {
        reveal_strlit("f1");
        assert("f"@ + seq!['1'] =~= "f1"@);
    } else if k == 2 {
        reveal_strlit("f2");
        assert("f"@ + seq!['2'] =~= "f2"@);
    } else if k == 3 {
        reveal_strlit("f3");
        assert("f"@ + seq!['3'] =~= "f3"@);
    } else if k == 4 {
        reveal_strlit("f4");
        assert("f"@ + seq!['4'] =~= "f4"@);
    } else if k == 5 {
        reveal_strlit("f5");
        assert("f"@ + seq!['5'] =~= "f5"@);
    } else if k == 6 {
        reveal_strlit("f6");
        assert("f"@ + seq!['6'] =~= "f6"@);
    } else if k == 7 {
        reveal_strlit("f7");
        assert("f"@ + seq!['7'] =~= "f7"@);
    } else if k == 8 {
        reveal_strlit("f8");
        assert("f"@ + seq!['8'] =~= "f8"@);
    } else if k == 9 {
        reveal_strlit("f9");
        assert("f"@ + seq!['9'] =~= "f9"@);
    } else {
        let d = (k % 10) as nat;
        assert(spec_decimal(k as nat) == spec_decimal((k / 10) as nat) + seq![crate::strings::digit_char(d as int)]);
        if k == 10 {
            reveal_strlit("f10");
            assert("f"@ + spec_decimal(k as nat) =~= "f10"@);
        } else if k == 11 {
            reveal_strlit("f11");
            assert("f"@ + spec_decimal(k as nat) =~= "f11"@);
        } else if k == 12 {
            reveal_strlit("f12");
            assert("f"@ + spec_decimal(k as nat) =~= "f12"@);
        } else if k == 13 {
            reveal_strlit("f13");
            assert("f"@ + spec_decimal(k as nat) =~= "f13"@);
        } else if k == 14 {
            reveal_strlit("f14");
            assert("f"@ + spec_decimal(k as nat) =~= "f14"@);
        } else if k == 15 {
            reveal_strlit("f15");
            assert("f"@ + spec_decimal(k as nat) =~= "f15"@);
        } else if k == 16 {
            reveal_strlit("f16");
            assert("f"@ + spec_decimal(k as nat) =~= "f16"@);
        } else if k == 17 {
            reveal_strlit("f17");
            assert("f"@ + spec_decimal(k as nat) =~= "f17"@);
        } else if k == 18 {
            reveal_strlit("f18");
            assert("f"@ + spec_decimal(k as nat) =~= "f18"@);
        } else if k == 19 {
            reveal_strlit("f19");
            assert("f"@ + spec_decimal(k as nat) =~= "f19"@);
        } else if k == 20 {
            reveal_strlit("f20");
            assert("f"@ + spec_decimal(k as nat) =~= "f20"@);
        } else if k == 21 {
            reveal_strlit("f21");
            assert("f"@ + spec_decimal(k as nat) =~= "f21"@);
        } else if k == 22 {
            reveal_strlit("f22");
            assert("f"@ + spec_decimal(k as nat) =~= "f22"@);
        } else if k == 23 {
            reveal_strlit("f23");
            assert("f"@ + spec_decimal(k as nat) =~= "f23"@);
        } else {
            reveal_strlit("f24");
            assert("f"@ + spec_decimal(k as nat) =~= "f24"@);
        }
    }
}

/// The keypad digits: usages 0x59 to 0x61 are keypad 1 to 9 and 0x62 is
/// keypad 0, each named `numpad-` followed by its digit.
pub proof fn lemma_numpad_digit_names(d: int)
    requires
        0 <= d <= 9,
    ensures
        spec_key_name((if d == 0 { 0x62 } else { 0x58 + d }) as isize) == Some(
            "numpad-"@ + seq![crate::strings::digit_char(d)],
        ),
{
    reveal_strlit("numpad-");
    if d == 0 {
        reveal_strlit("numpad-0");
        assert("numpad-"@ + seq!['0'] =~= "numpad-0"@);
    } else if d == 1 {
        reveal_strlit("numpad-1");
        assert("numpad-"@ + seq!['1'] =~= "numpad-1"@);
    } else if d == 2 {
        reveal_strlit("numpad-2");
        assert("numpad-"@ + seq!['2'] =~= "numpad-2"@);
    } else if d == 3 {
        reveal_strlit("numpad-3");
        assert("numpad-"@ + seq!['3'] =~= "numpad-3"@);
    } else if d == 4 {
        reveal_strlit("numpad-4");
        assert("numpad-"@ + seq!['4'] =~= "numpad-4"@);
    } else if d == 5 {
        reveal_strlit("numpad-5");
        assert("numpad-"@ + seq!['5'] =~= "numpad-5"@);
    } else if d == 6 {
        reveal_strlit("numpad-6");
        assert("numpad-"@ + seq!['6'] =~= "numpad-6"@);
    } else if d == 7 {
        reveal_strlit("numpad-7");
        assert("numpad-"@ + seq!['7'] =~= "numpad-7"@);
    } else if d == 8 {
        reveal_strlit("numpad-8");
        assert("numpad-"@ + seq!['8'] =~= "numpad-8"@);
    } else {
        reveal_strlit("numpad-9");
        assert("numpad-"@ + seq!['9'] =~= "numpad-9"@);
    }
}

/// The modifier-only keys, HID usages 0xE0 to 0xE7, are left control,
/// shift, alt and meta followed by the right ones; they are exactly the
/// keys that report modifier changes.
pub proof fn lemma_modifier_key_names()
    ensures
        spec_key_name(0xE0) == Some("leftctrl"@),
        spec_key_name(0xE1) == Some("leftshift"@),
        spec_key_name(0xE2) == Some("leftalt"@),
        spec_key_name(0xE3) == Some("leftmeta"@),
        spec_key_name(0xE4) == Some("rightctrl"@),
        spec_key_name(0xE5) == Some("rightshift"@),
        spec_key_name(0xE6) == Some("rightalt"@),
        spec_key_name(0xE7) == Some("rightmeta"@),
        forall|k: isize| spec_is_modifier_key(k) <==> 0xE0 <= k <= 0xE7,
{
}

proof fn lemma_prefix_first_char(prefix: Seq<char>, s: Seq<char>)
    requires
        prefix.len() > 0,
    ensures
        prefix.is_prefix_of(s) ==> s[0] == prefix[0],
{
    if prefix.is_prefix_of(s) {
        assert(s.subrange(0, prefix.len() as int)[0] == s[0]);
    }
}

/// The shortcut tables by layout: French and Belgian layouts (AZERTY) swap
/// A with Q and Z with W and put `;` on M; German, Austrian, Czech, Slovak
/// and Hungarian layouts (QWERTZ) swap Y and Z; the Turkish F layout maps
/// F, G, J, K to A, S, H, J; any other layout (such as `en`) has no table
/// and leaves keys alone.
pub proof fn lemma_layout_shortcut_mapping(layout_id: Seq<char>)
    ensures
        ("de"@.is_prefix_of(layout_id) || "at"@.is_prefix_of(layout_id) || "cs"@.is_prefix_of(layout_id)
            || "sk"@.is_prefix_of(layout_id) || "hu"@.is_prefix_of(layout_id)) ==> {
            &&& spec_layout_equivalents(layout_id) == Some(seq![('y', 'z'), ('z', 'y')])
            &&& spec_mapped_key(spec_layout_equivalents(layout_id), seq!['z'], true) == seq!['y']
            &&& spec_mapped_key(spec_layout_equivalents(layout_id), seq!['y'], true) == seq!['z']
            &&& spec_mapped_key(spec_layout_equivalents(layout_id), seq!['a'], true) == seq!['a']
        },
        ("fr"@.is_prefix_of(layout_id) || "be"@.is_prefix_of(layout_id)) ==> {
            &&& spec_mapped_key(spec_layout_equivalents(layout_id), seq!['a'], true) == seq!['q']
            &&& spec_mapped_key(spec_layout_equivalents(layout_id), seq!['q'], true) == seq!['a']
            &&& spec_mapped_key(spec_layout_equivalents(layout_id), seq!['z'], true) == seq!['w']
            &&& spec_mapped_key(spec_layout_equivalents(layout_id), seq!['w'], true) == seq!['z']
            &&& spec_mapped_key(spec_layout_equivalents(layout_id), seq!['m'], true) == seq![';']
            &&& spec_mapped_key(spec_layout_equivalents(layout_id), seq!['y'], true) == seq!['y']
        },
        "tr"@.is_prefix_of(layout_id) ==> {
            &&& spec_mapped_key(spec_layout_equivalents(layout_id), seq!['f'], true) == seq!['a']
            &&& spec_mapped_key(spec_layout_equivalents(layout_id), seq!['g'], true) == seq!['s']
            &&& spec_mapped_key(spec_layout_equivalents(layout_id), seq!['j'], true) == seq!['h']
            &&& spec_mapped_key(spec_layout_equivalents(layout_id), seq!['k'], true) == seq!['j']
        },
        "en"@.is_prefix_of(layout_id) ==> spec_layout_equivalents(layout_id) is None,
        forall|key: Seq<char>| #[trigger] spec_mapped_key(spec_layout_equivalents(layout_id), key, false) == key,
{
    reveal_strlit("fr");
    reveal_strlit("de");
    reveal_strlit("at");
    reveal_strlit("cs");
    reveal_strlit("sk");
    reveal_strlit("hu");
    reveal_strlit("be");
    reveal_strlit("tr");
    reveal_strlit("en");
    reveal_with_fuel(spec_lookup, 6);
    lemma_prefix_first_char("fr"@, layout_id);
    lemma_prefix_first_char("de"@, layout_id);
    lemma_prefix_first_char("at"@, layout_id);
    lemma_prefix_first_char("cs"@, layout_id);
    lemma_prefix_first_char("sk"@, layout_id);
    lemma_prefix_first_char("hu"@, layout_id);
    lemma_prefix_first_char("be"@, layout_id);
    lemma_prefix_first_char("tr"@, layout_id);
    lemma_prefix_first_char("en"@, layout_id);
    let az = seq![('a', 'q'), ('q', 'a'), ('z', 'w'), ('w', 'z'), ('m', ';')];
    let qz = seq![('y', 'z'), ('z', 'y')];
    let tf = seq![('f', 'a'), ('g', 's'), ('j', 'h'), ('k', 'j')];
    assert(spec_lookup(qz, 'z') == Some('y'));
    assert(spec_lookup(qz, 'y') == Some('z'));
    assert(spec_lookup(qz, 'a') is None);
    assert(spec_lookup(az, 'a') == Some('q'));
    assert(spec_lookup(az, 'q') == Some('a'));
    assert(spec_lookup(az, 'z') == Some('w'));
    assert(spec_lookup(az, 'w') == Some('z'));
    assert(spec_lookup(az, 'm') == Some(';'));
    assert(spec_lookup(az, 'y') is None);
    assert(spec_lookup(tf, 'f') == Some('a'));
    assert(spec_lookup(tf, 'g') == Some('s'));
    assert(spec_lookup(tf, 'j') == Some('h'));
    assert(spec_lookup(tf, 'k') == Some('j'));
}

/// Each UIKit modifier flag sets exactly its own modifier: shift (bit 17)
/// shift, control (bit 18) control, alternate (bit 19) alt, command (bit
/// 20) the platform key, and the numeric-pad flag (bit 23) function; no
/// flag sets none, and caps lock (bit 16) is not a modifier.
pub proof fn lemma_modifier_flags()
    ensures
        spec_modifiers_from_flags(UI_KEY_MODIFIER_SHIFT) == (Modifiers { control: false, alt: false, shift: true, platform: false, function: false }),
        spec_modifiers_from_flags(UI_KEY_MODIFIER_CONTROL) == (Modifiers { control: true, alt: false, shift: false, platform: false, function: false }),
        spec_modifiers_from_flags(UI_KEY_MODIFIER_ALTERNATE) == (Modifiers { control: false, alt: true, shift: false, platform: false, function: false }),
        spec_modifiers_from_flags(UI_KEY_MODIFIER_COMMAND) == (Modifiers { control: false, alt: false, shift: false, platform: true, function: false }),
        spec_modifiers_from_flags(UI_KEY_MODIFIER_NUMERIC_PAD) == (Modifiers { control: false, alt: false, shift: false, platform: false, function: true }),
        spec_modifiers_from_flags(0) == Modifiers::spec_none(),
        spec_modifiers_from_flags(0x010000) == Modifiers::spec_none(),
{
    assert(((0x20000isize >> 18isize) & 1 != 1) && ((0x20000isize >> 19isize) & 1 != 1) && ((0x20000isize >> 17isize) & 1 == 1) && ((0x20000isize >> 20isize) & 1 != 1) && ((0x20000isize >> 23isize) & 1 != 1)) by (bit_vector);
    assert(((0x40000isize >> 18isize) & 1 == 1) && ((0x40000isize >> 19isize) & 1 != 1) && ((0x40000isize >> 17isize) & 1 != 1) && ((0x40000isize >> 20isize) & 1 != 1) && ((0x40000isize >> 23isize) & 1 != 1)) by (bit_vector);
    assert(((0x80000isize >> 18isize) & 1 != 1) && ((0x80000isize >> 19isize) & 1 == 1) && ((0x80000isize >> 17isize) & 1 != 1) && ((0x80000isize >> 20isize) & 1 != 1) && ((0x80000isize >> 23isize) & 1 != 1)) by (bit_vector);
    assert(((0x100000isize >> 18isize) & 1 != 1) && ((0x100000isize >> 19isize) & 1 != 1) && ((0x100000isize >> 17isize) & 1 != 1) && ((0x100000isize >> 20isize) & 1 == 1) && ((0x100000isize >> 23isize) & 1 != 1)) by (bit_vector);
    assert(((0x800000isize >> 18isize) & 1 != 1) && ((0x800000isize >> 19isize) & 1 != 1) && ((0x800000isize >> 17isize) & 1 != 1) && ((0x800000isize >> 20isize) & 1 != 1) && ((0x800000isize >> 23isize) & 1 == 1)) by (bit_vector);
    assert(((0isize >> 17isize) & 1 != 1) && ((0isize >> 18isize) & 1 != 1) && ((0isize >> 19isize) & 1 != 1) && ((0isize >> 20isize) & 1 != 1) && ((0isize >> 23isize) & 1 != 1)) by (bit_vector);
    assert(((0x010000isize >> 17isize) & 1 != 1) && ((0x010000isize >> 18isize) & 1 != 1) && ((0x010000isize >> 19isize) & 1 != 1) && ((0x010000isize >> 20isize) & 1 != 1) && ((0x010000isize >> 23isize) & 1 != 1)) by (bit_vector);
}

} // verus!
