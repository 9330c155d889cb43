use gpui_ios::keyboard::{
    is_modifier_key, keycode_to_key_name, modifiers_from_flags, IosKeyboardLayout,
    IosKeyboardMapper, KeyInput, KeyboardInputState, Keystroke, Modifiers, TextInsertAction,
};

fn plain_keystroke(key: &str) -> Keystroke {
    Keystroke {
        modifiers: Modifiers::default(),
        key: key.to_string(),
        key_char: Some(key.to_string()),
        native_key_code: None,
    }
}

#[test]
fn named_key_codes() {
    assert_eq!(keycode_to_key_name(0x28), Some("enter"));
    assert_eq!(keycode_to_key_name(0x2A), Some("backspace"));
    assert_eq!(keycode_to_key_name(0x50), Some("left"));
    assert_eq!(keycode_to_key_name(0x62), Some("numpad-0"));
    assert_eq!(keycode_to_key_name(0x73), Some("f24"));
    assert_eq!(keycode_to_key_name(0xE7), Some("rightmeta"));
    assert_eq!(keycode_to_key_name(0x04), None);
    assert_eq!(keycode_to_key_name(0x64), None);
}

#[test]
fn modifier_key_codes() {
    assert!(is_modifier_key(224));
    assert!(is_modifier_key(231));
    assert!(!is_modifier_key(223));
    assert!(!is_modifier_key(232));
}

#[test]
fn modifier_flags_decode() {
    let none = modifiers_from_flags(0);
    assert_eq!(none, Modifiers::default());
    let all = modifiers_from_flags(0x020000 | 0x040000 | 0x080000 | 0x100000 | 0x800000);
    assert!(all.shift && all.control && all.alt && all.platform && all.function);
    let cmd_shift = modifiers_from_flags(0x100000 | 0x020000);
    assert_eq!(
        cmd_shift,
        Modifiers { control: false, alt: false, shift: true, platform: true, function: false }
    );
    // Caps lock (0x010000) is not a modifier here.
    assert_eq!(modifiers_from_flags(0x010000), Modifiers::default());
}

#[test]
fn press_of_named_key_is_key_down() {
    let mut state = KeyboardInputState::new();
    match state.press_began(0x28, 0x100000, Some("\r"), Some("\r")) {
        Some(KeyInput::KeyDown { keystroke, is_held, prefer_character_input }) => {
            assert_eq!(keystroke.key, "enter");
            assert_eq!(keystroke.key_char.as_deref(), Some("\r"));
            assert_eq!(keystroke.native_key_code, Some(0x28));
            assert!(keystroke.modifiers.platform);
            assert!(!is_held && !prefer_character_input);
        }
        other => panic!("unexpected {:?}", other),
    }
    assert!(state.last_press_had_key);
    assert!(state.current_modifiers.platform);
}

#[test]
fn press_of_letter_uses_lowercased_characters() {
    let mut state = KeyboardInputState::new();
    match state.press_began(0x04, 0x020000, Some("A"), Some("A")) {
        Some(KeyInput::KeyDown { keystroke, .. }) => {
            assert_eq!(keystroke.key, "a");
            assert_eq!(keystroke.key_char.as_deref(), Some("A"));
            assert!(keystroke.modifiers.shift);
        }
        other => panic!("unexpected {:?}", other),
    }
}

#[test]
fn press_of_modifier_reports_modifiers() {
    let mut state = KeyboardInputState::new();
    match state.press_began(0xE1, 0x020000, None, None) {
        Some(KeyInput::ModifiersChanged(m)) => assert!(m.shift),
        other => panic!("unexpected {:?}", other),
    }
    assert!(!state.last_press_had_key);
}

#[test]
fn press_without_name_is_dropped() {
    let mut state = KeyboardInputState::new();
    assert!(state.press_began(0x04, 0, None, None).is_none());
    assert!(!state.last_press_had_key);
}

#[test]
fn release_is_key_up_without_character() {
    let mut state = KeyboardInputState::new();
    match state.press_ended(0x2C, 0, Some(" ")) {
        Some(KeyInput::KeyUp { keystroke }) => {
            assert_eq!(keystroke.key, "space");
            assert_eq!(keystroke.key_char, None);
            assert_eq!(keystroke.native_key_code, Some(0x2C));
        }
        other => panic!("unexpected {:?}", other),
    }
}

#[test]
fn insert_after_hardware_press_is_dropped_once() {
    let mut state = KeyboardInputState::new();
    state.press_began(0x04, 0, Some("a"), Some("a"));
    assert!(matches!(state.insert_text("a", true), TextInsertAction::Ignore));
    assert!(!state.last_press_had_key);
    match state.insert_text("a", true) {
        TextInsertAction::ReplaceText(t) => assert_eq!(t, "a"),
        other => panic!("unexpected {:?}", other),
    }
}

#[test]
fn insert_without_handler_dispatches_character() {
    let mut state = KeyboardInputState::new();
    match state.insert_text("é", false) {
        TextInsertAction::Dispatch(KeyInput::KeyDown { keystroke, is_held, prefer_character_input }) => {
            assert_eq!(keystroke.key, "é");
            assert_eq!(keystroke.key_char.as_deref(), Some("é"));
            assert_eq!(keystroke.modifiers, Modifiers::default());
            assert!(!is_held && prefer_character_input);
        }
        other => panic!("unexpected {:?}", other),
    }
    assert!(matches!(state.insert_text("", false), TextInsertAction::Ignore));
}

#[test]
fn delete_backward_is_backspace() {
    let mut state = KeyboardInputState::new();
    match state.delete_backward() {
        Some(KeyInput::KeyDown { keystroke, .. }) => {
            assert_eq!(keystroke.key, "backspace");
            assert_eq!(keystroke.key_char, None);
        }
        other => panic!("unexpected {:?}", other),
    }
    state.press_began(0x2A, 0, None, None);
    assert!(state.delete_backward().is_none());
    assert!(!state.last_press_had_key);
}

#[test]
fn azerty_mapper_swaps_keys() {
    let mapper = IosKeyboardMapper::new("fr-FR");
    let mapped = mapper.map_key_equivalent(plain_keystroke("a"), true);
    assert_eq!(mapped.key, "q");
    assert_eq!(mapped.key_char.as_deref(), Some("a"));
    let unmapped = mapper.map_key_equivalent(plain_keystroke("a"), false);
    assert_eq!(unmapped.key, "a");
    let m = mapper.map_key_equivalent(plain_keystroke("m"), true);
    assert_eq!(m.key, ";");
    let other = mapper.map_key_equivalent(plain_keystroke("x"), true);
    assert_eq!(other.key, "x");
    let long = mapper.map_key_equivalent(plain_keystroke("enter"), true);
    assert_eq!(long.key, "enter");
}

#[test]
fn qwertz_and_turkish_tables() {
    let de = IosKeyboardMapper::new("de-CH");
    assert_eq!(de.get_key_equivalents().unwrap(), &vec![('y', 'z'), ('z', 'y')]);
    let hu = IosKeyboardMapper::new("hu");
    assert_eq!(hu.map_key_equivalent(plain_keystroke("z"), true).key, "y");
    let tr = IosKeyboardMapper::new("tr");
    assert_eq!(tr.map_key_equivalent(plain_keystroke("k"), true).key, "j");
    let be = IosKeyboardMapper::new("be");
    assert_eq!(be.map_key_equivalent(plain_keystroke("w"), true).key, "z");
}

#[test]
fn qwerty_layout_has_no_table() {
    let en = IosKeyboardMapper::new("en-US");
    assert!(en.get_key_equivalents().is_none());
    assert_eq!(en.map_key_equivalent(plain_keystroke("a"), true).key, "a");
}

#[test]
fn current_layout_names() {
    let l = IosKeyboardLayout::current(Some("ja-JP"));
    assert_eq!(l.id(), "ja-JP");
    assert_eq!(l.name(), "ja-JP");
    let d = IosKeyboardLayout::current(None);
    assert_eq!(d.id(), "ios");
    assert_eq!(d.name(), "iOS");
}
