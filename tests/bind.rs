use egui_keybind::{Bind, Key, KeyboardShortcut, ModifierNames, Modifiers, PointerButton, Shortcut, KEY_COUNT};

fn key(k: egui::Key) -> Key {
    let code = egui::Key::ALL.iter().position(|x| *x == k).unwrap();
    Key::from_code(code as u8).unwrap()
}

fn mods(ctrl: bool, shift: bool) -> Modifiers {
    Modifiers { alt: false, ctrl, shift, mac_cmd: false, command: false }
}

fn ctrl_shift_d() -> KeyboardShortcut {
    KeyboardShortcut::new(mods(true, true), key(egui::Key::D))
}

#[test]
fn empty_bindings_format_as_none() {
    let names = ModifierNames::names();
    assert_eq!(Shortcut::default().format(&names, false), "None");
    assert_eq!(Shortcut::new(None, None).format(&names, true), "None");
    assert_eq!(Option::<KeyboardShortcut>::None.format(&names, false), "None");
    assert_eq!(Option::<Key>::None.format(&names, false), "None");
    assert_eq!(Option::<PointerButton>::None.format(&names, false), "None");
}

#[test]
fn shortcut_keyboard_only_has_no_plus_at_the_ends() {
    let names = ModifierNames::names();
    let s = Shortcut::new(Some(ctrl_shift_d()), None);
    assert_eq!(s.format(&names, false), "Ctrl+Shift+D");
}

#[test]
fn shortcut_pointer_only_has_no_plus() {
    let names = ModifierNames::names();
    let s = Shortcut::new(None, Some(PointerButton::Middle));
    assert_eq!(s.format(&names, false), "Middle");
}

#[test]
fn shortcut_set_none_clears_both_parts() {
    let names = ModifierNames::names();
    let mut s = Shortcut::new(Some(ctrl_shift_d()), Some(PointerButton::Extra1));
    s.set(None, None);
    assert_eq!(s.keyboard(), None);
    assert_eq!(s.pointer(), None);
    assert_eq!(s.format(&names, false), "None");
}

#[test]
fn shortcut_set_both_joins_with_plus() {
    let names = ModifierNames::names();
    let mut s = Shortcut::default();
    s.set(Some(ctrl_shift_d()), Some(PointerButton::Middle));
    assert_eq!(s.format(&names, false), "Ctrl+Shift+D+Middle");
    let plain = KeyboardShortcut::new(mods(false, false), key(egui::Key::X));
    s.set(Some(plain), Some(PointerButton::Extra2));
    assert_eq!(s.format(&names, false), "X+Extra2");
}

#[test]
fn format_twice_gives_the_same_text() {
    let names = ModifierNames::names();
    let s = Shortcut::new(Some(ctrl_shift_d()), Some(PointerButton::Extra1));
    let a = s.format(&names, false);
    let b = s.format(&names, false);
    assert_eq!(a, b);
    assert_eq!(a, "Ctrl+Shift+D+Extra1");
}

#[test]
fn shortcut_format_on_mac() {
    let names = ModifierNames::names();
    let cmd_shift_f = KeyboardShortcut::new(
        Modifiers { alt: false, ctrl: false, shift: true, mac_cmd: false, command: true },
        key(egui::Key::F),
    );
    assert_eq!(cmd_shift_f.format(&names, false), "Ctrl+Shift+F");
    assert_eq!(cmd_shift_f.format(&names, true), "Shift+Cmd+F");
}

#[test]
fn shortcut_format_with_short_names() {
    let names = ModifierNames {
        is_short: true,
        alt: "⌥".to_string(),
        ctrl: "⌃".to_string(),
        shift: "⇧".to_string(),
        mac_cmd: "⌘".to_string(),
        mac_alt: "⌥".to_string(),
        concat: "".to_string(),
    };
    let s = KeyboardShortcut::new(mods(true, true), key(egui::Key::Plus));
    assert_eq!(s.format(&names, false), "⌃⇧+");
}

#[test]
fn standard_modifier_names() {
    let names = ModifierNames::names();
    assert!(!names.is_short);
    assert_eq!(names.alt, "Alt");
    assert_eq!(names.ctrl, "Ctrl");
    assert_eq!(names.shift, "Shift");
    assert_eq!(names.mac_cmd, "Cmd");
    assert_eq!(names.mac_alt, "Option");
    assert_eq!(names.concat, "+");
}

#[test]
fn key_format_and_set_ignore_modifiers() {
    let names = ModifierNames::names();
    let mut k = key(egui::Key::Escape);
    assert_eq!(k.format(&names, false), "Escape");
    k.set(Some(ctrl_shift_d()), Some(PointerButton::Middle));
    assert_eq!(k, key(egui::Key::D));
    assert_eq!(k.format(&names, false), "D");
    k.set(None, None);
    assert_eq!(k, key(egui::Key::D));
}

#[test]
fn optional_key_keeps_value_without_keyboard() {
    let names = ModifierNames::names();
    let mut k: Option<Key> = None;
    k.set(Some(ctrl_shift_d()), None);
    assert_eq!(k, Some(key(egui::Key::D)));
    k.set(None, Some(PointerButton::Extra1));
    assert_eq!(k, Some(key(egui::Key::D)));
    assert_eq!(k.format(&names, false), "D");
}

#[test]
fn keyboard_shortcut_set() {
    let mut s = KeyboardShortcut::new(mods(false, false), key(egui::Key::A));
    s.set(None, Some(PointerButton::Middle));
    assert_eq!(s, KeyboardShortcut::new(mods(false, false), key(egui::Key::A)));
    s.set(Some(ctrl_shift_d()), None);
    assert_eq!(s, ctrl_shift_d());
    let mut o: Option<KeyboardShortcut> = Some(ctrl_shift_d());
    o.set(None, Some(PointerButton::Middle));
    assert_eq!(o, None);
}

#[test]
fn pointer_button_set_and_format() {
    let names = ModifierNames::names();
    let mut b = PointerButton::Primary;
    b.set(Some(ctrl_shift_d()), None);
    assert_eq!(b, PointerButton::Primary);
    b.set(None, Some(PointerButton::Extra2));
    assert_eq!(b.format(&names, false), "Extra2");
    let mut o = Some(PointerButton::Secondary);
    assert_eq!(o.format(&names, false), "Secondary");
    o.set(Some(ctrl_shift_d()), None);
    assert_eq!(o, None);
}

#[test]
fn key_codes() {
    assert_eq!(KEY_COUNT as usize, egui::Key::ALL.len());
    assert!(Key::from_code(KEY_COUNT).is_none());
    assert_eq!(Key::from_code(KEY_COUNT - 1).unwrap().code(), KEY_COUNT - 1);
    assert_eq!(key(egui::Key::Escape).code(), 4);
}

#[test]
fn shortcut_trigger_rule() {
    let both = Shortcut::new(Some(ctrl_shift_d()), Some(PointerButton::Middle));
    assert!(both.triggered(true, true));
    assert!(!both.triggered(true, false));
    assert!(!both.triggered(false, true));
    let kb = Shortcut::new(Some(ctrl_shift_d()), None);
    assert!(kb.triggered(true, false));
    assert!(!kb.triggered(false, true));
    let ptr = Shortcut::new(None, Some(PointerButton::Middle));
    assert!(ptr.triggered(false, true));
    assert!(!ptr.triggered(true, false));
    assert!(!Shortcut::default().triggered(true, true));
}

#[test]
fn pressed_consumes_the_shortcut() {
    let mut input = egui::InputState::default();
    input.events.push(egui::Event::Key {
        key: egui::Key::D,
        physical_key: None,
        pressed: true,
        repeat: false,
        modifiers: egui::Modifiers::CTRL | egui::Modifiers::SHIFT,
    });
    let s = Shortcut::new(Some(ctrl_shift_d()), None);
    assert!(s.pressed(&mut input));
    assert!(!s.pressed(&mut input));
    assert!(!Shortcut::default().pressed(&mut input));
}

#[test]
fn key_pressed_in_input() {
    let mut input = egui::InputState::default();
    assert!(!key(egui::Key::D).pressed(&mut input));
    input.events.push(egui::Event::Key {
        key: egui::Key::D,
        physical_key: None,
        pressed: true,
        repeat: false,
        modifiers: egui::Modifiers::NONE,
    });
    assert!(key(egui::Key::D).pressed(&mut input));
    assert!(!Option::<Key>::None.pressed(&mut input));
    assert!(!Option::<PointerButton>::None.pressed(&mut input));
}

#[test]
fn shortcut_converts_to_its_parts() {
    let s = Shortcut::new(Some(ctrl_shift_d()), Some(PointerButton::Extra1));
    let k: Option<KeyboardShortcut> = s.into();
    let p: Option<PointerButton> = s.into();
    assert_eq!(k, Some(ctrl_shift_d()));
    assert_eq!(p, Some(PointerButton::Extra1));
    let k: Option<KeyboardShortcut> = Shortcut::default().into();
    assert_eq!(k, None);
}

#[test]
fn shortcut_none_has_no_parts() {
    let names = ModifierNames::names();
    let s = Shortcut::none();
    assert_eq!(s.keyboard(), None);
    assert_eq!(s.pointer(), None);
    assert_eq!(s, Shortcut::default());
    assert_eq!(s.format(&names, false), "None");
}

#[test]
fn bound_values_format_non_empty() {
    let names = ModifierNames::names();
    assert_eq!(ctrl_shift_d().format(&names, false), "Ctrl+Shift+D");
    assert_eq!(Some(PointerButton::Primary).format(&names, false), "Primary");
    assert_eq!(Some(key(egui::Key::Space)).format(&names, false), "Space");
    assert_eq!(Shortcut::new(None, Some(PointerButton::Secondary)).format(&names, true), "Secondary");
}

#[test]
fn unbound_values_are_not_pressed() {
    let mut input = egui::InputState::default();
    input.events.push(egui::Event::Key {
        key: egui::Key::D,
        physical_key: None,
        pressed: true,
        repeat: false,
        modifiers: egui::Modifiers::CTRL | egui::Modifiers::SHIFT,
    });
    assert!(!Shortcut::none().pressed(&mut input));
    assert!(!Option::<KeyboardShortcut>::None.pressed(&mut input));
    assert!(ctrl_shift_d().pressed(&mut input));
}
