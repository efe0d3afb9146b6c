use input_automation::keys::{build_key_map, js_code_to_vk, DetectionCode};
use input_automation::text::{has_prefix, same_text};

#[test]
fn letters_inject_as_their_ascii_code() {
    assert_eq!(js_code_to_vk("KeyA"), Some(0x41));
    assert_eq!(js_code_to_vk("KeyM"), Some(0x4D));
    assert_eq!(js_code_to_vk("KeyZ"), Some(0x5A));
}

#[test]
fn digits_inject_as_their_ascii_code() {
    assert_eq!(js_code_to_vk("Digit0"), Some(0x30));
    assert_eq!(js_code_to_vk("Digit5"), Some(0x35));
    assert_eq!(js_code_to_vk("Digit9"), Some(0x39));
}

#[test]
fn modifiers_share_one_code_for_left_and_right() {
    assert_eq!(js_code_to_vk("AltLeft"), Some(0x12));
    assert_eq!(js_code_to_vk("AltRight"), Some(0x12));
    assert_eq!(js_code_to_vk("ControlLeft"), Some(0x11));
    assert_eq!(js_code_to_vk("ControlRight"), Some(0x11));
    assert_eq!(js_code_to_vk("ShiftLeft"), Some(0x10));
    assert_eq!(js_code_to_vk("ShiftRight"), Some(0x10));
}

#[test]
fn named_keys_inject_as_their_code() {
    assert_eq!(js_code_to_vk("Space"), Some(0x20));
    assert_eq!(js_code_to_vk("Tab"), Some(0x09));
    assert_eq!(js_code_to_vk("Enter"), Some(0x0D));
    assert_eq!(js_code_to_vk("Escape"), Some(0x1B));
    assert_eq!(js_code_to_vk("CapsLock"), Some(0x14));
    assert_eq!(js_code_to_vk("Backspace"), Some(0x08));
}

#[test]
fn function_keys_inject_from_0x70() {
    let names = ["F1", "F2", "F3", "F4", "F5", "F6", "F7", "F8", "F9", "F10", "F11", "F12"];
    for (i, name) in names.iter().enumerate() {
        assert_eq!(js_code_to_vk(name), Some(0x70 + i as u16), "{}", name);
    }
}

#[test]
fn names_outside_the_vocabulary_do_not_inject() {
    for name in [
        "", "Key", "Keya", "Key1", "KeyAA", "keyA", "Digit", "DigitA", "Digit10", "F0", "F13",
        "f1", "Mouse3", "Mouse4", "Mouse5", "Insert", "space", "Key\u{e9}", "Digit\u{663}",
    ] {
        assert_eq!(js_code_to_vk(name), None, "{:?}", name);
    }
}

#[test]
fn detection_table_holds_the_sixty_keyboard_names() {
    let table = build_key_map();
    assert_eq!(table.len(), 60);
}

#[test]
fn detection_table_resolves_letters_digits_and_function_keys() {
    let table = build_key_map();
    assert_eq!(table.get("KeyA"), Some(&DetectionCode::Letter('A')));
    assert_eq!(table.get("KeyQ"), Some(&DetectionCode::Letter('Q')));
    assert_eq!(table.get("KeyZ"), Some(&DetectionCode::Letter('Z')));
    assert_eq!(table.get("Digit0"), Some(&DetectionCode::Digit('0')));
    assert_eq!(table.get("Digit9"), Some(&DetectionCode::Digit('9')));
    assert_eq!(table.get("F1"), Some(&DetectionCode::Function(1)));
    assert_eq!(table.get("F6"), Some(&DetectionCode::Function(6)));
    assert_eq!(table.get("F12"), Some(&DetectionCode::Function(12)));
}

#[test]
fn detection_table_resolves_the_named_keys() {
    let table = build_key_map();
    assert_eq!(table.get("ShiftLeft"), Some(&DetectionCode::LShift));
    assert_eq!(table.get("ShiftRight"), Some(&DetectionCode::RShift));
    assert_eq!(table.get("ControlLeft"), Some(&DetectionCode::LControl));
    assert_eq!(table.get("ControlRight"), Some(&DetectionCode::RControl));
    assert_eq!(table.get("AltLeft"), Some(&DetectionCode::LAlt));
    assert_eq!(table.get("AltRight"), Some(&DetectionCode::RAlt));
    assert_eq!(table.get("Space"), Some(&DetectionCode::Space));
    assert_eq!(table.get("Enter"), Some(&DetectionCode::Enter));
    assert_eq!(table.get("Escape"), Some(&DetectionCode::Escape));
    assert_eq!(table.get("Backspace"), Some(&DetectionCode::Backspace));
    assert_eq!(table.get("Tab"), Some(&DetectionCode::Tab));
    assert_eq!(table.get("CapsLock"), Some(&DetectionCode::CapsLock));
}

#[test]
fn detection_table_misses_every_other_name() {
    let table = build_key_map();
    for name in ["", "Insert", "Mouse3", "Mouse4", "Mouse5", "Keya", "Digit", "F13", "KeyAB"] {
        assert_eq!(table.get(name), None, "{:?}", name);
    }
}

#[test]
fn both_tables_resolve_the_same_names() {
    let table = build_key_map();
    let mut names: Vec<String> = Vec::new();
    for c in 'A'..='Z' {
        names.push(format!("Key{}", c));
    }
    for c in '0'..='9' {
        names.push(format!("Digit{}", c));
    }
    for n in 0..=13 {
        names.push(format!("F{}", n));
    }
    for name in [
        "ShiftLeft", "ShiftRight", "ControlLeft", "ControlRight", "AltLeft", "AltRight", "Space",
        "Enter", "Escape", "Backspace", "Tab", "CapsLock", "Insert", "Mouse3", "Mouse4", "Mouse5",
        "Keya", "Digitx", "",
    ] {
        names.push(name.to_string());
    }
    for name in names {
        assert_eq!(
            table.get(&name).is_some(),
            js_code_to_vk(&name).is_some(),
            "{:?}",
            name
        );
    }
}

#[test]
fn same_text_compares_by_characters() {
    assert!(same_text("", ""));
    assert!(same_text("Mouse3", "Mouse3"));
    assert!(!same_text("Mouse3", "Mouse4"));
    assert!(!same_text("Mouse3", "Mouse"));
    assert!(!same_text("Mouse", "Mouse3"));
    assert!(same_text("h\u{e9}", "h\u{e9}"));
    assert!(!same_text("h\u{e9}", "he"));
}

#[test]
fn has_prefix_checks_the_leading_characters() {
    assert!(has_prefix("KeyA", "Key"));
    assert!(has_prefix("Key", "Key"));
    assert!(has_prefix("Key", ""));
    assert!(!has_prefix("Ke", "Key"));
    assert!(!has_prefix("keyA", "Key"));
    assert!(!has_prefix("", "Key"));
}
