//! Hotkey description parsing.

use speaky::shortcut::{parse_shortcut, KeyCode, Modifiers, Shortcut, ShortcutError};

#[test]
fn alt_space_parses() {
    assert_eq!(
        parse_shortcut("Alt+Space"),
        Ok(Shortcut {
            modifiers: Modifiers { alt: true, ctrl: false, shift: false, meta: false },
            code: KeyCode::Space,
        })
    );
}

#[test]
fn modifiers_accumulate_and_names_are_case_insensitive() {
    let parsed = parse_shortcut("CTRL + Shift + p").unwrap();
    assert!(parsed.modifiers.ctrl && parsed.modifiers.shift);
    assert!(!parsed.modifiers.alt && !parsed.modifiers.meta);
    assert_eq!(parsed.code, KeyCode::Letter(b'p'));
}

#[test]
fn modifier_synonyms() {
    assert!(parse_shortcut("option+a").unwrap().modifiers.alt);
    assert!(parse_shortcut("control+a").unwrap().modifiers.ctrl);
    for name in ["super", "meta", "cmd", "command", "win"] {
        let parsed = parse_shortcut(&format!("{}+a", name)).unwrap();
        assert!(parsed.modifiers.meta, "{} should set the meta modifier", name);
    }
}

#[test]
fn named_keys_function_keys_and_digits() {
    assert_eq!(parse_shortcut("enter").unwrap().code, KeyCode::Enter);
    assert_eq!(parse_shortcut("Return").unwrap().code, KeyCode::Enter);
    assert_eq!(parse_shortcut("esc").unwrap().code, KeyCode::Escape);
    assert_eq!(parse_shortcut("PageDown").unwrap().code, KeyCode::PageDown);
    assert_eq!(parse_shortcut("F5").unwrap().code, KeyCode::Function(5));
    assert_eq!(parse_shortcut("f12").unwrap().code, KeyCode::Function(12));
    assert_eq!(parse_shortcut("ctrl+7").unwrap().code, KeyCode::Digit(b'7'));
}

#[test]
fn later_key_part_wins() {
    assert_eq!(parse_shortcut("a+b").unwrap().code, KeyCode::Letter(b'b'));
}

#[test]
fn rejects_unknown_parts_and_missing_key() {
    assert_eq!(parse_shortcut("alt+nonsense"), Err(ShortcutError::UnknownKey));
    assert_eq!(parse_shortcut(""), Err(ShortcutError::UnknownKey));
    assert_eq!(parse_shortcut("alt+shift"), Err(ShortcutError::NoKey));
    assert_eq!(parse_shortcut("alt+"), Err(ShortcutError::UnknownKey));
    assert_eq!(parse_shortcut("f13"), Err(ShortcutError::UnknownKey));
}
