use dictation_core::post_process::{build_legacy_prompt, build_system_prompt};
use dictation_core::shortcut::validate_shortcut;
use dictation_core::text::{replace_all, same_text, strip_invisible_chars};

#[test]
fn strips_invisible_characters() {
    assert_eq!(strip_invisible_chars("a\u{200B}b\u{200C}c\u{200D}d\u{FEFF}"), "abcd");
    assert_eq!(strip_invisible_chars(""), "");
    assert_eq!(strip_invisible_chars("plain text"), "plain text");
    assert_eq!(strip_invisible_chars("\u{FEFF}\u{FEFF}"), "");
    assert_eq!(strip_invisible_chars("caf\u{e9}\u{200B}"), "caf\u{e9}");
}

#[test]
fn replaces_every_occurrence() {
    assert_eq!(replace_all("a-b-c", "-", "+"), "a+b+c");
    assert_eq!(replace_all("aaa", "aa", "b"), "ba");
    assert_eq!(replace_all("none here", "${output}", "x"), "none here");
    assert_eq!(replace_all("", "x", "y"), "");
}

#[test]
fn texts_compare_by_characters() {
    assert!(same_text("abc", "abc"));
    assert!(!same_text("abc", "abd"));
    assert!(!same_text("abc", "ab"));
    assert!(same_text("", ""));
}

#[test]
fn system_prompt_drops_placeholder_and_trims() {
    assert_eq!(build_system_prompt("  Fix grammar:\n${output}\n"), "Fix grammar:");
    assert_eq!(build_system_prompt("${output}"), "");
    assert_eq!(build_system_prompt("Clean ${output} up ${output}"), "Clean  up");
}

#[test]
fn legacy_prompt_substitutes_transcription() {
    assert_eq!(
        build_legacy_prompt("Fix: ${output}!", "hello world"),
        "Fix: hello world!"
    );
    assert_eq!(build_legacy_prompt("No placeholder", "x"), "No placeholder");
}

#[test]
fn shortcut_must_not_be_blank() {
    assert_eq!(validate_shortcut("   "), Err("Shortcut cannot be empty".to_string()));
    assert_eq!(validate_shortcut(""), Err("Shortcut cannot be empty".to_string()));
}

#[test]
fn shortcut_refuses_function_key() {
    let fn_msg = "The 'fn' key is not supported by Tauri global shortcuts".to_string();
    assert_eq!(validate_shortcut("fn+a"), Err(fn_msg.clone()));
    assert_eq!(validate_shortcut("ctrl + FUNCTION"), Err(fn_msg));
}

#[test]
fn shortcut_needs_main_key() {
    let msg = "Tauri shortcuts must include a main key (letter, number, F-key, etc.) in addition to modifiers"
        .to_string();
    assert_eq!(validate_shortcut("ctrl+shift"), Err(msg.clone()));
    assert_eq!(validate_shortcut("Cmd + Alt"), Err(msg));
}

#[test]
fn shortcut_accepts_modifier_with_key() {
    assert_eq!(validate_shortcut("ctrl+space"), Ok(()));
    assert_eq!(validate_shortcut(" Alt + Shift + F5 "), Ok(()));
    assert_eq!(validate_shortcut("a"), Ok(()));
    assert_eq!(validate_shortcut("ctrl+"), Ok(()));
}
