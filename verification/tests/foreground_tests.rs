use gonhanh_win::foreground::{
    denylist_has, is_denylisted, pick_paste_target, process_name_from_buffer, ForegroundTarget,
    OutputStrategy,
};

#[test]
fn denylist_holds_the_terminal() {
    assert!(denylist_has(&String::from("warp.exe")));
    assert!(!denylist_has(&String::from("Warp.exe")));
    assert!(!denylist_has(&String::from("warp")));
    assert!(!denylist_has(&String::from("notepad.exe")));
    assert!(!denylist_has(&String::new()));
}

#[test]
fn process_names_are_compared_without_case() {
    assert!(is_denylisted(&Some(String::from("Warp.exe"))));
    assert!(is_denylisted(&Some(String::from("WARP.EXE"))));
    assert!(is_denylisted(&Some(String::from("warp.exe"))));
    assert!(!is_denylisted(&Some(String::from("warp.exe "))));
    assert!(!is_denylisted(&Some(String::from("code.exe"))));
    assert!(!is_denylisted(&None));
}

#[test]
fn paste_goes_to_the_focused_control() {
    assert_eq!(pick_paste_target(true, 10, 20), Some(20));
    assert_eq!(pick_paste_target(true, 10, 0), Some(10));
    assert_eq!(pick_paste_target(true, 0, 0), None);
    assert_eq!(pick_paste_target(true, 0, 20), None);
    assert_eq!(pick_paste_target(false, 10, 20), None);
}

#[test]
fn resolve_denylisted_process() {
    let t = ForegroundTarget::resolve(Some(String::from("WARP.exe")), 10, 20);
    assert_eq!(t.window, 10);
    assert_eq!(t.process_name, Some(String::from("WARP.exe")));
    assert_eq!(t.paste_target, Some(20));
    assert_eq!(t.strategy(), OutputStrategy::ClipboardPaste);
}

#[test]
fn resolve_ordinary_process() {
    let t = ForegroundTarget::resolve(Some(String::from("notepad.exe")), 10, 20);
    assert_eq!(t.window, 10);
    assert_eq!(t.process_name, Some(String::from("notepad.exe")));
    assert_eq!(t.paste_target, None);
    assert_eq!(t.strategy(), OutputStrategy::Standard);
}

#[test]
fn failed_queries_fall_back_to_standard() {
    let unknown = ForegroundTarget::resolve(None, 10, 20);
    assert_eq!(unknown.strategy(), OutputStrategy::Standard);
    assert_eq!(unknown.paste_target, None);
    let windowless = ForegroundTarget::resolve(Some(String::from("warp.exe")), 0, 0);
    assert_eq!(windowless.strategy(), OutputStrategy::Standard);
    let focus_without_window = ForegroundTarget::resolve(Some(String::from("warp.exe")), 0, 20);
    assert_eq!(focus_without_window.strategy(), OutputStrategy::Standard);
    assert_eq!(focus_without_window.paste_target, None);
    let no_focus = ForegroundTarget::resolve(Some(String::from("warp.exe")), 10, 0);
    assert_eq!(no_focus.paste_target, Some(10));
    let standard = ForegroundTarget::standard();
    assert_eq!(
        standard,
        ForegroundTarget { window: 0, process_name: None, paste_target: None }
    );
}

#[test]
fn process_name_is_decoded_from_the_buffer() {
    let mut buffer = [0u16; 260];
    let name: Vec<u16> = "Warp.exe".encode_utf16().collect();
    buffer[..name.len()].copy_from_slice(&name);
    assert_eq!(process_name_from_buffer(&buffer, 8), Some(String::from("Warp.exe")));
    assert_eq!(process_name_from_buffer(&buffer, 4), Some(String::from("Warp")));
    assert_eq!(process_name_from_buffer(&buffer, 0), None);
}

#[test]
fn unpaired_surrogate_in_a_name_is_replaced() {
    let buffer = [0x61u16, 0xD800, 0x62];
    assert_eq!(process_name_from_buffer(&buffer, 3), Some(String::from("a\u{FFFD}b")));
}
