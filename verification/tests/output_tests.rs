use gonhanh_win::decision::{EngineDecision, Replacement, ACTION_NONE, ACTION_RESTORE, ACTION_SEND};
use gonhanh_win::foreground::{ForegroundTarget, OutputStrategy};
use gonhanh_win::input::{
    create_key_input, create_unicode_input, host_records, key_record, push_records, unit_record,
    KeyInput, KeybdRecord, KEYEVENTF_KEYUP, KEYEVENTF_UNICODE,
};
use gonhanh_win::output::{
    encode_scalars, paste_batch, push_backspaces, push_unicode, send_replacement, OutputPlan,
};
use gonhanh_win::vk;
use windows::Win32::UI::Input::KeyboardAndMouse as win;

fn abc() -> EngineDecision {
    EngineDecision::Send(Replacement { backspace: 2, chars: vec![0x61, 0x62, 0x63] })
}

fn plain_target() -> ForegroundTarget {
    ForegroundTarget::resolve(Some(String::from("notepad.exe")), 0, 0)
}

fn warp_target() -> ForegroundTarget {
    ForegroundTarget::resolve(Some(String::from("Warp.exe")), 0x1234, 0x5678)
}

fn back(up: bool) -> KeyInput {
    KeyInput::Key { vk: 0x08, up }
}

fn uni(c: u32, up: bool) -> KeyInput {
    KeyInput::Unicode { scalar: c, up }
}

#[test]
fn key_input_fields() {
    assert_eq!(create_key_input(vk::VK_BACK, false), KeyInput::Key { vk: 8, up: false });
    assert_eq!(create_key_input(vk::VK_BACK, true), KeyInput::Key { vk: 8, up: true });
    assert_eq!(create_key_input(vk::VK_V, true), KeyInput::Key { vk: 0x56, up: true });
}

#[test]
fn unicode_input_carries_the_character() {
    assert_eq!(
        create_unicode_input(0x1EA1, false),
        KeyInput::Unicode { scalar: 0x1EA1, up: false }
    );
    assert_eq!(
        create_unicode_input(0x1F600, true),
        KeyInput::Unicode { scalar: 0x1F600, up: true }
    );
    assert_eq!(create_unicode_input(0, false), KeyInput::Unicode { scalar: 0, up: false });
}

#[test]
fn key_records() {
    assert_eq!(key_record(vk::VK_BACK, false), KeybdRecord { vk: 8, scan: 0, flags: 0 });
    assert_eq!(key_record(vk::VK_BACK, true), KeybdRecord { vk: 8, scan: 0, flags: 2 });
    assert_eq!(unit_record(0x1EA1, false), KeybdRecord { vk: 0, scan: 0x1EA1, flags: 4 });
    assert_eq!(unit_record(0x1EA1, true), KeybdRecord { vk: 0, scan: 0x1EA1, flags: 6 });
}

#[test]
fn character_above_the_basic_plane_is_a_surrogate_pair() {
    let mut records = Vec::new();
    push_records(&mut records, &uni(0x1F600, false));
    assert_eq!(
        records,
        vec![
            KeybdRecord { vk: 0, scan: 0xD83D, flags: 4 },
            KeybdRecord { vk: 0, scan: 0xDE00, flags: 4 },
        ]
    );
    push_records(&mut records, &uni(0x1F600, true));
    assert_eq!(records.len(), 4);
    assert_eq!(records[2], KeybdRecord { vk: 0, scan: 0xD83D, flags: 6 });
    assert_eq!(records[3], KeybdRecord { vk: 0, scan: 0xDE00, flags: 6 });
    let units: Vec<u16> = records[..2].iter().map(|r| r.scan).collect();
    assert_eq!(String::from_utf16(&units).unwrap(), "\u{1F600}");
}

#[test]
fn records_of_a_batch_keep_the_order() {
    let batch = vec![back(false), back(true), uni(0x61, false), uni(0x61, true), uni(0, false)];
    assert_eq!(
        host_records(&batch),
        vec![
            KeybdRecord { vk: 8, scan: 0, flags: 0 },
            KeybdRecord { vk: 8, scan: 0, flags: 2 },
            KeybdRecord { vk: 0, scan: 0x61, flags: 4 },
            KeybdRecord { vk: 0, scan: 0x61, flags: 6 },
            KeybdRecord { vk: 0, scan: 0, flags: 4 },
        ]
    );
    assert_eq!(host_records(&Vec::new()), vec![]);
}

#[test]
fn what_is_no_scalar_value_has_no_record() {
    assert_eq!(host_records(&vec![uni(0xD800, false), uni(0x110000, true)]), vec![]);
}

#[test]
fn event_flags_are_those_of_the_host() {
    assert_eq!(KEYEVENTF_KEYUP, win::KEYEVENTF_KEYUP.0);
    assert_eq!(KEYEVENTF_UNICODE, win::KEYEVENTF_UNICODE.0);
    assert_eq!(unit_record(0x61, true).flags, (win::KEYEVENTF_UNICODE | win::KEYEVENTF_KEYUP).0);
}

#[test]
fn send_to_ordinary_target_types_the_text() {
    let plan = send_replacement(&abc(), &plain_target());
    assert_eq!(
        plan.batch,
        vec![
            back(false),
            back(true),
            back(false),
            back(true),
            uni(0x61, false),
            uni(0x61, true),
            uni(0x62, false),
            uni(0x62, true),
            uni(0x63, false),
            uni(0x63, true),
        ]
    );
    assert_eq!(plan.clipboard, None);
}

#[test]
fn send_to_denylisted_target_pastes_the_text() {
    let plan = send_replacement(&abc(), &warp_target());
    assert_eq!(plan.batch, vec![back(false), back(true), back(false), back(true)]);
    assert_eq!(plan.clipboard, Some(vec![0x61, 0x62, 0x63, 0]));
    let chord = paste_batch(true);
    assert_eq!(
        chord,
        vec![
            KeyInput::Key { vk: 0xA2, up: false },
            KeyInput::Key { vk: 0x56, up: false },
            KeyInput::Key { vk: 0x56, up: true },
            KeyInput::Key { vk: 0xA2, up: true },
        ]
    );
}

#[test]
fn clipboard_text_is_abc() {
    let plan = send_replacement(&abc(), &warp_target());
    let text = plan.clipboard.expect("text");
    let (body, nul) = text.split_at(text.len() - 1);
    assert_eq!(String::from_utf16(body).unwrap(), "abc");
    assert_eq!(nul, &[0u16]);
}

#[test]
fn no_action_emits_nothing() {
    let plain = send_replacement(&EngineDecision::NoAction, &plain_target());
    assert_eq!(plain, OutputPlan { batch: vec![], clipboard: None });
    let warp = send_replacement(&EngineDecision::NoAction, &warp_target());
    assert_eq!(warp, OutputPlan { batch: vec![], clipboard: None });
    assert!(!EngineDecision::NoAction.swallows_key());
}

#[test]
fn clipboard_failure_leaves_only_the_backspaces() {
    let plan = send_replacement(&abc(), &warp_target());
    assert_eq!(plan.batch, vec![back(false), back(true), back(false), back(true)]);
    assert!(plan.clipboard.is_some());
    assert_eq!(paste_batch(false), vec![]);
}

#[test]
fn restore_is_carried_out_like_send() {
    let restore = EngineDecision::Restore(Replacement { backspace: 1, chars: vec![0x78] });
    let plan = send_replacement(&restore, &plain_target());
    assert_eq!(plan.batch, vec![back(false), back(true), uni(0x78, false), uni(0x78, true)]);
    assert!(restore.swallows_key());
    assert!(abc().swallows_key());
}

#[test]
fn every_character_is_typed_nul_included() {
    let nul = EngineDecision::Send(Replacement { backspace: 0, chars: vec![0] });
    assert_eq!(send_replacement(&nul, &plain_target()).batch, vec![uni(0, false), uni(0, true)]);
    let d = EngineDecision::Send(Replacement { backspace: 0, chars: vec![0, 0x61, 0] });
    let plan = send_replacement(&d, &plain_target());
    assert_eq!(
        plan.batch,
        vec![
            uni(0, false),
            uni(0, true),
            uni(0x61, false),
            uni(0x61, true),
            uni(0, false),
            uni(0, true),
        ]
    );
}

#[test]
fn character_above_the_basic_plane_is_typed_as_itself() {
    let d = EngineDecision::Send(Replacement { backspace: 1, chars: vec![0x1F600] });
    let plan = send_replacement(&d, &plain_target());
    assert_eq!(
        plan.batch,
        vec![back(false), back(true), uni(0x1F600, false), uni(0x1F600, true)]
    );
    let scans: Vec<u16> = host_records(&plan.batch).iter().map(|r| r.scan).collect();
    assert_eq!(scans, vec![0, 0, 0xD83D, 0xDE00, 0xD83D, 0xDE00]);
}

#[test]
fn empty_replacement_emits_nothing() {
    let d = EngineDecision::Send(Replacement { backspace: 0, chars: vec![] });
    assert_eq!(send_replacement(&d, &plain_target()), OutputPlan { batch: vec![], clipboard: None });
    assert_eq!(send_replacement(&d, &warp_target()), OutputPlan { batch: vec![], clipboard: None });
}

#[test]
fn paste_without_text_sets_no_clipboard() {
    let d = EngineDecision::Send(Replacement { backspace: 3, chars: vec![0xD800] });
    let plan = send_replacement(&d, &warp_target());
    assert_eq!(plan.batch.len(), 6);
    assert_eq!(plan.clipboard, None);
}

#[test]
fn push_backspaces_appends_pairs() {
    let mut batch = vec![uni(0x61, false)];
    push_backspaces(&mut batch, 2);
    assert_eq!(batch, vec![uni(0x61, false), back(false), back(true), back(false), back(true)]);
    push_backspaces(&mut batch, 0);
    assert_eq!(batch.len(), 5);
    let mut many = Vec::new();
    push_backspaces(&mut many, 255);
    assert_eq!(many.len(), 510);
}

#[test]
fn push_unicode_appends_pairs_in_order() {
    let mut batch = vec![back(false)];
    push_unicode(&mut batch, &vec![0x1EC7, 0x74]);
    assert_eq!(
        batch,
        vec![back(false), uni(0x1EC7, false), uni(0x1EC7, true), uni(0x74, false), uni(0x74, true)]
    );
}

#[test]
fn encode_scalars_matches_the_standard_encoding() {
    let chars = vec![0x76, 0x69, 0x1EC7, 0x74, 0x1F600];
    let text: String = chars.iter().map(|c| char::from_u32(*c).unwrap()).collect();
    let expected: Vec<u16> = text.encode_utf16().collect();
    assert_eq!(encode_scalars(&chars), expected);
    assert_eq!(encode_scalars(&vec![0x1F600]), vec![0xD83D, 0xDE00]);
}

#[test]
fn encode_scalars_skips_what_is_no_scalar() {
    assert_eq!(encode_scalars(&vec![0xD800, 0x61, 0xDFFF, 0x110000, 0x62]), vec![0x61, 0x62]);
    assert_eq!(encode_scalars(&vec![0, 0x61]), vec![0, 0x61]);
}

#[test]
fn from_raw_reads_count_characters() {
    let chars = [0x61u32, 0x62, 0x63, 0, 0];
    assert_eq!(EngineDecision::from_raw(ACTION_SEND, 2, &chars, 3), abc());
    assert_eq!(
        EngineDecision::from_raw(ACTION_RESTORE, 1, &chars, 1),
        EngineDecision::Restore(Replacement { backspace: 1, chars: vec![0x61] })
    );
    assert_eq!(EngineDecision::from_raw(ACTION_NONE, 2, &chars, 3), EngineDecision::NoAction);
    assert_eq!(EngineDecision::from_raw(7, 2, &chars, 3), EngineDecision::NoAction);
    assert_eq!(
        EngineDecision::from_raw(ACTION_SEND, 0, &chars, 0),
        EngineDecision::Send(Replacement { backspace: 0, chars: vec![] })
    );
}

#[test]
fn replacement_accessor() {
    assert_eq!(EngineDecision::NoAction.replacement(), None);
    let d = abc();
    let r = d.replacement().expect("replacement");
    assert_eq!(r.backspace, 2);
    assert_eq!(r.chars, vec![0x61, 0x62, 0x63]);
}

#[test]
fn strategy_of_targets() {
    assert_eq!(plain_target().strategy(), OutputStrategy::Standard);
    assert_eq!(warp_target().strategy(), OutputStrategy::ClipboardPaste);
    assert_eq!(ForegroundTarget::standard().strategy(), OutputStrategy::Standard);
}
