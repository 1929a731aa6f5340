use gonhanh_win::settings::{InputMethod, Settings};
use gonhanh_win::template::{
    add_item, align, build_dialog_template, put_i16, put_u16, put_u32, put_wide_text, DialogItem,
    CONTROL_STYLE, DIALOG_STYLE,
};
use gonhanh_win::ui::{
    create_dialog_template, dialog_command, dialog_items, dialog_proc, dialog_reply,
    manage_startup, tray_tip, DialogAction, SettingsForm, StartupAction, TrayState,
    IDC_BTN_SHORTCUT, IDC_BTN_TABLE, IDC_CHK_AUTO_CAP, IDC_CHK_DEBUG, IDC_CHK_ENABLED,
    IDC_COMBO_METHOD, IDC_GRP_INPUT, IDM_EXIT, IDM_SHOW, WM_CLOSE, WM_COMMAND, WM_DESTROY,
    WM_INITDIALOG, WM_LBUTTONUP, WM_RBUTTONUP, WM_TRAYICON, WM_UPDATE_ICON,
};
use windows::Win32::UI::WindowsAndMessaging as winmsg;

fn reference_template(title: &str, items: &[DialogItem]) -> Vec<u8> {
    let mut b: Vec<u8> = Vec::new();
    let style: u32 = winmsg::WS_POPUP.0
        | winmsg::WS_CAPTION.0
        | winmsg::WS_SYSMENU.0
        | winmsg::WS_MINIMIZEBOX.0
        | winmsg::DS_MODALFRAME as u32
        | winmsg::DS_CENTER as u32
        | winmsg::DS_SETFONT as u32;
    b.extend_from_slice(&style.to_le_bytes());
    b.extend_from_slice(&0u32.to_le_bytes());
    b.extend_from_slice(&(items.len() as u16).to_le_bytes());
    b.extend_from_slice(&100i16.to_le_bytes());
    b.extend_from_slice(&100i16.to_le_bytes());
    b.extend_from_slice(&200i16.to_le_bytes());
    b.extend_from_slice(&300i16.to_le_bytes());
    b.extend_from_slice(&0u16.to_le_bytes());
    b.extend_from_slice(&0u16.to_le_bytes());
    for c in title.encode_utf16() {
        b.extend_from_slice(&c.to_le_bytes());
    }
    b.extend_from_slice(&0u16.to_le_bytes());
    b.extend_from_slice(&9u16.to_le_bytes());
    for c in "Segoe UI".encode_utf16() {
        b.extend_from_slice(&c.to_le_bytes());
    }
    b.extend_from_slice(&0u16.to_le_bytes());
    for item in items {
        while b.len() % 4 != 0 {
            b.push(0);
        }
        let style = (winmsg::WS_CHILD | winmsg::WS_VISIBLE).0 | item.style;
        b.extend_from_slice(&style.to_le_bytes());
        b.extend_from_slice(&0u32.to_le_bytes());
        b.extend_from_slice(&item.x.to_le_bytes());
        b.extend_from_slice(&item.y.to_le_bytes());
        b.extend_from_slice(&item.w.to_le_bytes());
        b.extend_from_slice(&item.h.to_le_bytes());
        b.extend_from_slice(&item.id.to_le_bytes());
        b.extend_from_slice(&0xFFFFu16.to_le_bytes());
        b.extend_from_slice(&item.class_id.to_le_bytes());
        for c in item.text.encode_utf16() {
            b.extend_from_slice(&c.to_le_bytes());
        }
        b.extend_from_slice(&0u16.to_le_bytes());
        b.extend_from_slice(&0u16.to_le_bytes());
    }
    b
}

#[test]
fn style_constants_are_unions_of_host_styles() {
    assert_eq!(DIALOG_STYLE, 0x80CA_08C0);
    assert_eq!(CONTROL_STYLE, 0x5000_0000);
    assert_eq!(CONTROL_STYLE, (winmsg::WS_CHILD | winmsg::WS_VISIBLE).0);
}

#[test]
fn message_numbers_are_those_of_the_host() {
    assert_eq!(WM_INITDIALOG, winmsg::WM_INITDIALOG);
    assert_eq!(WM_COMMAND, winmsg::WM_COMMAND);
    assert_eq!(WM_CLOSE, winmsg::WM_CLOSE);
    assert_eq!(WM_DESTROY, winmsg::WM_DESTROY);
    assert_eq!(WM_LBUTTONUP, winmsg::WM_LBUTTONUP);
    assert_eq!(WM_RBUTTONUP, winmsg::WM_RBUTTONUP);
    assert_eq!(WM_TRAYICON, winmsg::WM_USER + 1);
    assert_eq!(WM_UPDATE_ICON, winmsg::WM_USER + 2);
}

#[test]
fn little_endian_numbers() {
    let mut b = Vec::new();
    put_u16(&mut b, 0x1234);
    put_u32(&mut b, 0x89AB_CDEF);
    put_i16(&mut b, -1);
    put_i16(&mut b, 300);
    put_i16(&mut b, i16::MIN);
    assert_eq!(b, vec![0x34, 0x12, 0xEF, 0xCD, 0xAB, 0x89, 0xFF, 0xFF, 0x2C, 0x01, 0x00, 0x80]);
}

#[test]
fn wide_text_is_nul_terminated() {
    let mut b = vec![9];
    put_wide_text(&mut b, "Gõ");
    assert_eq!(b, vec![9, 0x47, 0x00, 0xF5, 0x00, 0x00, 0x00]);
    let mut e = Vec::new();
    put_wide_text(&mut e, "");
    assert_eq!(e, vec![0, 0]);
}

#[test]
fn align_pads_to_a_multiple_of_four() {
    for len in 0..9usize {
        let mut b = vec![1u8; len];
        align(&mut b);
        assert_eq!(b.len(), (len + 3) / 4 * 4);
        assert!(b[..len].iter().all(|x| *x == 1));
        assert!(b[len..].iter().all(|x| *x == 0));
    }
}

#[test]
fn item_record_layout() {
    let item = DialogItem {
        x: 1,
        y: 2,
        w: 3,
        h: 4,
        id: -1,
        style: 7,
        class_id: 0x0080,
        text: "A",
    };
    let mut b = vec![0xAA];
    add_item(&mut b, &item);
    assert_eq!(
        b,
        vec![
            0xAA, 0, 0, 0, 0x07, 0x00, 0x00, 0x50, 0, 0, 0, 0, 1, 0, 2, 0, 3, 0, 4, 0, 0xFF,
            0xFF, 0xFF, 0xFF, 0x80, 0x00, 0x41, 0x00, 0x00, 0x00, 0x00, 0x00,
        ]
    );
}

#[test]
fn template_matches_the_record_layout() {
    let items = dialog_items();
    assert_eq!(items.len(), 17);
    let built = create_dialog_template("Gõ Nhanh");
    assert_eq!(built, reference_template("Gõ Nhanh", &items));
    assert_eq!(&built[..4], &[0xC0, 0x08, 0xCA, 0x80]);
    assert_eq!(&built[8..10], &[17, 0]);
    assert_eq!(&built[10..18], &[100, 0, 100, 0, 200, 0, 0x2C, 0x01]);
}

#[test]
fn template_of_an_empty_dialog_is_its_header() {
    let built = build_dialog_template("T", &Vec::new());
    assert_eq!(built, reference_template("T", &[]));
    assert_eq!(built.len(), 18 + 4 + 4 + 2 + 18);
}

#[test]
fn dialog_items_are_the_known_controls() {
    let items = dialog_items();
    assert_eq!(items[0].id, IDC_GRP_INPUT);
    assert_eq!(items[0].text, "Bộ gõ");
    assert_eq!(items[1].id, IDC_CHK_ENABLED);
    assert_eq!((items[1].x, items[1].y, items[1].w, items[1].h), (15, 20, 170, 14));
    assert_eq!(items[3].id, IDC_COMBO_METHOD);
    assert_eq!(items[3].style, 3 | 0x0020_0000);
    assert_eq!(items[3].class_id, 0x0085);
    assert_eq!(items[2].id, -1);
    assert_eq!(items[2].class_id, 0x0082);
    assert_eq!(items[16].id, IDC_CHK_DEBUG);
    assert_eq!(items[16].y, 250);
}

#[test]
fn messages_are_told_apart() {
    assert_eq!(dialog_proc(WM_INITDIALOG, 0, 0), DialogAction::Init);
    assert_eq!(dialog_proc(WM_UPDATE_ICON, 0, 0), DialogAction::Refresh);
    assert_eq!(dialog_proc(WM_TRAYICON, 0, WM_LBUTTONUP as isize), DialogAction::ToggleFromTray);
    assert_eq!(dialog_proc(WM_TRAYICON, 0, WM_RBUTTONUP as isize), DialogAction::ShowTrayMenu);
    assert_eq!(dialog_proc(WM_TRAYICON, 0, 0x0200), DialogAction::Ignore);
    assert_eq!(dialog_proc(WM_CLOSE, 0, 0), DialogAction::Hide);
    assert_eq!(dialog_proc(WM_DESTROY, 0, 0), DialogAction::Quit);
    assert_eq!(dialog_proc(0x000F, 0, 0), DialogAction::Ignore);
}

#[test]
fn commands_are_decoded_from_the_parameter() {
    assert_eq!(dialog_proc(WM_COMMAND, IDM_EXIT as usize, 0), DialogAction::Exit);
    assert_eq!(dialog_proc(WM_COMMAND, IDM_SHOW as usize, 0), DialogAction::Show);
    assert_eq!(
        dialog_proc(WM_COMMAND, IDC_CHK_ENABLED as usize, 0),
        DialogAction::Command { save: true, refresh_icon: true, notice: false }
    );
    assert_eq!(
        dialog_proc(WM_COMMAND, IDC_CHK_AUTO_CAP as usize | (5 << 16), 0),
        DialogAction::Command { save: true, refresh_icon: false, notice: false }
    );
    assert_eq!(
        dialog_proc(WM_COMMAND, IDC_COMBO_METHOD as usize | (1 << 16), 0),
        DialogAction::Command { save: true, refresh_icon: false, notice: false }
    );
    assert_eq!(
        dialog_proc(WM_COMMAND, IDC_COMBO_METHOD as usize | (2 << 16), 0),
        DialogAction::Command { save: false, refresh_icon: false, notice: false }
    );
    assert_eq!(
        dialog_proc(WM_COMMAND, IDC_BTN_TABLE as usize, 0),
        DialogAction::Command { save: false, refresh_icon: false, notice: true }
    );
    assert_eq!(
        dialog_command(IDC_BTN_SHORTCUT as i32, 0),
        DialogAction::Command { save: false, refresh_icon: false, notice: true }
    );
    assert_eq!(
        dialog_command(IDC_GRP_INPUT as i32, 0),
        DialogAction::Command { save: false, refresh_icon: false, notice: false }
    );
}

#[test]
fn only_initialisation_replies_one() {
    assert_eq!(dialog_reply(DialogAction::Init), 1);
    assert_eq!(dialog_reply(DialogAction::Refresh), 0);
    assert_eq!(dialog_reply(DialogAction::Exit), 0);
    assert_eq!(dialog_reply(DialogAction::Ignore), 0);
}

#[test]
fn form_shows_settings() {
    let mut s = Settings::default();
    s.method = InputMethod::Vni;
    s.run_with_system = true;
    let form = SettingsForm::init_controls(&s);
    assert_eq!(
        form,
        SettingsForm {
            enabled: true,
            modern_tone: false,
            w_as_u_at_start: true,
            bracket_as_uo: true,
            run_with_system: true,
            auto_switch_mode: false,
            auto_restore_english: false,
            auto_capitalize: true,
            method_selection: 1,
        }
    );
    assert_eq!(form.save_settings_from_ui(s), s);
}

#[test]
fn form_overwrites_what_has_a_control() {
    let mut current = Settings::default();
    current.spell_check = true;
    current.is_first_run = false;
    let form = SettingsForm {
        enabled: false,
        modern_tone: true,
        w_as_u_at_start: false,
        bracket_as_uo: false,
        run_with_system: true,
        auto_switch_mode: true,
        auto_restore_english: true,
        auto_capitalize: false,
        method_selection: 1,
    };
    let saved = form.save_settings_from_ui(current);
    assert_eq!(
        saved,
        Settings {
            enabled: false,
            method: InputMethod::Vni,
            modern_tone: true,
            auto_capitalize: false,
            spell_check: true,
            is_first_run: false,
            w_as_u_at_start: false,
            bracket_as_uo: false,
            run_with_system: true,
            auto_switch_mode: true,
            auto_restore_english: true,
        }
    );
    let mut no_selection = form;
    no_selection.method_selection = -1;
    assert_eq!(no_selection.save_settings_from_ui(current).method, InputMethod::Telex);
}

#[test]
fn tray_icon_is_added_once() {
    let mut tray = TrayState::new();
    let first = tray.update_tray_icon(true);
    assert!(first.add);
    assert_eq!(first.icon_id, 101);
    assert_eq!(first.tip.len(), 128);
    let title: Vec<u16> = "Gõ Nhanh: Tiếng Việt".encode_utf16().collect();
    assert_eq!(&first.tip[..title.len()], &title[..]);
    assert!(first.tip[title.len()..].iter().all(|u| *u == 0));
    let second = tray.update_tray_icon(false);
    assert!(!second.add);
    assert_eq!(second.icon_id, 102);
    let off: Vec<u16> = "Gõ Nhanh: Tiếng Anh".encode_utf16().collect();
    assert_eq!(&second.tip[..off.len()], &off[..]);
    assert!(tray.created);
}

#[test]
fn long_tip_is_cut_and_terminated() {
    let long = "x".repeat(200);
    let tip = tray_tip(&long);
    assert_eq!(tip.len(), 128);
    assert!(tip[..127].iter().all(|u| *u == 0x78));
    assert_eq!(tip[127], 0);
    let exact = "y".repeat(127);
    let tip = tray_tip(&exact);
    assert!(tip[..127].iter().all(|u| *u == 0x79));
    assert_eq!(tip[127], 0);
    assert_eq!(tray_tip(""), vec![0u16; 128]);
}

#[test]
fn startup_entry() {
    assert_eq!(manage_startup(false, Some("C:\\a.exe")), StartupAction::DeleteValue);
    assert_eq!(manage_startup(false, None), StartupAction::DeleteValue);
    assert_eq!(manage_startup(true, None), StartupAction::Leave);
    assert_eq!(
        manage_startup(true, Some("C:\\a")),
        StartupAction::SetValue(vec![0x43, 0, 0x3A, 0, 0x5C, 0, 0x61, 0, 0, 0])
    );
}
