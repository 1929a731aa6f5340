//! The decisions of the settings window and of the notification-area icon.
//!
//! The window procedure's work is split in two: this module says what a
//! message asks for and what the controls and the icon must show; the program
//! around the library talks to the host.
use vstd::prelude::*;
use crate::settings::{InputMethod, Settings};
use crate::template::{
    build_dialog_template, models, put_wide_text, template_bytes, wide_text, DialogItem,
    ItemModel, BS_AUTOCHECKBOX, BS_GROUPBOX, CBS_DROPDOWNLIST, CLASS_BUTTON, CLASS_COMBOBOX,
    CLASS_STATIC, WS_VSCROLL,
};
use crate::wide::{encode_wide, utf16_encode};

verus! {

/// Identifier of a control that is never addressed.
pub const IDC_STATIC: i16 = -1;

pub const IDC_GRP_INPUT: i16 = 101;
pub const IDC_CHK_ENABLED: i16 = 104;
pub const IDC_CHK_MODERN: i16 = 105;
pub const IDC_CHK_W_AS_U: i16 = 107;
pub const IDC_CHK_BRACKET: i16 = 108;
pub const IDC_COMBO_METHOD: i16 = 109;
pub const IDC_BTN_SHORTCUT: i16 = 110;
pub const IDC_BTN_TABLE: i16 = 111;
pub const IDC_CHK_SYSTEM: i16 = 112;
pub const IDC_CHK_AUTO_SWITCH: i16 = 113;
pub const IDC_CHK_RESTORE_ENG: i16 = 114;
pub const IDC_GRP_SHORTCUT: i16 = 115;
pub const IDC_GRP_SYSTEM: i16 = 116;
pub const IDC_CHK_AUTO_CAP: i16 = 117;
pub const IDC_CHK_DEBUG: i16 = 118;

/// Menu command: leave the program.
pub const IDM_EXIT: i32 = 1001;

/// Menu command: show the settings window.
pub const IDM_SHOW: i32 = 1002;

pub const WM_DESTROY: u32 = 0x0002;
pub const WM_CLOSE: u32 = 0x0010;
pub const WM_INITDIALOG: u32 = 0x0110;
pub const WM_COMMAND: u32 = 0x0111;
pub const WM_LBUTTONUP: u32 = 0x0202;
pub const WM_RBUTTONUP: u32 = 0x0205;

/// Message of the notification-area icon.
pub const WM_TRAYICON: u32 = 0x0401;

/// Message that the hook posts after a toggle.
pub const WM_UPDATE_ICON: u32 = 0x0402;

/// Notification code of a combo box whose selection changed.
pub const CBN_SELCHANGE: u16 = 1;

/// Icon resource shown while the engine is on.
pub const ICON_ENABLED: u16 = 101;

/// Icon resource shown while the engine is off.
pub const ICON_DISABLED: u16 = 102;

/// Length of the tooltip field of the icon record, in code units.
pub const TIP_LEN: usize = 128;

/// What a message asks of the settings window.
#[derive(Clone, Copy, Debug, PartialEq, Eq, Structural)]
pub enum DialogAction {
    /// Fill the controls from the settings and set the window icons.
    Init,
    /// The state changed elsewhere: refresh the icon and the check boxes.
    Refresh,
    /// Left click on the icon: switch the engine and show the new state.
    ToggleFromTray,
    /// Right click on the icon: show its menu.
    ShowTrayMenu,
    /// Close the window for good.
    Exit,
    /// Bring the window to the front.
    Show,
    /// A control was used: store the settings, refresh the icon, tell the
    /// user that the feature is not there yet, each where the flag says so.
    Command { save: bool, refresh_icon: bool, notice: bool },
    /// Hide the window; the program lives on behind its icon.
    Hide,
    /// End the message loop.
    Quit,
    /// Nothing to do.
    Ignore,
}

/// Whether a command from the control `id` with notification `code` stores
/// the settings: every check box does, and the method list when its
/// selection changed.
pub open spec fn stores_settings(id: i32, code: u16) -> bool {
    ||| id == IDC_CHK_ENABLED
    ||| id == IDC_CHK_W_AS_U
    ||| id == IDC_CHK_BRACKET
    ||| id == IDC_CHK_MODERN
    ||| id == IDC_CHK_SYSTEM
    ||| id == IDC_CHK_AUTO_SWITCH
    ||| id == IDC_CHK_RESTORE_ENG
    ||| id == IDC_CHK_AUTO_CAP
    ||| id == IDC_CHK_DEBUG
    ||| (id == IDC_COMBO_METHOD && code == CBN_SELCHANGE)
}

/// What a command from the control or menu entry `id` asks for.
pub open spec fn command_action(id: i32, code: u16) -> DialogAction {
    if id == IDM_EXIT {
        DialogAction::Exit
    } else if id == IDM_SHOW {
        DialogAction::Show
    } else {
        DialogAction::Command {
            save: stores_settings(id, code),
            refresh_icon: id == IDC_CHK_ENABLED,
            notice: id == IDC_BTN_TABLE || id == IDC_BTN_SHORTCUT,
        }
    }
}

/// What the message `msg` with its two parameters asks for.
pub open spec fn action_of(msg: u32, wparam: usize, lparam: isize) -> DialogAction {
    if msg == WM_INITDIALOG {
        DialogAction::Init
    } else if msg == WM_UPDATE_ICON {
        DialogAction::Refresh
    } else if msg == WM_TRAYICON {
        if lparam as u32 == WM_LBUTTONUP {
            DialogAction::ToggleFromTray
        } else if lparam as u32 == WM_RBUTTONUP {
            DialogAction::ShowTrayMenu
        } else {
            DialogAction::Ignore
        }
    } else if msg == WM_COMMAND {
        command_action((wparam & 0xFFFF) as i32, (wparam >> 16) as u16)
    } else if msg == WM_CLOSE {
        DialogAction::Hide
    } else if msg == WM_DESTROY {
        DialogAction::Quit
    } else {
        DialogAction::Ignore
    }
}

/// Decides what a command from a control or a menu entry asks for.
pub fn dialog_command(id: i32, code: u16) -> (action: DialogAction)
    ensures
        action == command_action(id, code),
{
    if id == IDM_EXIT {
        return DialogAction::Exit;
    }
    if id == IDM_SHOW {
        return DialogAction::Show;
    }
    let is_check_box: bool = id == IDC_CHK_ENABLED as i32 || id == IDC_CHK_W_AS_U as i32 || id
        == IDC_CHK_BRACKET as i32 || id == IDC_CHK_MODERN as i32 || id == IDC_CHK_SYSTEM as i32
        || id == IDC_CHK_AUTO_SWITCH as i32 || id == IDC_CHK_RESTORE_ENG as i32 || id
        == IDC_CHK_AUTO_CAP as i32 || id == IDC_CHK_DEBUG as i32;
    let save: bool = is_check_box || (id == IDC_COMBO_METHOD as i32 && code == CBN_SELCHANGE);
    DialogAction::Command {
        save,
        refresh_icon: id == IDC_CHK_ENABLED as i32,
        notice: id == IDC_BTN_TABLE as i32 || id == IDC_BTN_SHORTCUT as i32,
    }
}

/// Decides what a message asks of the settings window.
pub fn dialog_proc(msg: u32, wparam: usize, lparam: isize) -> (action: DialogAction)
    ensures
        action == action_of(msg, wparam, lparam),
{
    if msg == WM_INITDIALOG {
        DialogAction::Init
    } else if msg == WM_UPDATE_ICON {
        DialogAction::Refresh
    } else if msg == WM_TRAYICON {
        let button: u32 = #[verifier::truncate]
        (lparam as u32);
        if button == WM_LBUTTONUP {
            DialogAction::ToggleFromTray
        } else if button == WM_RBUTTONUP {
            DialogAction::ShowTrayMenu
        } else {
            DialogAction::Ignore
        }
    } else if msg == WM_COMMAND {
        let low: usize = wparam & 0xFFFF;
        assert(low <= 0xFFFF) by (bit_vector)
            requires
                low == wparam & 0xFFFF,
        ;
        let id: i32 = low as i32;
        let code: u16 = #[verifier::truncate]
        ((wparam >> 16) as u16);
        dialog_command(id, code)
    } else if msg == WM_CLOSE {
        DialogAction::Hide
    } else if msg == WM_DESTROY {
        DialogAction::Quit
    } else {
        DialogAction::Ignore
    }
}

/// The value that the window procedure hands back to the host: one after the
/// controls were set up, zero after everything else.
pub fn dialog_reply(action: DialogAction) -> (reply: isize)
    ensures
        reply == if action == DialogAction::Init {
            1isize
        } else {
            0isize
        },
{
    match action {
        DialogAction::Init => 1,
        _ => 0,
    }
}

/// The state of the controls of the settings window.
#[derive(Clone, Copy, Debug, PartialEq, Eq, Structural)]
pub struct SettingsForm {
    pub enabled: bool,
    pub modern_tone: bool,
    pub w_as_u_at_start: bool,
    pub bracket_as_uo: bool,
    pub run_with_system: bool,
    pub auto_switch_mode: bool,
    pub auto_restore_english: bool,
    pub auto_capitalize: bool,
    /// Index of the selected entry of the method list.
    pub method_selection: isize,
}

impl SettingsForm {
    /// The controls as they show `settings`.
    pub open spec fn showing(settings: Settings) -> SettingsForm {
        SettingsForm {
            enabled: settings.enabled,
            modern_tone: settings.modern_tone,
            w_as_u_at_start: settings.w_as_u_at_start,
            bracket_as_uo: settings.bracket_as_uo,
            run_with_system: settings.run_with_system,
            auto_switch_mode: settings.auto_switch_mode,
            auto_restore_english: settings.auto_restore_english,
            auto_capitalize: settings.auto_capitalize,
            method_selection: settings.method.code_of() as isize,
        }
    }

    /// `current` with every setting that has a control taken from the form.
    pub open spec fn applied(self, current: Settings) -> Settings {
        Settings {
            enabled: self.enabled,
            method: if self.method_selection == 1 {
                InputMethod::Vni
            } else {
                InputMethod::Telex
            },
            modern_tone: self.modern_tone,
            w_as_u_at_start: self.w_as_u_at_start,
            bracket_as_uo: self.bracket_as_uo,
            run_with_system: self.run_with_system,
            auto_switch_mode: self.auto_switch_mode,
            auto_restore_english: self.auto_restore_english,
            auto_capitalize: self.auto_capitalize,
            ..current
        }
    }

    /// What the controls must show for `settings`.
    pub fn init_controls(settings: &Settings) -> (form: Self)
        ensures
            form == Self::showing(*settings),
    {
        SettingsForm {
            enabled: settings.enabled,
            modern_tone: settings.modern_tone,
            w_as_u_at_start: settings.w_as_u_at_start,
            bracket_as_uo: settings.bracket_as_uo,
            run_with_system: settings.run_with_system,
            auto_switch_mode: settings.auto_switch_mode,
            auto_restore_english: settings.auto_restore_english,
            auto_capitalize: settings.auto_capitalize,
            method_selection: match settings.method {
                InputMethod::Telex => 0,
                InputMethod::Vni => 1,
            },
        }
    }

    /// The settings after the user changed the controls: what has a control
    /// is read from the form, the rest stays as in `current`.
    pub fn save_settings_from_ui(&self, current: Settings) -> (settings: Settings)
        ensures
            settings == self.applied(current),
    {
        let mut settings: Settings = current;
        settings.enabled = self.enabled;
        settings.method = InputMethod::from_selection(self.method_selection);
        settings.modern_tone = self.modern_tone;
        settings.w_as_u_at_start = self.w_as_u_at_start;
        settings.bracket_as_uo = self.bracket_as_uo;
        settings.run_with_system = self.run_with_system;
        settings.auto_switch_mode = self.auto_switch_mode;
        settings.auto_restore_english = self.auto_restore_english;
        settings.auto_capitalize = self.auto_capitalize;
        settings
    }
}

/// Reading back controls that show some settings gives those settings.
pub proof fn form_round_trip(settings: Settings)
    ensures
        SettingsForm::showing(settings).applied(settings) == settings,
{
}

/// The settings without a control survive every change through the form.
pub proof fn form_keeps_hidden_settings(form: SettingsForm, current: Settings)
    ensures
        form.applied(current).spell_check == current.spell_check,
        form.applied(current).is_first_run == current.is_first_run,
{
}

/// Whether the notification-area icon exists.
#[derive(Clone, Copy, Debug, PartialEq, Eq, Structural)]
pub struct TrayState {
    pub created: bool,
}

/// What the notification-area icon must show.
#[derive(Clone, Debug, PartialEq, Eq)]
pub struct TrayUpdate {
    /// Resource number of the icon.
    pub icon_id: u16,
    /// The tooltip field: `TIP_LEN` code units, NUL-terminated.
    pub tip: Vec<u16>,
    /// The icon is added; otherwise the existing icon is modified.
    pub add: bool,
}

/// The tooltip of the icon.
pub open spec fn tray_title(enabled: bool) -> Seq<char> {
    if enabled {
        "Gõ Nhanh: Tiếng Việt"@
    } else {
        "Gõ Nhanh: Tiếng Anh"@
    }
}

/// A text laid into a tooltip field: its UTF-16 code units as far as they
/// fit, the rest of the field zero, the last unit always zero.
pub open spec fn tip_field(text: Seq<char>) -> Seq<u16> {
    Seq::new(
        TIP_LEN as nat,
        |i: int|
            if i < TIP_LEN - 1 && i < utf16_encode(text).len() {
                utf16_encode(text)[i]
            } else {
                0u16
            },
    )
}

/// Lays a text into a tooltip field.
pub fn tray_tip(text: &str) -> (tip: Vec<u16>)
    ensures
        tip@ == tip_field(text@),
{
    let wide: Vec<u16> = encode_wide(text);
    let mut tip: Vec<u16> = Vec::new();
    let mut i: usize = 0;
    while i < TIP_LEN
        invariant
            i <= TIP_LEN,
            wide@ == utf16_encode(text@).push(0u16),
            tip@.len() == i,
            forall|k: int| 0 <= k < i ==> #[trigger] tip@[k] == tip_field(text@)[k],
        decreases TIP_LEN - i,
    {
        if i < TIP_LEN - 1 && i < wide.len() {
            tip.push(wide[i]);
        } else {
            tip.push(0u16);
        }
        i += 1;
    }
    assert(tip@ =~= tip_field(text@));
    tip
}

/// The icon resource to show while the engine is on or off.
pub fn tray_icon_id(enabled: bool) -> (icon_id: u16)
    ensures
        icon_id == if enabled {
            ICON_ENABLED
        } else {
            ICON_DISABLED
        },
{
    if enabled {
        ICON_ENABLED
    } else {
        ICON_DISABLED
    }
}

impl TrayState {
    /// The state before the icon was first shown.
    pub fn new() -> (state: Self)
        ensures
            !state.created,
    {
        TrayState { created: false }
    }

    /// What the icon must show while the engine is on or off, once its image
    /// was loaded.  The first update adds the icon, every later one modifies
    /// it.
    pub fn update_tray_icon(&mut self, enabled: bool) -> (update: TrayUpdate)
        ensures
            final(self).created,
            update.add == !old(self).created,
            update.icon_id == if enabled {
                ICON_ENABLED
            } else {
                ICON_DISABLED
            },
            update.tip@ == tip_field(tray_title(enabled)),
    {
        let icon_id: u16 = tray_icon_id(enabled);
        let tip: Vec<u16> = if enabled {
            tray_tip("Gõ Nhanh: Tiếng Việt")
        } else {
            tray_tip("Gõ Nhanh: Tiếng Anh")
        };
        let add: bool = !self.created;
        self.created = true;
        TrayUpdate { icon_id, tip, add }
    }
}

/// What to do about the entry that starts the program with the system.
#[derive(Clone, Debug, PartialEq, Eq)]
pub enum StartupAction {
    /// Store the program's path: the bytes of the value, a NUL-terminated
    /// UTF-16 text.
    SetValue(Vec<u8>),
    /// Remove the entry.
    DeleteValue,
    /// Leave the entry as it is.
    Leave,
}

/// Decides what becomes of the start-up entry: it is set to the program's
/// path where the user wants the program started and the path is known, left
/// alone where the path is not known, and removed where the user does not
/// want the program started.
pub fn manage_startup(enable: bool, program_path: Option<&str>) -> (action: StartupAction)
    ensures
        match action {
            StartupAction::SetValue(bytes) => enable && program_path is Some && bytes@
                == wide_text(program_path->0@),
            StartupAction::DeleteValue => !enable,
            StartupAction::Leave => enable && program_path is None,
        },
{
    if !enable {
        return StartupAction::DeleteValue;
    }
    match program_path {
        Some(path) => {
            let mut bytes: Vec<u8> = Vec::new();
            put_wide_text(&mut bytes, path);
            StartupAction::SetValue(bytes)
        },
        None => StartupAction::Leave,
    }
}

/// One control of the settings dialog.
pub open spec fn item_model(
    x: i16,
    y: i16,
    w: i16,
    h: i16,
    id: i16,
    style: u32,
    class_id: u16,
    text: Seq<char>,
) -> ItemModel {
    ItemModel { x, y, w, h, id, style, class_id, text }
}

/// The controls of the settings dialog, in tab order: the input group with
/// its switches and the method list, the shortcut group, the system group.
pub open spec fn dialog_layout() -> Seq<ItemModel> {
    seq![
        item_model(5, 5, 190, 115, IDC_GRP_INPUT, BS_GROUPBOX, CLASS_BUTTON, "Bộ gõ"@),
        item_model(
            15,
            20,
            170,
            14,
            IDC_CHK_ENABLED,
            BS_AUTOCHECKBOX,
            CLASS_BUTTON,
            "Bộ gõ tiếng Việt"@,
        ),
        item_model(15, 38, 40, 12, IDC_STATIC, 0, CLASS_STATIC, "Kiểu gõ"@),
        item_model(
            60,
            36,
            120,
            100,
            IDC_COMBO_METHOD,
            CBS_DROPDOWNLIST | WS_VSCROLL,
            CLASS_COMBOBOX,
            ""@,
        ),
        item_model(
            15,
            55,
            170,
            14,
            IDC_CHK_W_AS_U,
            BS_AUTOCHECKBOX,
            CLASS_BUTTON,
            "Gõ W thành Ư ở đầu từ"@,
        ),
        item_model(
            15,
            70,
            170,
            14,
            IDC_CHK_BRACKET,
            BS_AUTOCHECKBOX,
            CLASS_BUTTON,
            "Gõ ] thành Ư, [ thành Ơ"@,
        ),
        item_model(
            15,
            85,
            170,
            14,
            IDC_CHK_MODERN,
            BS_AUTOCHECKBOX,
            CLASS_BUTTON,
            "Dấu thanh hiện đại (òa, úy)"@,
        ),
        item_model(
            15,
            100,
            170,
            14,
            IDC_CHK_AUTO_CAP,
            BS_AUTOCHECKBOX,
            CLASS_BUTTON,
            "Tự động viết hoa (sau dấu .)"@,
        ),
        item_model(5, 125, 190, 60, IDC_GRP_SHORTCUT, BS_GROUPBOX, CLASS_BUTTON, "Phím tắt"@),
        item_model(15, 140, 80, 12, IDC_STATIC, 0, CLASS_STATIC, "Phím tắt bật/tắt"@),
        item_model(100, 138, 80, 14, IDC_BTN_SHORTCUT, 0, CLASS_BUTTON, "Ctrl + Shift"@),
        item_model(15, 160, 170, 14, IDC_BTN_TABLE, 0, CLASS_BUTTON, "Bảng gõ tắt > (3/6)"@),
        item_model(5, 190, 190, 100, IDC_GRP_SYSTEM, BS_GROUPBOX, CLASS_BUTTON, "Hệ thống"@),
        item_model(
            15,
            205,
            170,
            14,
            IDC_CHK_SYSTEM,
            BS_AUTOCHECKBOX,
            CLASS_BUTTON,
            "Khởi động cùng hệ thống"@,
        ),
        item_model(
            15,
            220,
            170,
            14,
            IDC_CHK_AUTO_SWITCH,
            BS_AUTOCHECKBOX,
            CLASS_BUTTON,
            "Tự chuyển chế độ theo ứng dụng"@,
        ),
        item_model(
            15,
            235,
            170,
            14,
            IDC_CHK_RESTORE_ENG,
            BS_AUTOCHECKBOX,
            CLASS_BUTTON,
            "Tự khôi phục từ tiếng Anh"@,
        ),
        item_model(
            15,
            250,
            170,
            14,
            IDC_CHK_DEBUG,
            BS_AUTOCHECKBOX,
            CLASS_BUTTON,
            "Bật Log Debug (Log vào file)"@,
        ),
    ]
}

/// A check box of the usual size at height `y`.
fn check_box(y: i16, id: i16, text: &'static str) -> (item: DialogItem)
    ensures
        item@ == item_model(15, y, 170, 14, id, BS_AUTOCHECKBOX, CLASS_BUTTON, text@),
{
    DialogItem { x: 15, y, w: 170, h: 14, id, style: BS_AUTOCHECKBOX, class_id: CLASS_BUTTON, text }
}

/// A group frame across the dialog, from height `y` on.
fn group_box(y: i16, h: i16, id: i16, text: &'static str) -> (item: DialogItem)
    ensures
        item@ == item_model(5, y, 190, h, id, BS_GROUPBOX, CLASS_BUTTON, text@),
{
    DialogItem { x: 5, y, w: 190, h, id, style: BS_GROUPBOX, class_id: CLASS_BUTTON, text }
}

/// The controls of the settings dialog.
pub fn dialog_items() -> (items: Vec<DialogItem>)
    ensures
        models(items@) == dialog_layout(),
{
    let mut items: Vec<DialogItem> = Vec::new();
    items.push(group_box(5, 115, IDC_GRP_INPUT, "Bộ gõ"));
    items.push(check_box(20, IDC_CHK_ENABLED, "Bộ gõ tiếng Việt"));
    items.push(
        DialogItem {
            x: 15,
            y: 38,
            w: 40,
            h: 12,
            id: IDC_STATIC,
            style: 0,
            class_id: CLASS_STATIC,
            text: "Kiểu gõ",
        },
    );
    items.push(
        DialogItem {
            x: 60,
            y: 36,
            w: 120,
            h: 100,
            id: IDC_COMBO_METHOD,
            style: CBS_DROPDOWNLIST | WS_VSCROLL,
            class_id: CLASS_COMBOBOX,
            text: "",
        },
    );
    items.push(check_box(55, IDC_CHK_W_AS_U, "Gõ W thành Ư ở đầu từ"));
    items.push(check_box(70, IDC_CHK_BRACKET, "Gõ ] thành Ư, [ thành Ơ"));
    items.push(check_box(85, IDC_CHK_MODERN, "Dấu thanh hiện đại (òa, úy)"));
    items.push(check_box(100, IDC_CHK_AUTO_CAP, "Tự động viết hoa (sau dấu .)"));
    items.push(group_box(125, 60, IDC_GRP_SHORTCUT, "Phím tắt"));
    items.push(
        DialogItem {
            x: 15,
            y: 140,
            w: 80,
            h: 12,
            id: IDC_STATIC,
            style: 0,
            class_id: CLASS_STATIC,
            text: "Phím tắt bật/tắt",
        },
    );
    items.push(
        DialogItem {
            x: 100,
            y: 138,
            w: 80,
            h: 14,
            id: IDC_BTN_SHORTCUT,
            style: 0,
            class_id: CLASS_BUTTON,
            text: "Ctrl + Shift",
        },
    );
    items.push(
        DialogItem {
            x: 15,
            y: 160,
            w: 170,
            h: 14,
            id: IDC_BTN_TABLE,
            style: 0,
            class_id: CLASS_BUTTON,
            text: "Bảng gõ tắt > (3/6)",
        },
    );
    items.push(group_box(190, 100, IDC_GRP_SYSTEM, "Hệ thống"));
    items.push(check_box(205, IDC_CHK_SYSTEM, "Khởi động cùng hệ thống"));
    items.push(check_box(220, IDC_CHK_AUTO_SWITCH, "Tự chuyển chế độ theo ứng dụng"));
    items.push(check_box(235, IDC_CHK_RESTORE_ENG, "Tự khôi phục từ tiếng Anh"));
    items.push(check_box(250, IDC_CHK_DEBUG, "Bật Log Debug (Log vào file)"));
    assert(models(items@) =~= dialog_layout());
    items
}

/// Builds the template of the settings dialog under the title `title`.
pub fn create_dialog_template(title: &str) -> (template: Vec<u8>)
    ensures
        template@ == template_bytes(title@, dialog_layout()),
{
    let items: Vec<DialogItem> = dialog_items();
    assert(items@.len() == models(items@).len());
    build_dialog_template(title, &items)
}

} // verus!
