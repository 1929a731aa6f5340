//! The in-memory template of the settings dialog.
//!
//! The host builds a dialog from a packed record: a header with the style,
//! the number of controls, the frame, the title and the font, then one record
//! per control, each starting on a four-byte boundary.  All numbers are
//! little-endian and all texts are NUL-terminated UTF-16.
use vstd::prelude::*;
use crate::wide::{encode_wide, utf16_encode};

verus! {

pub const WS_POPUP: u32 = 0x8000_0000;
pub const WS_CHILD: u32 = 0x4000_0000;
pub const WS_VISIBLE: u32 = 0x1000_0000;
pub const WS_CAPTION: u32 = 0x00C0_0000;
pub const WS_VSCROLL: u32 = 0x0020_0000;
pub const WS_SYSMENU: u32 = 0x0008_0000;
pub const WS_MINIMIZEBOX: u32 = 0x0002_0000;
pub const DS_CENTER: u32 = 0x0800;
pub const DS_MODALFRAME: u32 = 0x80;
pub const DS_SETFONT: u32 = 0x40;
pub const BS_AUTOCHECKBOX: u32 = 3;
pub const BS_GROUPBOX: u32 = 7;
pub const CBS_DROPDOWNLIST: u32 = 3;

/// Style of the dialog frame: a centred popup with caption, system menu and
/// minimise box, and a font of its own.
pub const DIALOG_STYLE: u32 = WS_POPUP | WS_CAPTION | WS_SYSMENU | WS_MINIMIZEBOX | DS_MODALFRAME
    | DS_CENTER | DS_SETFONT;

/// Style that every control has.
pub const CONTROL_STYLE: u32 = WS_CHILD | WS_VISIBLE;

/// Window class atoms of the predefined controls.
pub const CLASS_BUTTON: u16 = 0x0080;
pub const CLASS_STATIC: u16 = 0x0082;
pub const CLASS_COMBOBOX: u16 = 0x0085;

/// Point size of the dialog font.
pub const FONT_SIZE: u16 = 9;

/// One control of a dialog, in dialog units.
#[derive(Clone, Copy, Debug, PartialEq, Eq)]
pub struct DialogItem {
    pub x: i16,
    pub y: i16,
    pub w: i16,
    pub h: i16,
    /// Control identifier; `-1` for a control that is never addressed.
    pub id: i16,
    /// Style bits on top of `CONTROL_STYLE`.
    pub style: u32,
    /// Atom of the control's window class.
    pub class_id: u16,
    pub text: &'static str,
}

/// A control with its text as a sequence of characters.
pub struct ItemModel {
    pub x: i16,
    pub y: i16,
    pub w: i16,
    pub h: i16,
    pub id: i16,
    pub style: u32,
    pub class_id: u16,
    pub text: Seq<char>,
}

impl View for DialogItem {
    type V = ItemModel;

    open spec fn view(&self) -> ItemModel {
        ItemModel {
            x: self.x,
            y: self.y,
            w: self.w,
            h: self.h,
            id: self.id,
            style: self.style,
            class_id: self.class_id,
            text: self.text@,
        }
    }
}

/// The models of a list of controls.
pub open spec fn models(items: Seq<DialogItem>) -> Seq<ItemModel> {
    items.map_values(|item: DialogItem| item@)
}

/// A 16-bit number, low byte first.
pub open spec fn le16(x: u16) -> Seq<u8> {
    seq![(x % 256) as u8, (x / 256) as u8]
}

/// A 32-bit number, low byte first.
pub open spec fn le32(x: u32) -> Seq<u8> {
    seq![
        (x % 256) as u8,
        (x / 256 % 256) as u8,
        (x / 65536 % 256) as u8,
        (x / 16777216) as u8,
    ]
}

/// The 16-bit pattern of a signed number in two's complement.
pub open spec fn word_of(x: i16) -> u16 {
    if x >= 0 {
        x as u16
    } else {
        (x + 65536) as u16
    }
}

/// UTF-16 code units as bytes, each unit low byte first.
pub open spec fn wide_bytes(units: Seq<u16>) -> Seq<u8>
    decreases units.len(),
{
    if units.len() == 0 {
        Seq::empty()
    } else {
        wide_bytes(units.drop_last()) + le16(units.last())
    }
}

/// A text as NUL-terminated UTF-16 bytes.
pub open spec fn wide_text(text: Seq<char>) -> Seq<u8> {
    wide_bytes(utf16_encode(text).push(0u16))
}

/// `bytes` filled up with zero bytes to the next multiple of four.
pub open spec fn aligned(bytes: Seq<u8>) -> Seq<u8> {
    bytes + Seq::new(((4 - bytes.len() % 4) % 4) as nat, |i: int| 0u8)
}

/// The header of a template with `count` controls.
pub open spec fn header_bytes(title: Seq<char>, count: u16) -> Seq<u8> {
    le32(DIALOG_STYLE) + le32(0) + le16(count) + le16(100) + le16(100) + le16(200) + le16(300)
        + le16(0) + le16(0) + wide_text(title) + le16(FONT_SIZE) + wide_text("Segoe UI"@)
}

/// The record of one control: styles, frame, identifier, class atom, text,
/// and an empty creation-data block.
pub open spec fn item_bytes(item: ItemModel) -> Seq<u8> {
    le32(CONTROL_STYLE | item.style) + le32(0) + le16(word_of(item.x)) + le16(word_of(item.y))
        + le16(word_of(item.w)) + le16(word_of(item.h)) + le16(word_of(item.id)) + le16(0xFFFF)
        + le16(item.class_id) + wide_text(item.text) + le16(0)
}

/// `bytes` followed by the records of `items`, each on a four-byte boundary.
pub open spec fn with_items(bytes: Seq<u8>, items: Seq<ItemModel>) -> Seq<u8>
    decreases items.len(),
{
    if items.len() == 0 {
        bytes
    } else {
        aligned(with_items(bytes, items.drop_last())) + item_bytes(items.last())
    }
}

/// The whole template of a dialog titled `title` with the controls `items`.
pub open spec fn template_bytes(title: Seq<char>, items: Seq<ItemModel>) -> Seq<u8> {
    with_items(header_bytes(title, items.len() as u16), items)
}

/// Padding brings the length to a multiple of four, adds at most three bytes,
/// and leaves a length that is a multiple of four as it is.
pub proof fn aligned_length(bytes: Seq<u8>)
    ensures
        aligned(bytes).len() % 4 == 0,
        bytes.len() <= aligned(bytes).len() <= bytes.len() + 3,
        bytes.len() % 4 == 0 ==> aligned(bytes) == bytes,
        aligned(bytes).take(bytes.len() as int) == bytes,
{
    assert(aligned(bytes).take(bytes.len() as int) =~= bytes);
    if bytes.len() % 4 == 0 {
        assert(aligned(bytes) =~= bytes);
    }
}

/// A wide text takes two bytes per code unit.
pub proof fn wide_bytes_length(units: Seq<u16>)
    ensures
        wide_bytes(units).len() == 2 * units.len(),
    decreases units.len(),
{
    if units.len() > 0 {
        wide_bytes_length(units.drop_last());
    }
}

/// Every control record of a template starts on a four-byte boundary: the
/// bytes before the record of the last control are a multiple of four.
pub proof fn items_start_aligned(bytes: Seq<u8>, items: Seq<ItemModel>)
    requires
        items.len() > 0,
    ensures
        with_items(bytes, items) == aligned(with_items(bytes, items.drop_last())) + item_bytes(
            items.last(),
        ),
        aligned(with_items(bytes, items.drop_last())).len() % 4 == 0,
{
    aligned_length(with_items(bytes, items.drop_last()));
}

/// Appends a 16-bit number, low byte first.
pub fn put_u16(buffer: &mut Vec<u8>, x: u16)
    ensures
        final(buffer)@ == old(buffer)@ + le16(x),
{
    buffer.push((x % 256) as u8);
    buffer.push((x / 256) as u8);
    assert(buffer@ =~= old(buffer)@ + le16(x));
}

/// Appends a 32-bit number, low byte first.
pub fn put_u32(buffer: &mut Vec<u8>, x: u32)
    ensures
        final(buffer)@ == old(buffer)@ + le32(x),
{
    buffer.push((x % 256) as u8);
    buffer.push((x / 256 % 256) as u8);
    buffer.push((x / 65536 % 256) as u8);
    buffer.push((x / 16777216) as u8);
    assert(buffer@ =~= old(buffer)@ + le32(x));
}

/// Appends a signed 16-bit number in two's complement, low byte first.
pub fn put_i16(buffer: &mut Vec<u8>, x: i16)
    ensures
        final(buffer)@ == old(buffer)@ + le16(word_of(x)),
{
    let word: u16 = if x >= 0 {
        x as u16
    } else {
        (x as i32 + 65536) as u16
    };
    put_u16(buffer, word);
}

/// Appends a text as NUL-terminated UTF-16.
pub fn put_wide_text(buffer: &mut Vec<u8>, text: &str)
    ensures
        final(buffer)@ == old(buffer)@ + wide_text(text@),
{
    let units: Vec<u16> = encode_wide(text);
    let mut i: usize = 0;
    while i < units.len()
        invariant
            i <= units@.len(),
            buffer@ == old(buffer)@ + wide_bytes(units@.take(i as int)),
        decreases units@.len() - i,
    {
        put_u16(buffer, units[i]);
        proof {
            assert(units@.take(i + 1).drop_last() =~= units@.take(i as int));
            assert(buffer@ =~= old(buffer)@ + wide_bytes(units@.take(i + 1)));
        }
        i += 1;
    }
    proof {
        assert(units@.take(units@.len() as int) =~= units@);
    }
}

/// Fills the buffer up with zero bytes to the next multiple of four.
pub fn align(buffer: &mut Vec<u8>)
    ensures
        final(buffer)@ == aligned(old(buffer)@),
        final(buffer)@.len() % 4 == 0,
{
    let ghost start = buffer@;
    while buffer.len() % 4 != 0
        invariant
            start == old(buffer)@,
            buffer@.len() >= start.len(),
            buffer@.len() - start.len() <= (4 - start.len() % 4) % 4,
            buffer@ == start + Seq::new((buffer@.len() - start.len()) as nat, |i: int| 0u8),
        decreases (4 - buffer@.len() % 4) % 4,
    {
        let ghost before = buffer@;
        buffer.push(0u8);
        assert(buffer@ =~= start + Seq::new((buffer@.len() - start.len()) as nat, |i: int| 0u8));
    }
    assert(buffer@.len() - start.len() == (4 - start.len() % 4) % 4);
}

/// Appends the record of one control, on a four-byte boundary.
pub fn add_item(buffer: &mut Vec<u8>, item: &DialogItem)
    ensures
        final(buffer)@ == aligned(old(buffer)@) + item_bytes(item@),
{
    align(buffer);
    let ghost base = buffer@;
    put_u32(buffer, CONTROL_STYLE | item.style);
    put_u32(buffer, 0);
    put_i16(buffer, item.x);
    put_i16(buffer, item.y);
    put_i16(buffer, item.w);
    put_i16(buffer, item.h);
    put_i16(buffer, item.id);
    put_u16(buffer, 0xFFFF);
    put_u16(buffer, item.class_id);
    put_wide_text(buffer, item.text);
    put_u16(buffer, 0);
    assert(buffer@ =~= base + item_bytes(item@));
}

/// Builds the template of a dialog titled `title` that holds `items`.
pub fn build_dialog_template(title: &str, items: &Vec<DialogItem>) -> (template: Vec<u8>)
    requires
        items@.len() <= u16::MAX,
    ensures
        template@ == template_bytes(title@, models(items@)),
{
    let mut buffer: Vec<u8> = Vec::new();
    put_u32(&mut buffer, DIALOG_STYLE);
    put_u32(&mut buffer, 0);
    put_u16(&mut buffer, items.len() as u16);
    put_u16(&mut buffer, 100);
    put_u16(&mut buffer, 100);
    put_u16(&mut buffer, 200);
    put_u16(&mut buffer, 300);
    put_u16(&mut buffer, 0);
    put_u16(&mut buffer, 0);
    put_wide_text(&mut buffer, title);
    put_u16(&mut buffer, FONT_SIZE);
    put_wide_text(&mut buffer, "Segoe UI");
    assert(buffer@ =~= header_bytes(title@, items@.len() as u16));
    let ghost header = buffer@;
    let ghost all = models(items@);
    let mut i: usize = 0;
    while i < items.len()
        invariant
            i <= items@.len(),
            all == models(items@),
            buffer@ == with_items(header, all.take(i as int)),
        decreases items@.len() - i,
    {
        add_item(&mut buffer, &items[i]);
        proof {
            assert(all.take(i + 1).drop_last() =~= all.take(i as int));
            assert(all.take(i + 1).last() == items@[i as int]@);
        }
        i += 1;
    }
    proof {
        assert(all.take(items@.len() as int) =~= all);
    }
    buffer
}

} // verus!
