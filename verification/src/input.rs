//! Synthetic keyboard events, and the records by which the host takes them.
//!
//! A `KeyInput` is one event of a batch: the press or release of a virtual
//! key, or of a character given by its Unicode scalar value.  The host's
//! injection call takes 16-bit records; a character event becomes one record
//! per UTF-16 code unit of the character.
use vstd::prelude::*;
use crate::wide::{is_scalar, push_scalar, scalar_units};

verus! {

/// The record releases the key; without it the record presses the key.
pub const KEYEVENTF_KEYUP: u32 = 2;

/// The record carries a UTF-16 code unit in `scan` and no virtual key.
pub const KEYEVENTF_UNICODE: u32 = 4;

/// One synthetic event.
#[derive(Clone, Copy, Debug, PartialEq, Eq, Structural)]
pub enum KeyInput {
    /// The press (`up == false`) or release of the virtual key `vk`.
    Key { vk: u16, up: bool },
    /// The press or release of the character with the scalar value `scalar`,
    /// whatever the keyboard layout.
    Unicode { scalar: u32, up: bool },
}

/// One keyboard record of the host's injection call.  Its time stamp and
/// extra information are always zero.
#[derive(Clone, Copy, Debug, PartialEq, Eq, Structural)]
pub struct KeybdRecord {
    /// Virtual-key code; zero in a character record.
    pub vk: u16,
    /// UTF-16 code unit of a character record; zero in a virtual-key record.
    pub scan: u16,
    /// Combination of the `KEYEVENTF_` flags.
    pub flags: u32,
}

impl KeyInput {
    /// The press or release of the virtual key `vk`.
    pub open spec fn key(vk: u16, up: bool) -> KeyInput {
        KeyInput::Key { vk, up }
    }

    /// The press or release of the character `c`.
    pub open spec fn unicode(c: u32, up: bool) -> KeyInput {
        KeyInput::Unicode { scalar: c, up }
    }
}

impl KeybdRecord {
    /// The record of a virtual key.
    pub open spec fn key(vk: u16, up: bool) -> KeybdRecord {
        KeybdRecord { vk, scan: 0, flags: if up { KEYEVENTF_KEYUP } else { 0 } }
    }

    /// The record of one UTF-16 code unit.
    pub open spec fn unit(unit: u16, up: bool) -> KeybdRecord {
        KeybdRecord { vk: 0, scan: unit, flags: if up { 6 } else { KEYEVENTF_UNICODE } }
    }
}

/// The records of one event: one for a virtual key; for a character one per
/// UTF-16 code unit, in order, each pressed or released as the event is.  A
/// value that is no Unicode scalar value has no UTF-16 form and no record.
pub open spec fn records_of(input: KeyInput) -> Seq<KeybdRecord> {
    match input {
        KeyInput::Key { vk, up } => seq![KeybdRecord::key(vk, up)],
        KeyInput::Unicode { scalar, up } => if is_scalar(scalar) {
            Seq::new(
                scalar_units(scalar).len(),
                |i: int| KeybdRecord::unit(scalar_units(scalar)[i], up),
            )
        } else {
            Seq::empty()
        },
    }
}

/// The records of a batch: those of its events, in order.
pub open spec fn batch_records(batch: Seq<KeyInput>) -> Seq<KeybdRecord>
    decreases batch.len(),
{
    if batch.len() == 0 {
        Seq::empty()
    } else {
        batch_records(batch.drop_last()) + records_of(batch.last())
    }
}

/// A character of the basic plane, NUL included, is one record that carries
/// the character itself.  A character above it is two records, the high
/// surrogate before the low one, from which the character can be read back.
pub proof fn character_records(c: u32, up: bool)
    requires
        is_scalar(c),
    ensures
        c < 0x10000 ==> records_of(KeyInput::unicode(c, up)) == seq![
            KeybdRecord::unit(c as u16, up),
        ],
        c >= 0x10000 ==> {
            let records = records_of(KeyInput::unicode(c, up));
            &&& records.len() == 2
            &&& records[0] == KeybdRecord::unit(records[0].scan, up)
            &&& records[1] == KeybdRecord::unit(records[1].scan, up)
            &&& 0xD800 <= records[0].scan <= 0xDBFF
            &&& 0xDC00 <= records[1].scan <= 0xDFFF
            &&& 0x10000 + (records[0].scan - 0xD800) * 0x400 + (records[1].scan - 0xDC00) == c
        },
{
    if c < 0x10000 {
        assert(records_of(KeyInput::unicode(c, up)) =~= seq![KeybdRecord::unit(c as u16, up)]);
    }
}

/// Builds the event that presses or releases a virtual key.
pub fn create_key_input(vk: u16, up: bool) -> (input: KeyInput)
    ensures
        input == KeyInput::key(vk, up),
{
    KeyInput::Key { vk, up }
}

/// Builds the event that presses or releases a character, independent of the
/// keyboard layout.  The event carries the character itself.
pub fn create_unicode_input(c: u32, up: bool) -> (input: KeyInput)
    ensures
        input == KeyInput::unicode(c, up),
{
    KeyInput::Unicode { scalar: c, up }
}

/// Builds the host's record of a virtual key.
pub fn key_record(vk: u16, up: bool) -> (record: KeybdRecord)
    ensures
        record == KeybdRecord::key(vk, up),
{
    let flags: u32 = if up {
        KEYEVENTF_KEYUP
    } else {
        0
    };
    KeybdRecord { vk, scan: 0, flags }
}

/// Builds the host's record of one UTF-16 code unit.
pub fn unit_record(unit: u16, up: bool) -> (record: KeybdRecord)
    ensures
        record == KeybdRecord::unit(unit, up),
{
    let mut flags: u32 = KEYEVENTF_UNICODE;
    if up {
        flags = flags | KEYEVENTF_KEYUP;
        assert(4u32 | 2u32 == 6u32) by (bit_vector);
    }
    KeybdRecord { vk: 0, scan: unit, flags }
}

/// Appends the host's records of one event.
pub fn push_records(records: &mut Vec<KeybdRecord>, input: &KeyInput)
    ensures
        final(records)@ == old(records)@ + records_of(*input),
{
    match input {
        KeyInput::Key { vk, up } => {
            records.push(key_record(*vk, *up));
            assert(records@ =~= old(records)@ + records_of(*input));
        },
        KeyInput::Unicode { scalar, up } => {
            let c: u32 = *scalar;
            if c < 0xD800 || (0xE000 <= c && c <= 0x10FFFF) {
                let mut units: Vec<u16> = Vec::new();
                push_scalar(&mut units, c);
                assert(units@ =~= scalar_units(c));
                let mut i: usize = 0;
                while i < units.len()
                    invariant
                        i <= units@.len(),
                        units@ == scalar_units(c),
                        records@ == old(records)@ + Seq::new(
                            i as nat,
                            |k: int| KeybdRecord::unit(scalar_units(c)[k], *up),
                        ),
                    decreases units@.len() - i,
                {
                    records.push(unit_record(units[i], *up));
                    i += 1;
                    assert(records@ =~= old(records)@ + Seq::new(
                        i as nat,
                        |k: int| KeybdRecord::unit(scalar_units(c)[k], *up),
                    ));
                }
            } else {
                assert(records@ =~= old(records)@ + records_of(*input));
            }
        },
    }
}

/// The host's records of a batch, in the order of its events.
pub fn host_records(batch: &Vec<KeyInput>) -> (records: Vec<KeybdRecord>)
    ensures
        records@ == batch_records(batch@),
{
    let mut records: Vec<KeybdRecord> = Vec::new();
    let mut i: usize = 0;
    while i < batch.len()
        invariant
            i <= batch@.len(),
            records@ == batch_records(batch@.take(i as int)),
        decreases batch@.len() - i,
    {
        push_records(&mut records, &batch[i]);
        proof {
            assert(batch@.take(i + 1).drop_last() =~= batch@.take(i as int));
        }
        i += 1;
    }
    proof {
        assert(batch@.take(batch@.len() as int) =~= batch@);
    }
    records
}

} // verus!
