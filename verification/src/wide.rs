//! UTF-16 text as the host's wide-character interfaces take it.
use vstd::prelude::*;

verus! {

/// Whether `n` is a Unicode scalar value: a code point that is no surrogate.
pub open spec fn is_scalar(n: u32) -> bool {
    n < 0xD800 || (0xE000 <= n && n <= 0x10FFFF)
}

/// The UTF-16 code units of one scalar value: the value itself inside the
/// basic plane, a high and a low surrogate above it.
pub open spec fn scalar_units(n: u32) -> Seq<u16> {
    if n < 0x10000 {
        seq![n as u16]
    } else {
        seq![
            (0xD800 + (n - 0x10000) / 0x400) as u16,
            (0xDC00 + (n - 0x10000) % 0x400) as u16,
        ]
    }
}

/// The UTF-16 encoding of a text, character by character.
pub open spec fn utf16_encode(text: Seq<char>) -> Seq<u16>
    decreases text.len(),
{
    if text.len() == 0 {
        Seq::empty()
    } else {
        utf16_encode(text.drop_last()) + scalar_units(text.last() as u32)
    }
}

/// A scalar value inside the basic plane is its own code unit, and that unit
/// is no surrogate.  Above the basic plane the first unit is a high
/// surrogate, the second a low surrogate, and the two give the value back.
pub proof fn scalar_units_decode(n: u32)
    requires
        is_scalar(n),
    ensures
        n < 0x10000 ==> scalar_units(n) == seq![n as u16] && !(0xD800 <= n <= 0xDFFF),
        n >= 0x10000 ==> {
            &&& scalar_units(n).len() == 2
            &&& 0xD800 <= scalar_units(n)[0] <= 0xDBFF
            &&& 0xDC00 <= scalar_units(n)[1] <= 0xDFFF
            &&& 0x10000 + (scalar_units(n)[0] - 0xD800) * 0x400 + (scalar_units(n)[1] - 0xDC00)
                == n
        },
{
}

/// Appends the UTF-16 code units of the scalar value `n`.
pub fn push_scalar(out: &mut Vec<u16>, n: u32)
    requires
        is_scalar(n),
    ensures
        final(out)@ == old(out)@ + scalar_units(n),
{
    if n < 0x10000 {
        out.push(n as u16);
    } else {
        let rest: u32 = n - 0x10000;
        let high: u32 = 0xD800 + rest / 0x400;
        let low: u32 = 0xDC00 + rest % 0x400;
        out.push(high as u16);
        out.push(low as u16);
    }
    assert(out@ =~= old(out)@ + scalar_units(n));
}

/// Encodes `s` as UTF-16 and closes it with a NUL code unit.  The characters
/// are fetched by position, so the time is quadratic in the length: fit for
/// titles and paths, not for long texts.
pub fn encode_wide(s: &str) -> (wide: Vec<u16>)
    ensures
        wide@ == utf16_encode(s@).push(0u16),
{
    let mut wide: Vec<u16> = Vec::new();
    let n: usize = s.unicode_len();
    let mut i: usize = 0;
    while i < n
        invariant
            n == s@.len(),
            i <= n,
            wide@ == utf16_encode(s@.take(i as int)),
        decreases n - i,
    {
        let c: char = s.get_char(i);
        push_scalar(&mut wide, c as u32);
        proof {
            assert(s@.take(i + 1).drop_last() =~= s@.take(i as int));
        }
        i += 1;
    }
    proof {
        assert(s@.take(n as int) =~= s@);
    }
    wide.push(0u16);
    wide
}

} // verus!
