//! Classification of a physical key into the engine's abstract key space.
use vstd::prelude::*;
use crate::keys;
use crate::vk::{
    VK_0, VK_2, VK_3, VK_4, VK_5, VK_6, VK_7, VK_8, VK_9, VK_A, VK_B, VK_BACK, VK_C, VK_D,
    VK_DOWN, VK_E, VK_ESCAPE, VK_F, VK_G, VK_H, VK_I, VK_J, VK_K, VK_L, VK_LEFT, VK_M, VK_N,
    VK_O, VK_OEM_1, VK_OEM_2, VK_OEM_3, VK_OEM_4, VK_OEM_5, VK_OEM_6, VK_OEM_7, VK_OEM_COMMA,
    VK_OEM_MINUS, VK_OEM_PERIOD, VK_OEM_PLUS, VK_P, VK_Q, VK_R, VK_RETURN, VK_RIGHT, VK_S,
    VK_SPACE, VK_T, VK_TAB, VK_U, VK_UP, VK_V, VK_W, VK_X, VK_Y, VK_Z,
};

verus! {

/// The keys that the classifier knows: the letters, the digits but `1`, the
/// editing keys, the arrows and the punctuation of the primary layout.
pub open spec fn covered(vk: u16) -> bool {
    ||| VK_A <= vk <= VK_Z
    ||| vk == VK_0
    ||| VK_2 <= vk <= VK_9
    ||| vk == VK_SPACE
    ||| vk == VK_RETURN
    ||| vk == VK_BACK
    ||| vk == VK_ESCAPE
    ||| vk == VK_TAB
    ||| VK_LEFT <= vk <= VK_DOWN
    ||| VK_OEM_1 <= vk <= VK_OEM_3
    ||| VK_OEM_4 <= vk <= VK_OEM_7
}

/// The classification table: the abstract key of each covered physical key,
/// `None` for every other.
pub open spec fn classify(vk: u16) -> Option<u16> {
    if vk == VK_A {
        Some(keys::A)
    } else if vk == VK_B {
        Some(keys::B)
    } else if vk == VK_C {
        Some(keys::C)
    } else if vk == VK_D {
        Some(keys::D)
    } else if vk == VK_E {
        Some(keys::E)
    } else if vk == VK_F {
        Some(keys::F)
    } else if vk == VK_G {
        Some(keys::G)
    } else if vk == VK_H {
        Some(keys::H)
    } else if vk == VK_I {
        Some(keys::I)
    } else if vk == VK_J {
        Some(keys::J)
    } else if vk == VK_K {
        Some(keys::K)
    } else if vk == VK_L {
        Some(keys::L)
    } else if vk == VK_M {
        Some(keys::M)
    } else if vk == VK_N {
        Some(keys::N)
    } else if vk == VK_O {
        Some(keys::O)
    } else if vk == VK_P {
        Some(keys::P)
    } else if vk == VK_Q {
        Some(keys::Q)
    } else if vk == VK_R {
        Some(keys::R)
    } else if vk == VK_S {
        Some(keys::S)
    } else if vk == VK_T {
        Some(keys::T)
    } else if vk == VK_U {
        Some(keys::U)
    } else if vk == VK_V {
        Some(keys::V)
    } else if vk == VK_W {
        Some(keys::W)
    } else if vk == VK_X {
        Some(keys::X)
    } else if vk == VK_Y {
        Some(keys::Y)
    } else if vk == VK_Z {
        Some(keys::Z)
    } else if vk == VK_0 {
        Some(keys::N0)
    } else if vk == VK_2 {
        Some(keys::N2)
    } else if vk == VK_3 {
        Some(keys::N3)
    } else if vk == VK_4 {
        Some(keys::N4)
    } else if vk == VK_5 {
        Some(keys::N5)
    } else if vk == VK_6 {
        Some(keys::N6)
    } else if vk == VK_7 {
        Some(keys::N7)
    } else if vk == VK_8 {
        Some(keys::N8)
    } else if vk == VK_9 {
        Some(keys::N9)
    } else if vk == VK_SPACE {
        Some(keys::SPACE)
    } else if vk == VK_RETURN {
        Some(keys::RETURN)
    } else if vk == VK_BACK {
        Some(keys::DELETE)
    } else if vk == VK_ESCAPE {
        Some(keys::ESC)
    } else if vk == VK_TAB {
        Some(keys::TAB)
    } else if vk == VK_LEFT {
        Some(keys::LEFT)
    } else if vk == VK_RIGHT {
        Some(keys::RIGHT)
    } else if vk == VK_UP {
        Some(keys::UP)
    } else if vk == VK_DOWN {
        Some(keys::DOWN)
    } else if vk == VK_OEM_PERIOD {
        Some(keys::DOT)
    } else if vk == VK_OEM_COMMA {
        Some(keys::COMMA)
    } else if vk == VK_OEM_1 {
        Some(keys::SEMICOLON)
    } else if vk == VK_OEM_7 {
        Some(keys::QUOTE)
    } else if vk == VK_OEM_4 {
        Some(keys::LBRACKET)
    } else if vk == VK_OEM_6 {
        Some(keys::RBRACKET)
    } else if vk == VK_OEM_5 {
        Some(keys::BACKSLASH)
    } else if vk == VK_OEM_MINUS {
        Some(keys::MINUS)
    } else if vk == VK_OEM_PLUS {
        Some(keys::EQUAL)
    } else if vk == VK_OEM_3 {
        Some(keys::BACKQUOTE)
    } else if vk == VK_OEM_2 {
        Some(keys::SLASH)
    } else {
        None
    }
}

/// Maps a virtual-key code to the engine's abstract key code.
///
/// The result depends on the key alone, so two calls on one key agree; a key
/// outside the covered set is unmapped.
pub fn map_vk_to_core(vk: u16) -> (core_key: Option<u16>)
    ensures
        core_key == classify(vk),
        core_key is Some <==> covered(vk),
{
    match vk {
        VK_A => Some(keys::A),
        VK_S => Some(keys::S),
        VK_D => Some(keys::D),
        VK_F => Some(keys::F),
        VK_H => Some(keys::H),
        VK_G => Some(keys::G),
        VK_Z => Some(keys::Z),
        VK_X => Some(keys::X),
        VK_C => Some(keys::C),
        VK_V => Some(keys::V),
        VK_B => Some(keys::B),
        VK_Q => Some(keys::Q),
        VK_W => Some(keys::W),
        VK_E => Some(keys::E),
        VK_R => Some(keys::R),
        VK_Y => Some(keys::Y),
        VK_T => Some(keys::T),
        VK_O => Some(keys::O),
        VK_U => Some(keys::U),
        VK_I => Some(keys::I),
        VK_P => Some(keys::P),
        VK_L => Some(keys::L),
        VK_J => Some(keys::J),
        VK_K => Some(keys::K),
        VK_N => Some(keys::N),
        VK_M => Some(keys::M),
        VK_2 => Some(keys::N2),
        VK_3 => Some(keys::N3),
        VK_4 => Some(keys::N4),
        VK_5 => Some(keys::N5),
        VK_6 => Some(keys::N6),
        VK_7 => Some(keys::N7),
        VK_8 => Some(keys::N8),
        VK_9 => Some(keys::N9),
        VK_0 => Some(keys::N0),
        VK_SPACE => Some(keys::SPACE),
        VK_RETURN => Some(keys::RETURN),
        VK_BACK => Some(keys::DELETE),
        VK_ESCAPE => Some(keys::ESC),
        VK_TAB => Some(keys::TAB),
        VK_LEFT => Some(keys::LEFT),
        VK_RIGHT => Some(keys::RIGHT),
        VK_UP => Some(keys::UP),
        VK_DOWN => Some(keys::DOWN),
        VK_OEM_PERIOD => Some(keys::DOT),
        VK_OEM_COMMA => Some(keys::COMMA),
        VK_OEM_1 => Some(keys::SEMICOLON),
        VK_OEM_7 => Some(keys::QUOTE),
        VK_OEM_4 => Some(keys::LBRACKET),
        VK_OEM_6 => Some(keys::RBRACKET),
        VK_OEM_5 => Some(keys::BACKSLASH),
        VK_OEM_MINUS => Some(keys::MINUS),
        VK_OEM_PLUS => Some(keys::EQUAL),
        VK_OEM_3 => Some(keys::BACKQUOTE),
        VK_OEM_2 => Some(keys::SLASH),
        _ => None,
    }
}

/// Classification is total on the covered set and empty outside it.
pub proof fn classify_covers(vk: u16)
    ensures
        classify(vk) is Some <==> covered(vk),
{
}

/// No two physical keys share an abstract key.
pub proof fn classify_injective(a: u16, b: u16)
    requires
        classify(a) is Some,
        classify(a) == classify(b),
    ensures
        a == b,
{
}

} // verus!
