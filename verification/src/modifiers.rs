//! The modifier keys that are held down.

use vstd::prelude::*;

verus! {

/// Which modifier keys are held down.
#[derive(Clone, Copy, Debug, PartialEq, Eq, Structural)]
pub struct ModifiersState {
    pub ctrl: bool,
    pub alt: bool,
    pub shift: bool,
    pub logo: bool,
}

/// The bit for the shift key in the window system's flags.
pub const SHIFT: u32 = 0x4;

/// The bit for the control key.
pub const CONTROL: u32 = 0x20;

/// The bit for the alt key.
pub const ALT: u32 = 0x100;

/// The bit for the logo key.
pub const SUPER: u32 = 0x800;

/// The modifiers that a set of flags stands for.
pub open spec fn modifiers_in(bits: u32) -> ModifiersState {
    ModifiersState {
        ctrl: bits & CONTROL != 0,
        alt: bits & ALT != 0,
        shift: bits & SHIFT != 0,
        logo: bits & SUPER != 0,
    }
}

/// Calls `ModifiersState::control_key` of `winit` on the flags with these bits:
/// it holds where the bit for the control key is set.
#[verifier::external_body]
fn control_key(bits: u32) -> (held: bool)
    ensures
        held == (bits & CONTROL != 0),
{
    winit::keyboard::ModifiersState::from_bits_truncate(bits).control_key()
}

/// Calls `ModifiersState::alt_key` of `winit` on the flags with these bits: it
/// holds where the bit for the alt key is set.
#[verifier::external_body]
fn alt_key(bits: u32) -> (held: bool)
    ensures
        held == (bits & ALT != 0),
{
    winit::keyboard::ModifiersState::from_bits_truncate(bits).alt_key()
}

/// Calls `ModifiersState::shift_key` of `winit` on the flags with these bits: it
/// holds where the bit for the shift key is set.
#[verifier::external_body]
fn shift_key(bits: u32) -> (held: bool)
    ensures
        held == (bits & SHIFT != 0),
{
    winit::keyboard::ModifiersState::from_bits_truncate(bits).shift_key()
}

/// Calls `ModifiersState::super_key` of `winit` on the flags with these bits: it
/// holds where the bit for the logo key is set.
#[verifier::external_body]
fn super_key(bits: u32) -> (held: bool)
    ensures
        held == (bits & SUPER != 0),
{
    winit::keyboard::ModifiersState::from_bits_truncate(bits).super_key()
}

impl ModifiersState {
    /// The modifiers that the window system's flags, given by their bits, stand
    /// for.
    pub fn from_bits(bits: u32) -> (state: ModifiersState)
        ensures
            state == modifiers_in(bits),
    {
        ModifiersState {
            ctrl: control_key(bits),
            alt: alt_key(bits),
            shift: shift_key(bits),
            logo: super_key(bits),
        }
    }
}

/// Each modifier key has a bit of its own, and no other bit has a bearing on it.
pub proof fn law_bit_of_each_modifier(bits: u32)
    ensures
        modifiers_in(bits).shift <==> bits & 0x4 != 0,
        modifiers_in(bits).ctrl <==> bits & 0x20 != 0,
        modifiers_in(bits).alt <==> bits & 0x100 != 0,
        modifiers_in(bits).logo <==> bits & 0x800 != 0,
{
}

} // verus!
