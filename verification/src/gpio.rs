//! Bit-field values for the two GPIO port registers the firmware writes.
//!
//! The LED sits on port 19, pin 0. Its drive mode lives in the port's
//! 32-bit configuration register, field `DRIVE_MODE0` in bits 0..=2, whose
//! reset value is 0; the pin's output level is driven through bit 0
//! (`OUT0`) of the port's 32-bit output-invert register, also 0 at reset.
//! A register write here starts from the reset value and replaces only the
//! named field, so every other field keeps its reset value.

use vstd::prelude::*;

verus! {

/// The vendor encoding of the "strong" (push-pull) drive mode: both the
/// high- and the low-side output drivers active.
pub const DRIVE_MODE_STRONG: u8 = 6;

/// Reset value of a port configuration register.
pub const CFG_RESET: u32 = 0;

/// Reset value of a port output-invert register.
pub const OUT_INV_RESET: u32 = 0;

/// The drive-mode field of pin 0: bits 0..=2 of the configuration register.
pub open spec fn spec_drive_mode0(reg: u32) -> u32 {
    reg & 0x7
}

/// A configuration-register value with everything outside the pin-0
/// drive-mode field cleared away, for stating that those bits are kept.
pub open spec fn spec_cfg_rest(reg: u32) -> u32 {
    reg & 0xffff_fff8
}

/// A field write of `DRIVE_MODE0`: replaces bits 0..=2 of `base` with
/// `mode` and leaves every other bit as it was.
pub fn cfg_with_drive_mode0(base: u32, mode: u8) -> (r: u32)
    requires
        mode < 8,
    ensures
        spec_drive_mode0(r) == mode,
        spec_cfg_rest(r) == spec_cfg_rest(base),
{
    let wide: u32 = mode as u32;
    let r: u32 = (base & 0xffff_fff8) | wide;
    proof {
        assert(((base & 0xffff_fff8) | wide) & 0x7 == wide && ((base & 0xffff_fff8) | wide)
            & 0xffff_fff8 == base & 0xffff_fff8) by (bit_vector)
            requires
                wide < 8,
        ;
    }
    r
}

/// The configuration-register value the firmware installs for the LED
/// port: the pin-0 drive-mode field holds the strong push-pull encoding,
/// and every other field keeps its reset value.
pub fn led_cfg_value() -> (r: u32)
    ensures
        spec_drive_mode0(r) == DRIVE_MODE_STRONG,
        spec_cfg_rest(r) == spec_cfg_rest(CFG_RESET),
{
    cfg_with_drive_mode0(CFG_RESET, DRIVE_MODE_STRONG)
}

/// Whether an output-invert register value drives pin 0 high.
pub open spec fn spec_out0(reg: u32) -> bool {
    reg & 0x1 == 0x1
}

/// An output-invert register value with pin 0's bit cleared away, for
/// stating that the other pins' bits are kept at reset.
pub open spec fn spec_out_inv_rest(reg: u32) -> u32 {
    reg & 0xffff_fffe
}

/// The output-invert register value that sets pin 0's output level to
/// `level` and leaves every other pin's bit at its reset value.
pub fn out_inv_value(level: bool) -> (r: u32)
    ensures
        spec_out0(r) == level,
        spec_out_inv_rest(r) == spec_out_inv_rest(OUT_INV_RESET),
{
    let r: u32 = if level {
        1
    } else {
        0
    };
    proof {
        assert(1u32 & 0x1 == 0x1 && 0u32 & 0x1 == 0u32 && 1u32 & 0xffff_fffe == 0u32
            & 0xffff_fffe) by (bit_vector);
    }
    r
}

} // verus!
