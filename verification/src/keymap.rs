//! RDP XT scancode to evdev keycode mapping.
//!
//! RDP clients send XT Set 1 scancodes (8-bit) together with an
//! `extended` flag for keys that carry the `0xE0` prefix on the wire.
//! These are translated to Linux evdev keycodes before injection.

use vstd::prelude::*;

verus! {

/// The standard (non-extended) XT scancode table as a mathematical map.
///
/// For most standard keys the evdev keycode is the XT scancode plus 8.
pub open spec fn spec_standard_scancode(code: u8) -> Option<u16> {
    match code {
        0x01 => Some(9u16),
        0x02 => Some(10u16),
        0x03 => Some(11u16),
        0x04 => Some(12u16),
        0x05 => Some(13u16),
        0x06 => Some(14u16),
        0x07 => Some(15u16),
        0x08 => Some(16u16),
        0x09 => Some(17u16),
        0x0A => Some(18u16),
        0x0B => Some(19u16),
        0x0C => Some(20u16),
        0x0D => Some(21u16),
        0x0E => Some(22u16),
        0x0F => Some(23u16),
        0x10 => Some(24u16),
        0x11 => Some(25u16),
        0x12 => Some(26u16),
        0x13 => Some(27u16),
        0x14 => Some(28u16),
        0x15 => Some(29u16),
        0x16 => Some(30u16),
        0x17 => Some(31u16),
        0x18 => Some(32u16),
        0x19 => Some(33u16),
        0x1A => Some(34u16),
        0x1B => Some(35u16),
        0x1C => Some(36u16),
        0x1D => Some(37u16),
        0x1E => Some(38u16),
        0x1F => Some(39u16),
        0x20 => Some(40u16),
        0x21 => Some(41u16),
        0x22 => Some(42u16),
        0x23 => Some(43u16),
        0x24 => Some(44u16),
        0x25 => Some(45u16),
        0x26 => Some(46u16),
        0x27 => Some(47u16),
        0x28 => Some(48u16),
        0x29 => Some(49u16),
        0x2A => Some(50u16),
        0x2B => Some(51u16),
        0x2C => Some(52u16),
        0x2D => Some(53u16),
        0x2E => Some(54u16),
        0x2F => Some(55u16),
        0x30 => Some(56u16),
        0x31 => Some(57u16),
        0x32 => Some(58u16),
        0x33 => Some(59u16),
        0x34 => Some(60u16),
        0x35 => Some(61u16),
        0x36 => Some(62u16),
        0x37 => Some(63u16),
        0x38 => Some(64u16),
        0x39 => Some(65u16),
        0x3A => Some(66u16),
        0x3B => Some(67u16),
        0x3C => Some(68u16),
        0x3D => Some(69u16),
        0x3E => Some(70u16),
        0x3F => Some(71u16),
        0x40 => Some(72u16),
        0x41 => Some(73u16),
        0x42 => Some(74u16),
        0x43 => Some(75u16),
        0x44 => Some(76u16),
        0x45 => Some(77u16),
        0x46 => Some(78u16),
        0x47 => Some(79u16),
        0x48 => Some(80u16),
        0x49 => Some(81u16),
        0x4A => Some(82u16),
        0x4B => Some(83u16),
        0x4C => Some(84u16),
        0x4D => Some(85u16),
        0x4E => Some(86u16),
        0x4F => Some(87u16),
        0x50 => Some(88u16),
        0x51 => Some(89u16),
        0x52 => Some(90u16),
        0x53 => Some(91u16),
        0x56 => Some(94u16),
        0x57 => Some(95u16),
        0x58 => Some(96u16),
        _ => None,
    }
}

/// The extended (`0xE0`-prefixed) XT scancode table as a mathematical map.
pub open spec fn spec_extended_scancode(code: u8) -> Option<u16> {
    match code {
        0x1C => Some(104u16),
        0x1D => Some(105u16),
        0x35 => Some(106u16),
        0x37 => Some(107u16),
        0x38 => Some(108u16),
        0x46 => Some(127u16),
        0x47 => Some(110u16),
        0x48 => Some(111u16),
        0x49 => Some(112u16),
        0x4B => Some(113u16),
        0x4D => Some(114u16),
        0x4F => Some(115u16),
        0x50 => Some(116u16),
        0x51 => Some(117u16),
        0x52 => Some(118u16),
        0x53 => Some(119u16),
        0x5B => Some(133u16),
        0x5C => Some(134u16),
        0x5D => Some(135u16),
        _ => None,
    }
}

/// The complete scancode mapping: one function of the scancode and the
/// extended flag.
pub open spec fn spec_scancode(code: u8, extended: bool) -> Option<u16> {
    if extended {
        spec_extended_scancode(code)
    } else {
        spec_standard_scancode(code)
    }
}

/// Map standard (non-extended) XT scancodes to evdev keycodes.
pub fn standard_scancode_to_evdev(code: u8) -> (r: Option<u16>)
    ensures
        r == spec_standard_scancode(code),
{
    let evdev: u16 = match code {
        0x01 => 9,
        0x02 => 10,
        0x03 => 11,
        0x04 => 12,
        0x05 => 13,
        0x06 => 14,
        0x07 => 15,
        0x08 => 16,
        0x09 => 17,
        0x0A => 18,
        0x0B => 19,
        0x0C => 20,
        0x0D => 21,
        0x0E => 22,
        0x0F => 23,
        0x10 => 24,
        0x11 => 25,
        0x12 => 26,
        0x13 => 27,
        0x14 => 28,
        0x15 => 29,
        0x16 => 30,
        0x17 => 31,
        0x18 => 32,
        0x19 => 33,
        0x1A => 34,
        0x1B => 35,
        0x1C => 36,
        0x1D => 37,
        0x1E => 38,
        0x1F => 39,
        0x20 => 40,
        0x21 => 41,
        0x22 => 42,
        0x23 => 43,
        0x24 => 44,
        0x25 => 45,
        0x26 => 46,
        0x27 => 47,
        0x28 => 48,
        0x29 => 49,
        0x2A => 50,
        0x2B => 51,
        0x2C => 52,
        0x2D => 53,
        0x2E => 54,
        0x2F => 55,
        0x30 => 56,
        0x31 => 57,
        0x32 => 58,
        0x33 => 59,
        0x34 => 60,
        0x35 => 61,
        0x36 => 62,
        0x37 => 63,
        0x38 => 64,
        0x39 => 65,
        0x3A => 66,
        0x3B => 67,
        0x3C => 68,
        0x3D => 69,
        0x3E => 70,
        0x3F => 71,
        0x40 => 72,
        0x41 => 73,
        0x42 => 74,
        0x43 => 75,
        0x44 => 76,
        0x45 => 77,
        0x46 => 78,
        0x47 => 79,
        0x48 => 80,
        0x49 => 81,
        0x4A => 82,
        0x4B => 83,
        0x4C => 84,
        0x4D => 85,
        0x4E => 86,
        0x4F => 87,
        0x50 => 88,
        0x51 => 89,
        0x52 => 90,
        0x53 => 91,
        0x56 => 94,
        0x57 => 95,
        0x58 => 96,
        _ => {
            return None;
        },
    };
    Some(evdev)
}

/// Map extended (`0xE0`-prefixed) XT scancodes to evdev keycodes.
///
/// Extended keys cover the navigation cluster, arrow keys, right-side
/// modifiers and the Super/Menu keys.
pub fn extended_scancode_to_evdev(code: u8) -> (r: Option<u16>)
    ensures
        r == spec_extended_scancode(code),
{
    let evdev: u16 = match code {
        0x1C => 104,
        0x1D => 105,
        0x35 => 106,
        0x37 => 107,
        0x38 => 108,
        0x46 => 127,
        0x47 => 110,
        0x48 => 111,
        0x49 => 112,
        0x4B => 113,
        0x4D => 114,
        0x4F => 115,
        0x50 => 116,
        0x51 => 117,
        0x52 => 118,
        0x53 => 119,
        0x5B => 133,
        0x5C => 134,
        0x5D => 135,
        _ => {
            return None;
        },
    };
    Some(evdev)
}

/// Convert an RDP XT scancode to a Linux evdev keycode.
///
/// Returns the evdev keycode, or `None` if the scancode is unmapped.
pub fn rdp_scancode_to_evdev(code: u8, extended: bool) -> (r: Option<u16>)
    ensures
        r == spec_scancode(code, extended),
{
    if extended {
        extended_scancode_to_evdev(code)
    } else {
        standard_scancode_to_evdev(code)
    }
}

/// Map a Unicode codepoint to its equivalent RDP XT scancode.
///
/// Some RDP clients send control keys as Unicode character events
/// instead of scancodes; the common control characters are mapped back
/// to their XT scancode and extended flag so they can be injected
/// through the normal keycode path.  Returns `(code, extended)` or
/// `None` if the codepoint has no scancode equivalent.
pub fn unicode_to_scancode(codepoint: u16) -> (r: Option<(u8, bool)>)
    ensures
        codepoint == 0x0008 ==> r == Some((0x0Eu8, false)),
        codepoint == 0x0009 ==> r == Some((0x0Fu8, false)),
        codepoint == 0x000D ==> r == Some((0x1Cu8, false)),
        codepoint == 0x001B ==> r == Some((0x01u8, false)),
        codepoint == 0x007F ==> r == Some((0x53u8, true)),
        codepoint != 0x0008 && codepoint != 0x0009 && codepoint != 0x000D
            && codepoint != 0x001B && codepoint != 0x007F ==> r is None,
{
    match codepoint {
        0x0008 => Some((0x0E, false)),
        0x0009 => Some((0x0F, false)),
        0x000D => Some((0x1C, false)),
        0x001B => Some((0x01, false)),
        0x007F => Some((0x53, true)),
        _ => None,
    }
}

} // verus!
