//! The lookup service: symbolic event names resolved to numeric codes.
//!
//! Tokens may be written either as decimal integers or as the symbolic
//! names below, which cover the synchronization, key, relative and
//! absolute event families most often seen in input-event dumps.  Code
//! resolution is aware of the event type, and value resolution of the
//! type and code, because different types give the same token different
//! meanings.

use vstd::prelude::*;
use crate::text::{bytes_eq, dec_val, parse_dec, valid_dec};

verus! {

// Numeric event types of the Linux input interface.
pub const EV_SYN: u16 = 0;
pub const EV_KEY: u16 = 1;
pub const EV_REL: u16 = 2;
pub const EV_ABS: u16 = 3;
pub const EV_MSC: u16 = 4;
pub const EV_SW: u16 = 5;
pub const EV_LED: u16 = 17;
pub const EV_SND: u16 = 18;
pub const EV_REP: u16 = 20;
pub const EV_FF: u16 = 21;
pub const EV_PWR: u16 = 22;
pub const EV_FF_STATUS: u16 = 23;

// Numeric synchronization codes of the Linux input interface.
pub const SYN_REPORT: u16 = 0;
pub const SYN_CONFIG: u16 = 1;
pub const SYN_MT_REPORT: u16 = 2;
pub const SYN_DROPPED: u16 = 3;

// Numeric key and button codes of the Linux input interface.
pub const KEY_VOLUMEDOWN: u16 = 114;
pub const KEY_VOLUMEUP: u16 = 115;
pub const KEY_POWER: u16 = 116;
pub const BTN_LEFT: u16 = 272;
pub const BTN_RIGHT: u16 = 273;
pub const BTN_MIDDLE: u16 = 274;
pub const BTN_TOUCH: u16 = 330;

// Numeric relative-axis codes of the Linux input interface.
pub const REL_X: u16 = 0;
pub const REL_Y: u16 = 1;
pub const REL_WHEEL: u16 = 8;

// Numeric absolute-axis codes of the Linux input interface.
pub const ABS_X: u16 = 0;
pub const ABS_Y: u16 = 1;
pub const ABS_MT_SLOT: u16 = 47;
pub const ABS_MT_TOUCH_MAJOR: u16 = 48;
pub const ABS_MT_POSITION_X: u16 = 53;
pub const ABS_MT_POSITION_Y: u16 = 54;
pub const ABS_MT_TRACKING_ID: u16 = 57;

/// The numeric event type a symbolic type token names, if any.
pub open spec fn spec_type_sym(t: Seq<u8>) -> Option<u16> {
    if t == seq!['E' as u8, 'V' as u8, '_' as u8, 'S' as u8, 'Y' as u8, 'N' as u8] {
        Some(EV_SYN)
    } else if t == seq!['E' as u8, 'V' as u8, '_' as u8, 'K' as u8, 'E' as u8, 'Y' as u8] {
        Some(EV_KEY)
    } else if t == seq!['E' as u8, 'V' as u8, '_' as u8, 'R' as u8, 'E' as u8, 'L' as u8] {
        Some(EV_REL)
    } else if t == seq!['E' as u8, 'V' as u8, '_' as u8, 'A' as u8, 'B' as u8, 'S' as u8] {
        Some(EV_ABS)
    } else if t == seq!['E' as u8, 'V' as u8, '_' as u8, 'M' as u8, 'S' as u8, 'C' as u8] {
        Some(EV_MSC)
    } else if t == seq!['E' as u8, 'V' as u8, '_' as u8, 'S' as u8, 'W' as u8] {
        Some(EV_SW)
    } else if t == seq!['E' as u8, 'V' as u8, '_' as u8, 'L' as u8, 'E' as u8, 'D' as u8] {
        Some(EV_LED)
    } else if t == seq!['E' as u8, 'V' as u8, '_' as u8, 'S' as u8, 'N' as u8, 'D' as u8] {
        Some(EV_SND)
    } else if t == seq!['E' as u8, 'V' as u8, '_' as u8, 'R' as u8, 'E' as u8, 'P' as u8] {
        Some(EV_REP)
    } else if t == seq!['E' as u8, 'V' as u8, '_' as u8, 'F' as u8, 'F' as u8] {
        Some(EV_FF)
    } else if t == seq!['E' as u8, 'V' as u8, '_' as u8, 'P' as u8, 'W' as u8, 'R' as u8] {
        Some(EV_PWR)
    } else if t == seq![
        'E' as u8, 'V' as u8, '_' as u8, 'F' as u8, 'F' as u8, '_' as u8, 'S' as u8,
        'T' as u8, 'A' as u8, 'T' as u8, 'U' as u8, 'S' as u8,
    ] {
        Some(EV_FF_STATUS)
    } else {
        None
    }
}

/// Resolves a symbolic type token.
pub fn type_sym(tok: &[u8]) -> (r: Option<u16>)
    ensures
        r == spec_type_sym(tok@),
{
    let p: [u8; 6] = ['E' as u8, 'V' as u8, '_' as u8, 'S' as u8, 'Y' as u8, 'N' as u8];
    proof {
        assert(p@ =~= seq![
        'E' as u8, 'V' as u8, '_' as u8, 'S' as u8, 'Y' as u8, 'N' as u8,
        ]);
    }
    if bytes_eq(tok, p.as_slice()) {
        return Some(EV_SYN);
    }
    let p: [u8; 6] = ['E' as u8, 'V' as u8, '_' as u8, 'K' as u8, 'E' as u8, 'Y' as u8];
    proof {
        assert(p@ =~= seq![
        'E' as u8, 'V' as u8, '_' as u8, 'K' as u8, 'E' as u8, 'Y' as u8,
        ]);
    }
    if bytes_eq(tok, p.as_slice()) {
        return Some(EV_KEY);
    }
    let p: [u8; 6] = ['E' as u8, 'V' as u8, '_' as u8, 'R' as u8, 'E' as u8, 'L' as u8];
    proof {
        assert(p@ =~= seq![
        'E' as u8, 'V' as u8, '_' as u8, 'R' as u8, 'E' as u8, 'L' as u8,
        ]);
    }
    if bytes_eq(tok, p.as_slice()) {
        return Some(EV_REL);
    }
    let p: [u8; 6] = ['E' as u8, 'V' as u8, '_' as u8, 'A' as u8, 'B' as u8, 'S' as u8];
    proof {
        assert(p@ =~= seq![
        'E' as u8, 'V' as u8, '_' as u8, 'A' as u8, 'B' as u8, 'S' as u8,
        ]);
    }
    if bytes_eq(tok, p.as_slice()) {
        return Some(EV_ABS);
    }
    let p: [u8; 6] = ['E' as u8, 'V' as u8, '_' as u8, 'M' as u8, 'S' as u8, 'C' as u8];
    proof {
        assert(p@ =~= seq![
        'E' as u8, 'V' as u8, '_' as u8, 'M' as u8, 'S' as u8, 'C' as u8,
        ]);
    }
    if bytes_eq(tok, p.as_slice()) {
        return Some(EV_MSC);
    }
    let p: [u8; 5] = ['E' as u8, 'V' as u8, '_' as u8, 'S' as u8, 'W' as u8];
    proof {
        assert(p@ =~= seq![
        'E' as u8, 'V' as u8, '_' as u8, 'S' as u8, 'W' as u8,
        ]);
    }
    if bytes_eq(tok, p.as_slice()) {
        return Some(EV_SW);
    }
    let p: [u8; 6] = ['E' as u8, 'V' as u8, '_' as u8, 'L' as u8, 'E' as u8, 'D' as u8];
    proof {
        assert(p@ =~= seq![
        'E' as u8, 'V' as u8, '_' as u8, 'L' as u8, 'E' as u8, 'D' as u8,
        ]);
    }
    if bytes_eq(tok, p.as_slice()) {
        return Some(EV_LED);
    }
    let p: [u8; 6] = ['E' as u8, 'V' as u8, '_' as u8, 'S' as u8, 'N' as u8, 'D' as u8];
    proof {
        assert(p@ =~= seq![
        'E' as u8, 'V' as u8, '_' as u8, 'S' as u8, 'N' as u8, 'D' as u8,
        ]);
    }
    if bytes_eq(tok, p.as_slice()) {
        return Some(EV_SND);
    }
    let p: [u8; 6] = ['E' as u8, 'V' as u8, '_' as u8, 'R' as u8, 'E' as u8, 'P' as u8];
    proof {
        assert(p@ =~= seq![
        'E' as u8, 'V' as u8, '_' as u8, 'R' as u8, 'E' as u8, 'P' as u8,
        ]);
    }
    if bytes_eq(tok, p.as_slice()) {
        return Some(EV_REP);
    }
    let p: [u8; 5] = ['E' as u8, 'V' as u8, '_' as u8, 'F' as u8, 'F' as u8];
    proof {
        assert(p@ =~= seq![
        'E' as u8, 'V' as u8, '_' as u8, 'F' as u8, 'F' as u8,
        ]);
    }
    if bytes_eq(tok, p.as_slice()) {
        return Some(EV_FF);
    }
    let p: [u8; 6] = ['E' as u8, 'V' as u8, '_' as u8, 'P' as u8, 'W' as u8, 'R' as u8];
    proof {
        assert(p@ =~= seq![
        'E' as u8, 'V' as u8, '_' as u8, 'P' as u8, 'W' as u8, 'R' as u8,
        ]);
    }
    if bytes_eq(tok, p.as_slice()) {
        return Some(EV_PWR);
    }
    let p: [u8; 12] = [
        'E' as u8, 'V' as u8, '_' as u8, 'F' as u8, 'F' as u8, '_' as u8, 'S' as u8,
        'T' as u8, 'A' as u8, 'T' as u8, 'U' as u8, 'S' as u8,
    ];
    proof {
        assert(p@ =~= seq![
        'E' as u8, 'V' as u8, '_' as u8, 'F' as u8, 'F' as u8, '_' as u8, 'S' as u8,
        'T' as u8, 'A' as u8, 'T' as u8, 'U' as u8, 'S' as u8,
        ]);
    }
    if bytes_eq(tok, p.as_slice()) {
        return Some(EV_FF_STATUS);
    }
    None
}

/// Resolves a type token: a symbolic name, or a decimal number that
/// fits a 16-bit unsigned integer.
pub open spec fn spec_type_value(t: Seq<u8>) -> Option<u16> {
    if spec_type_sym(t) is Some {
        spec_type_sym(t)
    } else if valid_dec(t) && dec_val(t) <= u16::MAX {
        Some(dec_val(t) as u16)
    } else {
        None
    }
}

/// Resolves a type token, trying the symbol table first and a decimal
/// reading second.
pub fn get_type_value(tok: &[u8]) -> (r: Option<u16>)
    ensures
        r == spec_type_value(tok@),
{
    match type_sym(tok) {
        Some(v) => Some(v),
        None => match parse_dec(tok, 65535) {
            Some(v) => Some(v as u16),
            None => None,
        },
    }
}

/// The numeric code a symbolic code token names under event type `ty`,
/// if any: each type family has its own table.
pub open spec fn spec_code_sym(ty: u16, t: Seq<u8>) -> Option<u16> {
    if ty == EV_SYN {
        if t == seq!['S' as u8, 'Y' as u8, 'N' as u8, '_' as u8, 'R' as u8,
            'E' as u8, 'P' as u8, 'O' as u8, 'R' as u8, 'T' as u8] {
            Some(SYN_REPORT)
        } else if t == seq!['S' as u8, 'Y' as u8, 'N' as u8, '_' as u8, 'C' as u8,
            'O' as u8, 'N' as u8, 'F' as u8, 'I' as u8, 'G' as u8] {
            Some(SYN_CONFIG)
        } else if t == seq!['S' as u8, 'Y' as u8, 'N' as u8, '_' as u8, 'M' as u8, 'T' as u8, '_' as u8,
            'R' as u8, 'E' as u8, 'P' as u8, 'O' as u8, 'R' as u8, 'T' as u8] {
            Some(SYN_MT_REPORT)
        } else if t == seq!['S' as u8, 'Y' as u8, 'N' as u8, '_' as u8, 'D' as u8, 'R' as u8,
            'O' as u8, 'P' as u8, 'P' as u8, 'E' as u8, 'D' as u8] {
            Some(SYN_DROPPED)
        } else {
            None
        }
    } else if ty == EV_KEY {
        if t == seq!['K' as u8, 'E' as u8, 'Y' as u8, '_' as u8, 'V' as u8, 'O' as u8, 'L' as u8,
            'U' as u8, 'M' as u8, 'E' as u8, 'D' as u8, 'O' as u8, 'W' as u8, 'N' as u8] {
            Some(KEY_VOLUMEDOWN)
        } else if t == seq!['K' as u8, 'E' as u8, 'Y' as u8, '_' as u8, 'V' as u8, 'O' as u8,
            'L' as u8, 'U' as u8, 'M' as u8, 'E' as u8, 'U' as u8, 'P' as u8] {
            Some(KEY_VOLUMEUP)
        } else if t == seq!['K' as u8, 'E' as u8, 'Y' as u8, '_' as u8, 'P' as u8,
            'O' as u8, 'W' as u8, 'E' as u8, 'R' as u8] {
            Some(KEY_POWER)
        } else if t == seq!['B' as u8, 'T' as u8, 'N' as u8, '_' as u8,
            'L' as u8, 'E' as u8, 'F' as u8, 'T' as u8] {
            Some(BTN_LEFT)
        } else if t == seq!['B' as u8, 'T' as u8, 'N' as u8, '_' as u8, 'R' as u8,
            'I' as u8, 'G' as u8, 'H' as u8, 'T' as u8] {
            Some(BTN_RIGHT)
        } else if t == seq!['B' as u8, 'T' as u8, 'N' as u8, '_' as u8, 'M' as u8,
            'I' as u8, 'D' as u8, 'D' as u8, 'L' as u8, 'E' as u8] {
            Some(BTN_MIDDLE)
        } else if t == seq!['B' as u8, 'T' as u8, 'N' as u8, '_' as u8, 'T' as u8,
            'O' as u8, 'U' as u8, 'C' as u8, 'H' as u8] {
            Some(BTN_TOUCH)
        } else {
            None
        }
    } else if ty == EV_REL {
        if t == seq!['R' as u8, 'E' as u8, 'L' as u8, '_' as u8, 'X' as u8] {
            Some(REL_X)
        } else if t == seq!['R' as u8, 'E' as u8, 'L' as u8, '_' as u8, 'Y' as u8] {
            Some(REL_Y)
        } else if t == seq!['R' as u8, 'E' as u8, 'L' as u8, '_' as u8, 'W' as u8,
            'H' as u8, 'E' as u8, 'E' as u8, 'L' as u8] {
            Some(REL_WHEEL)
        } else {
            None
        }
    } else if ty == EV_ABS {
        if t == seq!['A' as u8, 'B' as u8, 'S' as u8, '_' as u8, 'X' as u8] {
            Some(ABS_X)
        } else if t == seq!['A' as u8, 'B' as u8, 'S' as u8, '_' as u8, 'Y' as u8] {
            Some(ABS_Y)
        } else if t == seq!['A' as u8, 'B' as u8, 'S' as u8, '_' as u8, 'M' as u8, 'T' as u8,
            '_' as u8, 'S' as u8, 'L' as u8, 'O' as u8, 'T' as u8] {
            Some(ABS_MT_SLOT)
        } else if t == seq!['A' as u8, 'B' as u8, 'S' as u8, '_' as u8, 'M' as u8, 'T' as u8, '_' as u8, 'T' as u8, 'O' as u8,
            'U' as u8, 'C' as u8, 'H' as u8, '_' as u8, 'M' as u8, 'A' as u8, 'J' as u8, 'O' as u8, 'R' as u8] {
            Some(ABS_MT_TOUCH_MAJOR)
        } else if t == seq!['A' as u8, 'B' as u8, 'S' as u8, '_' as u8, 'M' as u8, 'T' as u8, '_' as u8, 'P' as u8, 'O' as u8,
            'S' as u8, 'I' as u8, 'T' as u8, 'I' as u8, 'O' as u8, 'N' as u8, '_' as u8, 'X' as u8] {
            Some(ABS_MT_POSITION_X)
        } else if t == seq!['A' as u8, 'B' as u8, 'S' as u8, '_' as u8, 'M' as u8, 'T' as u8, '_' as u8, 'P' as u8, 'O' as u8,
            'S' as u8, 'I' as u8, 'T' as u8, 'I' as u8, 'O' as u8, 'N' as u8, '_' as u8, 'Y' as u8] {
            Some(ABS_MT_POSITION_Y)
        } else if t == seq!['A' as u8, 'B' as u8, 'S' as u8, '_' as u8, 'M' as u8, 'T' as u8, '_' as u8, 'T' as u8, 'R' as u8,
            'A' as u8, 'C' as u8, 'K' as u8, 'I' as u8, 'N' as u8, 'G' as u8, '_' as u8, 'I' as u8, 'D' as u8] {
            Some(ABS_MT_TRACKING_ID)
        } else {
            None
        }
    } else {
        None
    }
}

/// Resolves a symbolic code token under event type `ty`.
pub fn code_sym(ty: u16, tok: &[u8]) -> (r: Option<u16>)
    ensures
        r == spec_code_sym(ty, tok@),
{
    if ty == EV_SYN {
        let p: [u8; 10] = ['S' as u8, 'Y' as u8, 'N' as u8, '_' as u8, 'R' as u8,
            'E' as u8, 'P' as u8, 'O' as u8, 'R' as u8, 'T' as u8];
        proof {
            assert(p@ =~= seq!['S' as u8, 'Y' as u8, 'N' as u8, '_' as u8, 'R' as u8,
                'E' as u8, 'P' as u8, 'O' as u8, 'R' as u8, 'T' as u8]);
        }
        if bytes_eq(tok, p.as_slice()) {
            return Some(SYN_REPORT);
        }
        let p: [u8; 10] = ['S' as u8, 'Y' as u8, 'N' as u8, '_' as u8, 'C' as u8,
            'O' as u8, 'N' as u8, 'F' as u8, 'I' as u8, 'G' as u8];
        proof {
            assert(p@ =~= seq!['S' as u8, 'Y' as u8, 'N' as u8, '_' as u8, 'C' as u8,
                'O' as u8, 'N' as u8, 'F' as u8, 'I' as u8, 'G' as u8]);
        }
        if bytes_eq(tok, p.as_slice()) {
            return Some(SYN_CONFIG);
        }
        let p: [u8; 13] = ['S' as u8, 'Y' as u8, 'N' as u8, '_' as u8, 'M' as u8, 'T' as u8, '_' as u8,
            'R' as u8, 'E' as u8, 'P' as u8, 'O' as u8, 'R' as u8, 'T' as u8];
        proof {
            assert(p@ =~= seq!['S' as u8, 'Y' as u8, 'N' as u8, '_' as u8, 'M' as u8, 'T' as u8, '_' as u8,
                'R' as u8, 'E' as u8, 'P' as u8, 'O' as u8, 'R' as u8, 'T' as u8]);
        }
        if bytes_eq(tok, p.as_slice()) {
            return Some(SYN_MT_REPORT);
        }
        let p: [u8; 11] = ['S' as u8, 'Y' as u8, 'N' as u8, '_' as u8, 'D' as u8, 'R' as u8,
            'O' as u8, 'P' as u8, 'P' as u8, 'E' as u8, 'D' as u8];
        proof {
            assert(p@ =~= seq!['S' as u8, 'Y' as u8, 'N' as u8, '_' as u8, 'D' as u8, 'R' as u8,
                'O' as u8, 'P' as u8, 'P' as u8, 'E' as u8, 'D' as u8]);
        }
        if bytes_eq(tok, p.as_slice()) {
            return Some(SYN_DROPPED);
        }
    } else if ty == EV_KEY {
        let p: [u8; 14] = ['K' as u8, 'E' as u8, 'Y' as u8, '_' as u8, 'V' as u8, 'O' as u8, 'L' as u8,
            'U' as u8, 'M' as u8, 'E' as u8, 'D' as u8, 'O' as u8, 'W' as u8, 'N' as u8];
        proof {
            assert(p@ =~= seq!['K' as u8, 'E' as u8, 'Y' as u8, '_' as u8, 'V' as u8, 'O' as u8, 'L' as u8,
                'U' as u8, 'M' as u8, 'E' as u8, 'D' as u8, 'O' as u8, 'W' as u8, 'N' as u8]);
        }
        if bytes_eq(tok, p.as_slice()) {
            return Some(KEY_VOLUMEDOWN);
        }
        let p: [u8; 12] = ['K' as u8, 'E' as u8, 'Y' as u8, '_' as u8, 'V' as u8, 'O' as u8,
            'L' as u8, 'U' as u8, 'M' as u8, 'E' as u8, 'U' as u8, 'P' as u8];
        proof {
            assert(p@ =~= seq!['K' as u8, 'E' as u8, 'Y' as u8, '_' as u8, 'V' as u8, 'O' as u8,
                'L' as u8, 'U' as u8, 'M' as u8, 'E' as u8, 'U' as u8, 'P' as u8]);
        }
        if bytes_eq(tok, p.as_slice()) {
            return Some(KEY_VOLUMEUP);
        }
        let p: [u8; 9] = ['K' as u8, 'E' as u8, 'Y' as u8, '_' as u8, 'P' as u8,
            'O' as u8, 'W' as u8, 'E' as u8, 'R' as u8];
        proof {
            assert(p@ =~= seq!['K' as u8, 'E' as u8, 'Y' as u8, '_' as u8, 'P' as u8,
                'O' as u8, 'W' as u8, 'E' as u8, 'R' as u8]);
        }
        if bytes_eq(tok, p.as_slice()) {
            return Some(KEY_POWER);
        }
        let p: [u8; 8] = ['B' as u8, 'T' as u8, 'N' as u8, '_' as u8,
            'L' as u8, 'E' as u8, 'F' as u8, 'T' as u8];
        proof {
            assert(p@ =~= seq!['B' as u8, 'T' as u8, 'N' as u8, '_' as u8,
                'L' as u8, 'E' as u8, 'F' as u8, 'T' as u8]);
        }
        if bytes_eq(tok, p.as_slice()) {
            return Some(BTN_LEFT);
        }
        let p: [u8; 9] = ['B' as u8, 'T' as u8, 'N' as u8, '_' as u8, 'R' as u8,
            'I' as u8, 'G' as u8, 'H' as u8, 'T' as u8];
        proof {
            assert(p@ =~= seq!['B' as u8, 'T' as u8, 'N' as u8, '_' as u8, 'R' as u8,
                'I' as u8, 'G' as u8, 'H' as u8, 'T' as u8]);
        }
        if bytes_eq(tok, p.as_slice()) {
            return Some(BTN_RIGHT);
        }
        let p: [u8; 10] = ['B' as u8, 'T' as u8, 'N' as u8, '_' as u8, 'M' as u8,
            'I' as u8, 'D' as u8, 'D' as u8, 'L' as u8, 'E' as u8];
        proof {
            assert(p@ =~= seq!['B' as u8, 'T' as u8, 'N' as u8, '_' as u8, 'M' as u8,
                'I' as u8, 'D' as u8, 'D' as u8, 'L' as u8, 'E' as u8]);
        }
        if bytes_eq(tok, p.as_slice()) {
            return Some(BTN_MIDDLE);
        }
        let p: [u8; 9] = ['B' as u8, 'T' as u8, 'N' as u8, '_' as u8, 'T' as u8,
            'O' as u8, 'U' as u8, 'C' as u8, 'H' as u8];
        proof {
            assert(p@ =~= seq!['B' as u8, 'T' as u8, 'N' as u8, '_' as u8, 'T' as u8,
                'O' as u8, 'U' as u8, 'C' as u8, 'H' as u8]);
        }
        if bytes_eq(tok, p.as_slice()) {
            return Some(BTN_TOUCH);
        }
    } else if ty == EV_REL {
        let p: [u8; 5] = ['R' as u8, 'E' as u8, 'L' as u8, '_' as u8, 'X' as u8];
        proof {
            assert(p@ =~= seq!['R' as u8, 'E' as u8, 'L' as u8, '_' as u8, 'X' as u8]);
        }
        if bytes_eq(tok, p.as_slice()) {
            return Some(REL_X);
        }
        let p: [u8; 5] = ['R' as u8, 'E' as u8, 'L' as u8, '_' as u8, 'Y' as u8];
        proof {
            assert(p@ =~= seq!['R' as u8, 'E' as u8, 'L' as u8, '_' as u8, 'Y' as u8]);
        }
        if bytes_eq(tok, p.as_slice()) {
            return Some(REL_Y);
        }
        let p: [u8; 9] = ['R' as u8, 'E' as u8, 'L' as u8, '_' as u8, 'W' as u8,
            'H' as u8, 'E' as u8, 'E' as u8, 'L' as u8];
        proof {
            assert(p@ =~= seq!['R' as u8, 'E' as u8, 'L' as u8, '_' as u8, 'W' as u8,
                'H' as u8, 'E' as u8, 'E' as u8, 'L' as u8]);
        }
        if bytes_eq(tok, p.as_slice()) {
            return Some(REL_WHEEL);
        }
    } else if ty == EV_ABS {
        let p: [u8; 5] = ['A' as u8, 'B' as u8, 'S' as u8, '_' as u8, 'X' as u8];
        proof {
            assert(p@ =~= seq!['A' as u8, 'B' as u8, 'S' as u8, '_' as u8, 'X' as u8]);
        }
        if bytes_eq(tok, p.as_slice()) {
            return Some(ABS_X);
        }
        let p: [u8; 5] = ['A' as u8, 'B' as u8, 'S' as u8, '_' as u8, 'Y' as u8];
        proof {
            assert(p@ =~= seq!['A' as u8, 'B' as u8, 'S' as u8, '_' as u8, 'Y' as u8]);
        }
        if bytes_eq(tok, p.as_slice()) {
            return Some(ABS_Y);
        }
        let p: [u8; 11] = ['A' as u8, 'B' as u8, 'S' as u8, '_' as u8, 'M' as u8, 'T' as u8,
            '_' as u8, 'S' as u8, 'L' as u8, 'O' as u8, 'T' as u8];
        proof {
            assert(p@ =~= seq!['A' as u8, 'B' as u8, 'S' as u8, '_' as u8, 'M' as u8, 'T' as u8,
                '_' as u8, 'S' as u8, 'L' as u8, 'O' as u8, 'T' as u8]);
        }
        if bytes_eq(tok, p.as_slice()) {
            return Some(ABS_MT_SLOT);
        }
        let p: [u8; 18] = ['A' as u8, 'B' as u8, 'S' as u8, '_' as u8, 'M' as u8, 'T' as u8, '_' as u8, 'T' as u8, 'O' as u8,
            'U' as u8, 'C' as u8, 'H' as u8, '_' as u8, 'M' as u8, 'A' as u8, 'J' as u8, 'O' as u8, 'R' as u8];
        proof {
            assert(p@ =~= seq!['A' as u8, 'B' as u8, 'S' as u8, '_' as u8, 'M' as u8, 'T' as u8, '_' as u8, 'T' as u8, 'O' as u8,
                'U' as u8, 'C' as u8, 'H' as u8, '_' as u8, 'M' as u8, 'A' as u8, 'J' as u8, 'O' as u8, 'R' as u8]);
        }
        if bytes_eq(tok, p.as_slice()) {
            return Some(ABS_MT_TOUCH_MAJOR);
        }
        let p: [u8; 17] = ['A' as u8, 'B' as u8, 'S' as u8, '_' as u8, 'M' as u8, 'T' as u8, '_' as u8, 'P' as u8, 'O' as u8,
            'S' as u8, 'I' as u8, 'T' as u8, 'I' as u8, 'O' as u8, 'N' as u8, '_' as u8, 'X' as u8];
        proof {
            assert(p@ =~= seq!['A' as u8, 'B' as u8, 'S' as u8, '_' as u8, 'M' as u8, 'T' as u8, '_' as u8, 'P' as u8, 'O' as u8,
                'S' as u8, 'I' as u8, 'T' as u8, 'I' as u8, 'O' as u8, 'N' as u8, '_' as u8, 'X' as u8]);
        }
        if bytes_eq(tok, p.as_slice()) {
            return Some(ABS_MT_POSITION_X);
        }
        let p: [u8; 17] = ['A' as u8, 'B' as u8, 'S' as u8, '_' as u8, 'M' as u8, 'T' as u8, '_' as u8, 'P' as u8, 'O' as u8,
            'S' as u8, 'I' as u8, 'T' as u8, 'I' as u8, 'O' as u8, 'N' as u8, '_' as u8, 'Y' as u8];
        proof {
            assert(p@ =~= seq!['A' as u8, 'B' as u8, 'S' as u8, '_' as u8, 'M' as u8, 'T' as u8, '_' as u8, 'P' as u8, 'O' as u8,
                'S' as u8, 'I' as u8, 'T' as u8, 'I' as u8, 'O' as u8, 'N' as u8, '_' as u8, 'Y' as u8]);
        }
        if bytes_eq(tok, p.as_slice()) {
            return Some(ABS_MT_POSITION_Y);
        }
        let p: [u8; 18] = ['A' as u8, 'B' as u8, 'S' as u8, '_' as u8, 'M' as u8, 'T' as u8, '_' as u8, 'T' as u8, 'R' as u8,
            'A' as u8, 'C' as u8, 'K' as u8, 'I' as u8, 'N' as u8, 'G' as u8, '_' as u8, 'I' as u8, 'D' as u8];
        proof {
            assert(p@ =~= seq!['A' as u8, 'B' as u8, 'S' as u8, '_' as u8, 'M' as u8, 'T' as u8, '_' as u8, 'T' as u8, 'R' as u8,
                'A' as u8, 'C' as u8, 'K' as u8, 'I' as u8, 'N' as u8, 'G' as u8, '_' as u8, 'I' as u8, 'D' as u8]);
        }
        if bytes_eq(tok, p.as_slice()) {
            return Some(ABS_MT_TRACKING_ID);
        }
    }
    None
}

/// Resolves a code token under event type `ty`: a symbolic name from
/// the type's family, or a decimal number that fits a 16-bit unsigned
/// integer.
pub open spec fn spec_code_value(ty: u16, t: Seq<u8>) -> Option<u16> {
    if spec_code_sym(ty, t) is Some {
        spec_code_sym(ty, t)
    } else if valid_dec(t) && dec_val(t) <= u16::MAX {
        Some(dec_val(t) as u16)
    } else {
        None
    }
}

/// Resolves a code token under event type `ty`, trying the type's
/// symbol table first and a decimal reading second.
pub fn get_code_value(ty: u16, tok: &[u8]) -> (r: Option<u16>)
    ensures
        r == spec_code_value(ty, tok@),
{
    match code_sym(ty, tok) {
        Some(v) => Some(v),
        None => match parse_dec(tok, 65535) {
            Some(v) => Some(v as u16),
            None => None,
        },
    }
}

/// The numeric value a symbolic value token names under type `ty` and
/// code `code`, if any.  Key events admit the boolean-style tokens
/// `DOWN` and `UP`, whatever the key code; other families have no
/// value symbols.
pub open spec fn spec_value_sym(ty: u16, code: u16, t: Seq<u8>) -> Option<i32> {
    if ty == EV_KEY {
        if t == seq!['D' as u8, 'O' as u8, 'W' as u8, 'N' as u8] {
            Some(1)
        } else if t == seq!['U' as u8, 'P' as u8] {
            Some(0)
        } else {
            None
        }
    } else {
        None
    }
}

/// Resolves a symbolic value token under type `ty` and code `code`.
pub fn value_sym(ty: u16, code: u16, tok: &[u8]) -> (r: Option<i32>)
    ensures
        r == spec_value_sym(ty, code, tok@),
{
    if ty == EV_KEY {
        let p: [u8; 4] = ['D' as u8, 'O' as u8, 'W' as u8, 'N' as u8];
        proof {
            assert(p@ =~= seq!['D' as u8, 'O' as u8, 'W' as u8, 'N' as u8]);
        }
        if bytes_eq(tok, p.as_slice()) {
            return Some(1);
        }
        let q: [u8; 2] = ['U' as u8, 'P' as u8];
        proof {
            assert(q@ =~= seq!['U' as u8, 'P' as u8]);
        }
        if bytes_eq(tok, q.as_slice()) {
            return Some(0);
        }
    }
    None
}

/// Resolves a value token under type `ty` and code `code`: a symbolic
/// name, or a non-negative decimal number that fits a 32-bit signed
/// integer.
pub open spec fn spec_value_value(ty: u16, code: u16, t: Seq<u8>) -> Option<i32> {
    if spec_value_sym(ty, code, t) is Some {
        spec_value_sym(ty, code, t)
    } else if valid_dec(t) && dec_val(t) <= i32::MAX {
        Some(dec_val(t) as i32)
    } else {
        None
    }
}

/// Resolves a value token under type `ty` and code `code`, trying the
/// symbol table first and a decimal reading second.
pub fn get_value_value(ty: u16, code: u16, tok: &[u8]) -> (r: Option<i32>)
    ensures
        r == spec_value_value(ty, code, tok@),
{
    match value_sym(ty, code, tok) {
        Some(v) => Some(v),
        None => match parse_dec(tok, 2147483647) {
            Some(v) => Some(v as i32),
            None => None,
        },
    }
}

} // verus!
