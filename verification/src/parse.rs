//! Format detection and line parsing.
//!
//! The first line of a log decides, once and for all, whether lines
//! carry a `[sec.usec] ` timestamp prefix and whether they carry a
//! `device: ` name prefix; every later line is then read under that
//! fixed descriptor.  A line ends in three space-separated tokens —
//! type, code, value — each a decimal number or a symbolic name
//! resolved through the lookup tables.

use vstd::prelude::*;
use crate::codes::{get_code_value, get_type_value, get_value_value, spec_code_value,
    spec_type_value, spec_value_value};
use crate::error::{ErrKind, Error, FormatCause, NumField};
use crate::event::InputEvent;
use crate::text::{find_byte, find_byte_at, find_pair, find_pair_at, lemma_find_pair,
    parse_signed, skip_byte, skip_byte_at, skip_ws, skip_ws_at, spec_signed};
use crate::time::TimeVal;

verus! {

/// The format descriptor sniffed from the first line: whether lines
/// begin with a timestamp bracket, and whether a device name precedes
/// the event fields.  Derived once and never recomputed mid-stream.
#[derive(Debug, Clone, Copy, PartialEq, Eq, Structural)]
pub struct Options {
    pub get_time: bool,
    pub print_device: bool,
}

/// The view of an optional byte string.
pub open spec fn opt_view(d: Option<Vec<u8>>) -> Option<Seq<u8>> {
    match d {
        Some(v) => Some(v@),
        None => None,
    }
}

/// What format detection decides on the first line: timestamps are
/// present exactly when the line starts with `[`, and device names
/// exactly when the line — after the timestamp bracket, if any —
/// contains the separator `: `.  An empty line, or an opening bracket
/// that no `] ` closes, is a format failure.
pub open spec fn spec_options(line: Seq<u8>) -> Result<Options, ErrKind> {
    if line.len() == 0 {
        Err(ErrKind::Format(FormatCause::EmptyLine))
    } else if line[0] == '[' as u8 {
        let close = find_pair(line, 1, ']' as u8, ' ' as u8);
        if close == line.len() {
            Err(ErrKind::Format(FormatCause::MissingCloseBracket))
        } else {
            Ok(Options {
                get_time: true,
                print_device: find_pair(line, close + 2, ':' as u8, ' ' as u8) < line.len(),
            })
        }
    } else {
        Ok(Options {
            get_time: false,
            print_device: find_pair(line, 0, ':' as u8, ' ' as u8) < line.len(),
        })
    }
}

/// Derives the format descriptor from the first line of the stream.
pub fn get_options(line: &[u8]) -> (r: Result<Options, Error>)
    ensures
        match r {
            Ok(o) => spec_options(line@) == Ok::<Options, ErrKind>(o),
            Err(e) => spec_options(line@) == Err::<Options, ErrKind>(e.kind) && e.line@ == line@,
        },
{
    let n: usize = line.len();
    if n == 0 {
        return Err(Error::new(ErrKind::Format(FormatCause::EmptyLine), line));
    }
    if line[0] == '[' as u8 {
        let close = find_pair_at(line, 1, ']' as u8, ' ' as u8);
        if close == n {
            return Err(Error::new(ErrKind::Format(FormatCause::MissingCloseBracket), line));
        }
        proof {
            lemma_find_pair(line@, 1, ']' as u8, ' ' as u8);
        }
        let has_device = find_pair_at(line, close + 2, ':' as u8, ' ' as u8) < n;
        Ok(Options { get_time: true, print_device: has_device })
    } else {
        let has_device = find_pair_at(line, 0, ':' as u8, ' ' as u8) < n;
        Ok(Options { get_time: false, print_device: has_device })
    }
}

/// What parsing the timestamp prefix of a line yields under the
/// descriptor: the position where parsing resumes and the two
/// timestamp fields, zero when the format has no timestamps.  The
/// seconds field is trimmed of leading whitespace before reading;
/// both fields admit a sign.
pub open spec fn spec_parse_time(line: Seq<u8>, opts: Options) -> Result<(int, i64, i64), ErrKind> {
    if !opts.get_time {
        Ok((0, 0, 0))
    } else if line.len() == 0 {
        Err(ErrKind::Format(FormatCause::EmptyLine))
    } else if line[0] != '[' as u8 {
        Err(ErrKind::Format(FormatCause::MissingOpenBracket))
    } else {
        let close = find_pair(line, 1, ']' as u8, ' ' as u8);
        if close == line.len() {
            Err(ErrKind::Format(FormatCause::MissingCloseBracket))
        } else {
            let dot = find_byte(line, 1, close, '.' as u8);
            if dot == close {
                Err(ErrKind::Format(FormatCause::MissingDot))
            } else {
                let sec_tok = line.subrange(skip_ws(line, 1, dot), dot);
                let usec_tok = line.subrange(dot + 1, close);
                match spec_signed(sec_tok) {
                    None => Err(ErrKind::Num(NumField::Sec)),
                    Some(sec) => match spec_signed(usec_tok) {
                        None => Err(ErrKind::Num(NumField::Usec)),
                        Some(usec) => Ok((close + 2, sec as i64, usec as i64)),
                    },
                }
            }
        }
    }
}

/// What splitting the device name off at position `i` yields under the
/// descriptor: the position where parsing resumes and the name — the
/// text, possibly empty, before the first `: ` — or nothing when the
/// format has no device names.
pub open spec fn spec_parse_device(line: Seq<u8>, i: int, opts: Options) -> Result<
    (int, Option<Seq<u8>>),
    ErrKind,
>
    recommends
        0 <= i <= line.len(),
{
    if !opts.print_device {
        Ok((i, None))
    } else {
        let p = find_pair(line, i, ':' as u8, ' ' as u8);
        if p == line.len() {
            Err(ErrKind::Format(FormatCause::MissingDevice))
        } else {
            Ok((p + 2, Some(line.subrange(i, p))))
        }
    }
}

/// What the three event tokens from position `i` resolve to: the
/// remainder is split on single spaces, empty tokens are dropped, and
/// the first three tokens are read in order as type, code and value,
/// each resolved through the lookup tables under its context.  A
/// missing token is a format failure naming the field; a token that
/// resolves to nothing is a numeric failure naming the field.
pub open spec fn spec_parse_triple(line: Seq<u8>, i: int) -> Result<(u16, u16, i32), ErrKind>
    recommends
        0 <= i <= line.len(),
{
    let a1 = skip_byte(line, i, ' ' as u8);
    if a1 == line.len() {
        Err(ErrKind::Format(FormatCause::MissingType))
    } else {
        let b1 = find_byte(line, a1, line.len() as int, ' ' as u8);
        match spec_type_value(line.subrange(a1, b1)) {
            None => Err(ErrKind::Num(NumField::Type)),
            Some(ty) => {
                let a2 = skip_byte(line, b1, ' ' as u8);
                if a2 == line.len() {
                    Err(ErrKind::Format(FormatCause::MissingCode))
                } else {
                    let b2 = find_byte(line, a2, line.len() as int, ' ' as u8);
                    match spec_code_value(ty, line.subrange(a2, b2)) {
                        None => Err(ErrKind::Num(NumField::Code)),
                        Some(code) => {
                            let a3 = skip_byte(line, b2, ' ' as u8);
                            if a3 == line.len() {
                                Err(ErrKind::Format(FormatCause::MissingValue))
                            } else {
                                let b3 = find_byte(line, a3, line.len() as int, ' ' as u8);
                                match spec_value_value(ty, code, line.subrange(a3, b3)) {
                                    None => Err(ErrKind::Num(NumField::Value)),
                                    Some(value) => Ok((ty, code, value)),
                                }
                            }
                        },
                    }
                }
            },
        }
    }
}

/// What parsing one line yields under the descriptor: the optional
/// device name and the event record, or the first failure met reading
/// the line left to right.
pub open spec fn spec_parse_event(line: Seq<u8>, opts: Options) -> Result<
    (Option<Seq<u8>>, InputEvent),
    ErrKind,
> {
    match spec_parse_time(line, opts) {
        Err(k) => Err(k),
        Ok((i, sec, usec)) => match spec_parse_device(line, i, opts) {
            Err(k) => Err(k),
            Ok((j, dev)) => match spec_parse_triple(line, j) {
                Err(k) => Err(k),
                Ok((ty, code, value)) => Ok(
                    (dev, InputEvent { time: TimeVal { sec, usec }, type_: ty, code, value }),
                ),
            },
        },
    }
}

/// Parses one line under the fixed format descriptor.  Every failure
/// keeps the original, unmodified line for diagnostics.
pub fn parse_event(line: &[u8], options: &Options) -> (r: Result<
    (Option<Vec<u8>>, InputEvent),
    Error,
>)
    ensures
        match r {
            Ok((dev, ev)) => spec_parse_event(line@, *options) == Ok::<
                (Option<Seq<u8>>, InputEvent),
                ErrKind,
            >((opt_view(dev), ev)),
            Err(e) => spec_parse_event(line@, *options) == Err::<
                (Option<Seq<u8>>, InputEvent),
                ErrKind,
            >(e.kind) && e.line@ == line@,
        },
{
    let n: usize = line.len();
    let mut pos: usize = 0;
    let mut sec: i64 = 0;
    let mut usec: i64 = 0;
    if options.get_time {
        if n == 0 {
            return Err(Error::new(ErrKind::Format(FormatCause::EmptyLine), line));
        }
        if line[0] != '[' as u8 {
            return Err(Error::new(ErrKind::Format(FormatCause::MissingOpenBracket), line));
        }
        let close = find_pair_at(line, 1, ']' as u8, ' ' as u8);
        if close == n {
            return Err(Error::new(ErrKind::Format(FormatCause::MissingCloseBracket), line));
        }
        proof {
            lemma_find_pair(line@, 1, ']' as u8, ' ' as u8);
        }
        let dot = find_byte_at(line, 1, close, '.' as u8);
        if dot == close {
            return Err(Error::new(ErrKind::Format(FormatCause::MissingDot), line));
        }
        let ws = skip_ws_at(line, 1, dot);
        match parse_signed(&line[ws..dot]) {
            None => {
                return Err(Error::new(ErrKind::Num(NumField::Sec), line));
            },
            Some(v) => {
                sec = v;
            },
        }
        match parse_signed(&line[dot + 1..close]) {
            None => {
                return Err(Error::new(ErrKind::Num(NumField::Usec), line));
            },
            Some(v) => {
                usec = v;
            },
        }
        pos = close + 2;
    }
    let mut device: Option<Vec<u8>> = None;
    if options.print_device {
        let p = find_pair_at(line, pos, ':' as u8, ' ' as u8);
        if p == n {
            return Err(Error::new(ErrKind::Format(FormatCause::MissingDevice), line));
        }
        proof {
            lemma_find_pair(line@, pos as int, ':' as u8, ' ' as u8);
        }
        device = Some(vstd::slice::slice_to_vec(&line[pos..p]));
        pos = p + 2;
    }
    let a1 = skip_byte_at(line, pos, ' ' as u8);
    if a1 == n {
        return Err(Error::new(ErrKind::Format(FormatCause::MissingType), line));
    }
    let b1 = find_byte_at(line, a1, n, ' ' as u8);
    let ty = match get_type_value(&line[a1..b1]) {
        None => {
            return Err(Error::new(ErrKind::Num(NumField::Type), line));
        },
        Some(t) => t,
    };
    let a2 = skip_byte_at(line, b1, ' ' as u8);
    if a2 == n {
        return Err(Error::new(ErrKind::Format(FormatCause::MissingCode), line));
    }
    let b2 = find_byte_at(line, a2, n, ' ' as u8);
    let code = match get_code_value(ty, &line[a2..b2]) {
        None => {
            return Err(Error::new(ErrKind::Num(NumField::Code), line));
        },
        Some(c) => c,
    };
    let a3 = skip_byte_at(line, b2, ' ' as u8);
    if a3 == n {
        return Err(Error::new(ErrKind::Format(FormatCause::MissingValue), line));
    }
    let b3 = find_byte_at(line, a3, n, ' ' as u8);
    let value = match get_value_value(ty, code, &line[a3..b3]) {
        None => {
            return Err(Error::new(ErrKind::Num(NumField::Value), line));
        },
        Some(v) => v,
    };
    Ok((device, InputEvent { time: TimeVal { sec, usec }, type_: ty, code, value }))
}

} // verus!
