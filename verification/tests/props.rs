use sendevent::codes::{
    get_code_value, get_type_value, get_value_value, BTN_TOUCH, EV_ABS, EV_KEY, EV_SYN, SYN_REPORT,
};
use sendevent::engine::{AbortCause, Pace, Replayer, Step};
use sendevent::error::{ErrKind, Error, FormatCause, NumField};
use sendevent::event::InputEvent;
use sendevent::parse::{get_options, parse_event, Options};
use sendevent::stream::{parse_all, EventStream};
use sendevent::time::{Dur, TimeVal};

fn ev(sec: i64, usec: i64, type_: u16, code: u16, value: i32) -> InputEvent {
    InputEvent { time: TimeVal { sec, usec }, type_, code, value }
}

fn marker(sec: i64, usec: i64) -> InputEvent {
    ev(sec, usec, EV_SYN, SYN_REPORT, 0)
}

// Timestamp conversion: seconds carried over whole, microseconds
// scaled by 1000, exactly.
#[test]
fn duration_exact() {
    let d = TimeVal { sec: 5, usec: 999999 }.to_duration();
    assert_eq!(d.secs, 5);
    assert_eq!(d.nanos, 999999000);
    let d = TimeVal { sec: 0, usec: 1_500_000 }.to_duration();
    assert_eq!(d.secs, 1);
    assert_eq!(d.nanos, 500_000_000);
}

#[test]
fn duration_checked() {
    assert!(TimeVal { sec: -1, usec: 0 }.checked_duration().is_none());
    assert!(TimeVal { sec: 0, usec: -1 }.checked_duration().is_none());
    assert!(TimeVal { sec: 0, usec: 4_294_967 }.checked_duration().is_some());
    assert!(TimeVal { sec: 0, usec: 4_294_968 }.checked_duration().is_none());
}

// Pacing arithmetic clamps at zero and never goes negative.
#[test]
fn saturating_sub_clamps() {
    let a = Dur::new(0, 500_000_000);
    let b = Dur::new(0, 200_000_000);
    assert_eq!(a.saturating_sub(b), Dur::new(0, 300_000_000));
    assert_eq!(b.saturating_sub(a), Dur::new(0, 0));
    let c = Dur::new(2, 100);
    let d = Dur::new(1, 200_000_000);
    assert_eq!(c.saturating_sub(d), Dur::new(0, 800_000_100));
    assert_eq!(d.saturating_sub(d), Dur::new(0, 0));
}

// Format detection is decided by line 1 alone.
#[test]
fn detect_formats() {
    assert_eq!(
        get_options(b"[0.0] /dev/x: 0 0 0").unwrap(),
        Options { get_time: true, print_device: true }
    );
    assert_eq!(get_options(b"0 0 0").unwrap(), Options { get_time: false, print_device: false });
    assert_eq!(get_options(b": 0 0 0").unwrap(), Options { get_time: false, print_device: true });
    assert_eq!(
        get_options(b"[1.2] 3 4 5").unwrap(),
        Options { get_time: true, print_device: false }
    );
    let e = get_options(b"").unwrap_err();
    assert_eq!(e.kind, ErrKind::Format(FormatCause::EmptyLine));
    let e = get_options(b"[0.0").unwrap_err();
    assert_eq!(e.kind, ErrKind::Format(FormatCause::MissingCloseBracket));
}

// Encoding then decoding a record recovers every field exactly, at
// the boundaries of every field type.
#[test]
fn round_trip() {
    let cases = [
        ev(0, 0, 0, 0, 0),
        ev(i64::MAX, i64::MAX, u16::MAX, u16::MAX, i32::MAX),
        ev(i64::MIN, i64::MIN, 0, u16::MAX, i32::MIN),
        ev(1, -2, 3, 4, -5),
    ];
    for e in cases {
        let b = e.to_ne_bytes();
        assert_eq!(b.len(), 24);
        assert_eq!(InputEvent::from_ne_bytes(&b), e);
    }
}

// The record layout is the plain concatenation of the native-order
// field images.
#[test]
fn record_layout() {
    let e = ev(1, 2, 3, 4, 5);
    let mut expected = vec![];
    expected.extend_from_slice(&1i64.to_ne_bytes());
    expected.extend_from_slice(&2i64.to_ne_bytes());
    expected.extend_from_slice(&3u16.to_ne_bytes());
    expected.extend_from_slice(&4u16.to_ne_bytes());
    expected.extend_from_slice(&5i32.to_ne_bytes());
    assert_eq!(e.to_ne_bytes(), expected);
}

// Code and value resolution depend on their type and code context.
#[test]
fn lookup_context() {
    assert_eq!(get_type_value(b"EV_SYN"), Some(EV_SYN));
    assert_eq!(get_type_value(b"EV_ABS"), Some(EV_ABS));
    assert_eq!(get_type_value(b"3"), Some(3));
    assert_eq!(get_type_value(b"65535"), Some(65535));
    assert_eq!(get_type_value(b"65536"), None);
    assert_eq!(get_type_value(b"EV_NONE"), None);
    assert_eq!(get_code_value(EV_SYN, b"SYN_REPORT"), Some(SYN_REPORT));
    assert_eq!(get_code_value(EV_KEY, b"SYN_REPORT"), None);
    assert_eq!(get_code_value(EV_KEY, b"BTN_TOUCH"), Some(BTN_TOUCH));
    assert_eq!(get_code_value(EV_SYN, b"BTN_TOUCH"), None);
    assert_eq!(get_value_value(EV_KEY, BTN_TOUCH, b"DOWN"), Some(1));
    assert_eq!(get_value_value(EV_KEY, BTN_TOUCH, b"UP"), Some(0));
    assert_eq!(get_value_value(EV_ABS, 0, b"DOWN"), None);
    assert_eq!(get_value_value(EV_ABS, 0, b"2147483647"), Some(i32::MAX));
    assert_eq!(get_value_value(EV_ABS, 0, b"2147483648"), None);
}

// Each malformed input yields its documented failure kind.
#[test]
fn failure_kinds() {
    let t = Options { get_time: true, print_device: false };
    let plain = Options { get_time: false, print_device: false };
    let dev = Options { get_time: false, print_device: true };
    let kind = |line: &[u8], o: &Options| parse_event(line, o).unwrap_err().kind;
    assert_eq!(kind(b"", &t), ErrKind::Format(FormatCause::EmptyLine));
    assert_eq!(kind(b"0 0 0", &t), ErrKind::Format(FormatCause::MissingOpenBracket));
    assert_eq!(kind(b"[", &t), ErrKind::Format(FormatCause::MissingCloseBracket));
    assert_eq!(kind(b"[] ", &t), ErrKind::Format(FormatCause::MissingDot));
    assert_eq!(kind(b"0 0 0", &dev), ErrKind::Format(FormatCause::MissingDevice));
    assert_eq!(kind(b"", &plain), ErrKind::Format(FormatCause::MissingType));
    assert_eq!(kind(b"0", &plain), ErrKind::Format(FormatCause::MissingCode));
    assert_eq!(kind(b"0 0", &plain), ErrKind::Format(FormatCause::MissingValue));
    assert_eq!(kind(b"[.] ", &t), ErrKind::Num(NumField::Sec));
    assert_eq!(kind(b"[0.x] ", &t), ErrKind::Num(NumField::Usec));
    assert_eq!(kind(b"x 0 0", &plain), ErrKind::Num(NumField::Type));
    assert_eq!(kind(b"0 x 0", &plain), ErrKind::Num(NumField::Code));
    assert_eq!(kind(b"0 0 -1", &plain), ErrKind::Num(NumField::Value));
}

// Token runs of spaces collapse; a trailing fourth token is ignored,
// and the seconds field tolerates leading whitespace.
#[test]
fn token_edges() {
    let plain = Options { get_time: false, print_device: false };
    let (_, e) = parse_event(b"  1   2   3  ", &plain).unwrap();
    assert_eq!(e, ev(0, 0, 1, 2, 3));
    let (_, e) = parse_event(b"1 2 3 4", &plain).unwrap();
    assert_eq!(e, ev(0, 0, 1, 2, 3));
    let t = Options { get_time: true, print_device: false };
    let (_, e) = parse_event(b"[  7.8] 1 2 3", &t).unwrap();
    assert_eq!(e, ev(7, 8, 1, 2, 3));
}

// The descriptor sniffed from line 1 is applied unaltered to every
// later line, even to one that would sniff differently on its own.
#[test]
fn no_resniffing() {
    let mut s = EventStream::new();
    assert!(s.feed_line(b"0 0 0").is_none());
    let failure = s.feed_line(b"[1.1] /dev/x: 1 1 1").unwrap().unwrap_err();
    assert_eq!(failure.kind, ErrKind::Num(NumField::Type));
}

// The first line fixes the descriptor and yields no item; later lines
// yield outcomes; the first failure ends the stream.
#[test]
fn stream_single_pass() {
    let mut s = EventStream::new();
    assert!(s.feed_line(b"[0.0] /dev/x: 0 0 0").is_none());
    let item = s.feed_line(b"[1.5] /dev/x: EV_SYN SYN_REPORT 0").unwrap().unwrap();
    assert_eq!(item.0.unwrap(), b"/dev/x".to_vec());
    assert_eq!(item.1, marker(1, 5));
    let failure = s.feed_line(b"bogus").unwrap().unwrap_err();
    assert_eq!(failure.kind, ErrKind::Format(FormatCause::MissingOpenBracket));
    assert_eq!(failure.line, b"bogus".to_vec());
    assert!(s.feed_line(b"[2.0] /dev/x: 0 0 0").is_none());
}

#[test]
fn stream_read_failure() {
    let mut s = EventStream::new();
    assert!(s.feed_line(b"0 0 0").is_none());
    let failure = s.fail_read().unwrap().unwrap_err();
    assert_eq!(failure.kind, ErrKind::Io);
    assert!(s.fail_read().is_none());
    assert!(s.feed_line(b"0 0 0").is_none());
}

#[test]
fn parse_all_outcomes() {
    let to_lines = |ls: &[&str]| ls.iter().map(|l| l.as_bytes().to_vec()).collect::<Vec<_>>();
    assert_eq!(parse_all(&Vec::new()).len(), 0);

    let out = parse_all(&to_lines(&[""]));
    assert_eq!(out.len(), 1);
    assert_eq!(out[0].as_ref().unwrap_err().kind, ErrKind::Format(FormatCause::EmptyLine));

    let out = parse_all(&to_lines(&["0 0 0", "1 1 1", "bogus x", "2 2 2"]));
    assert_eq!(out.len(), 2);
    let item = out[0].as_ref().unwrap();
    assert_eq!(item.1, ev(0, 0, 1, 1, 1));
    assert_eq!(out[1].as_ref().unwrap_err().kind, ErrKind::Num(NumField::Type));
}

// Two events naming the same device cause exactly one open; distinct
// names get distinct handles; the default name shares the cache.
#[test]
fn device_cache() {
    let mut r = Replayer::new(Some(b"/dev/a".to_vec()));
    let d = match r.step(Ok((Some(b"/dev/a".to_vec()), ev(0, 0, 1, 1, 1)))) {
        Step::Deliver(d) => d,
        s => panic!("{:?}", s),
    };
    assert_eq!(d.open.as_deref(), Some(b"/dev/a".as_slice()));
    assert_eq!(d.device, 0);
    let d = match r.step(Ok((Some(b"/dev/a".to_vec()), ev(0, 0, 1, 1, 0)))) {
        Step::Deliver(d) => d,
        s => panic!("{:?}", s),
    };
    assert!(d.open.is_none());
    assert_eq!(d.device, 0);
    let d = match r.step(Ok((Some(b"/dev/b".to_vec()), ev(0, 0, 1, 1, 1)))) {
        Step::Deliver(d) => d,
        s => panic!("{:?}", s),
    };
    assert_eq!(d.open.as_deref(), Some(b"/dev/b".as_slice()));
    assert_eq!(d.device, 1);
    let d = match r.step(Ok((None, ev(0, 0, 1, 1, 0)))) {
        Step::Deliver(d) => d,
        s => panic!("{:?}", s),
    };
    assert!(d.open.is_none());
    assert_eq!(d.device, 0);
}

// The first marker is written at once and sets the baseline; later
// markers wait out the log gap; non-markers are never paced; the
// record always carries a zeroed timestamp.
#[test]
fn marker_pacing() {
    let mut r = Replayer::new(Some(b"/dev/a".to_vec()));
    let d = match r.step(Ok((None, ev(0, 0, 1, 330, 1)))) {
        Step::Deliver(d) => d,
        s => panic!("{:?}", s),
    };
    assert_eq!(d.pace, Pace::Immediate);
    let d = match r.step(Ok((None, marker(0, 0)))) {
        Step::Deliver(d) => d,
        s => panic!("{:?}", s),
    };
    assert_eq!(d.pace, Pace::Baseline);
    let d = match r.step(Ok((None, marker(0, 500_000)))) {
        Step::Deliver(d) => d,
        s => panic!("{:?}", s),
    };
    assert_eq!(d.pace, Pace::Wait(Dur::new(0, 500_000_000)));
    assert_eq!(d.bytes, ev(0, 0, EV_SYN, SYN_REPORT, 0).to_ne_bytes());
    let d = match r.step(Ok((None, marker(2, 250_000)))) {
        Step::Deliver(d) => d,
        s => panic!("{:?}", s),
    };
    assert_eq!(d.pace, Pace::Wait(Dur::new(2, 250_000_000)));
}

// A marker earlier than the baseline waits zero, never negative.
#[test]
fn pacing_clamps_to_zero() {
    let mut r = Replayer::new(Some(b"/dev/a".to_vec()));
    match r.step(Ok((None, marker(10, 0)))) {
        Step::Deliver(d) => assert_eq!(d.pace, Pace::Baseline),
        s => panic!("{:?}", s),
    }
    match r.step(Ok((None, marker(3, 0)))) {
        Step::Deliver(d) => assert_eq!(d.pace, Pace::Wait(Dur::new(0, 0))),
        s => panic!("{:?}", s),
    }
}

// The record handed out is the event with its timestamp zeroed.
#[test]
fn delivery_zeroes_timestamp() {
    let mut r = Replayer::new(Some(b"/dev/a".to_vec()));
    let d = match r.step(Ok((None, ev(7, 9, 3, 0, -4)))) {
        Step::Deliver(d) => d,
        s => panic!("{:?}", s),
    };
    assert_eq!(d.bytes, ev(0, 0, 3, 0, -4).to_ne_bytes());
    assert_eq!(InputEvent::from_ne_bytes(&d.bytes), ev(0, 0, 3, 0, -4));
}

// Every failure is fatal: a stream failure, a missing device name,
// and an unrepresentable marker time each abort the run.
#[test]
fn engine_aborts() {
    let mut r = Replayer::new(None);
    let e = Error { kind: ErrKind::Io, line: vec![] };
    match r.step(Err(e)) {
        Step::Abort(AbortCause::Stream(e)) => assert_eq!(e.kind, ErrKind::Io),
        s => panic!("{:?}", s),
    }
    match r.step(Ok((None, ev(0, 0, 1, 1, 1)))) {
        Step::Abort(AbortCause::NoDevice) => {}
        s => panic!("{:?}", s),
    }
    match r.step(Ok((Some(b"/dev/a".to_vec()), marker(-1, 0)))) {
        Step::Abort(AbortCause::TimeRange) => {}
        s => panic!("{:?}", s),
    }
    match r.step(Ok((Some(b"/dev/a".to_vec()), marker(0, 4_294_968)))) {
        Step::Abort(AbortCause::TimeRange) => {}
        s => panic!("{:?}", s),
    }
    // A non-marker event never needs its timestamp converted.
    match r.step(Ok((Some(b"/dev/a".to_vec()), ev(-1, -1, 1, 1, 1)))) {
        Step::Deliver(_) => {}
        s => panic!("{:?}", s),
    }
}

// An empty device name from the log is used verbatim as a cache key.
#[test]
fn empty_device_name_verbatim() {
    let mut r = Replayer::new(Some(b"/dev/a".to_vec()));
    let d = match r.step(Ok((Some(b"".to_vec()), ev(0, 0, 1, 1, 1)))) {
        Step::Deliver(d) => d,
        s => panic!("{:?}", s),
    };
    assert_eq!(d.open.as_deref(), Some(b"".as_slice()));
    assert_eq!(d.device, 0);
}
