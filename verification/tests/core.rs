use sendevent::codes::{BTN_TOUCH, EV_KEY, EV_SYN, SYN_REPORT};
use sendevent::event::{write_event, InputEvent};
use sendevent::parse::{parse_event, Options};
use sendevent::error::ErrKind;
use sendevent::time::{Dur, TimeVal};

#[test]
fn time_val_to_duration() {
    assert_eq!(TimeVal { sec: 0, usec: 0 }.to_duration(), Dur::new(0, 0));
    assert_eq!(TimeVal { sec: 1, usec: 1 }.to_duration(), Dur::new(1, 1000));
    assert_eq!(
        TimeVal { sec: i64::MAX, usec: 0 }.to_duration(),
        Dur::new(i64::MAX.try_into().unwrap(), 0)
    );
    assert_eq!(
        TimeVal { sec: i64::MAX, usec: 4294967 }.to_duration(),
        Dur::new(i64::MAX.try_into().unwrap(), 4294967000)
    );
}

fn opts(get_time: bool, print_device: bool) -> Options {
    Options { get_time, print_device }
}

fn expect_format(line: &str, options: Options) {
    match parse_event(line.as_bytes(), &options) {
        Err(e) => {
            assert!(matches!(e.kind, ErrKind::Format(_)), "line {:?}: {:?}", line, e.kind);
            assert_eq!(e.line, line.as_bytes().to_vec());
        }
        other => panic!("line {:?}: expected a format failure, got {:?}", line, other),
    }
}

fn expect_num(line: &str, options: Options) {
    match parse_event(line.as_bytes(), &options) {
        Err(e) => {
            assert!(matches!(e.kind, ErrKind::Num(_)), "line {:?}: {:?}", line, e.kind);
            assert_eq!(e.line, line.as_bytes().to_vec());
        }
        other => panic!("line {:?}: expected a numeric failure, got {:?}", line, other),
    }
}

#[test]
fn test_parse_event() {
    expect_format("", opts(false, false));
    expect_format("", opts(false, true));
    expect_format("", opts(true, false));
    expect_format("", opts(true, true));
    expect_format("[", opts(true, false));
    expect_format("[] ", opts(true, false));
    expect_num("[.] ", opts(true, false));
    expect_num("[0.] ", opts(true, false));
    expect_format("[0.0] ", opts(true, false));
    expect_format(": ", opts(false, true));
    expect_num("-1", opts(false, false));
    expect_format("0", opts(false, false));
    expect_num("0 -1", opts(false, false));
    expect_num("0 -1", opts(false, false));
    expect_format("0 0", opts(false, false));
    expect_num("0 0 -1", opts(false, false));

    let (device, event) = parse_event(b"0 0 0", &opts(false, false)).unwrap();
    assert!(device.is_none());
    assert_eq!(event, InputEvent { time: TimeVal { sec: 0, usec: 0 }, type_: 0, code: 0, value: 0 });

    let (device, event) = parse_event(b"[1.1] 1 1 1", &opts(true, false)).unwrap();
    assert!(device.is_none());
    assert_eq!(event, InputEvent { time: TimeVal { sec: 1, usec: 1 }, type_: 1, code: 1, value: 1 });

    let (device, event) = parse_event(b"[0.0] : 0 0 0", &opts(true, true)).unwrap();
    assert_eq!(device.unwrap(), b"".to_vec());
    assert_eq!(event, InputEvent { time: TimeVal { sec: 0, usec: 0 }, type_: 0, code: 0, value: 0 });

    let (device, event) = parse_event(b"[0.0] /dev/input/event0: 0 0 0", &opts(true, true)).unwrap();
    assert_eq!(device.unwrap(), b"/dev/input/event0".to_vec());
    assert_eq!(event, InputEvent { time: TimeVal { sec: 0, usec: 0 }, type_: 0, code: 0, value: 0 });

    let (device, event) =
        parse_event(b"[0.0] /dev/input/event0: EV_SYN SYN_REPORT 0", &opts(true, true)).unwrap();
    assert_eq!(device.unwrap(), b"/dev/input/event0".to_vec());
    assert_eq!(event.time, TimeVal { sec: 0, usec: 0 });
    assert_eq!(event.type_, EV_SYN);
    assert_eq!(event.code, SYN_REPORT);
    assert_eq!(event.value, 0);

    let (device, event) =
        parse_event(b"[0.0] /dev/input/event0: EV_KEY BTN_TOUCH DOWN", &opts(true, true)).unwrap();
    assert_eq!(device.unwrap(), b"/dev/input/event0".to_vec());
    assert_eq!(event.time, TimeVal { sec: 0, usec: 0 });
    assert_eq!(event.type_, EV_KEY);
    assert_eq!(event.code, BTN_TOUCH);
    assert_eq!(event.value, 1);
}

#[test]
fn test_write_event() {
    let cases = [
        InputEvent { time: TimeVal { sec: 0, usec: 0 }, type_: 0, code: 0, value: 0 },
        InputEvent {
            time: TimeVal { sec: i64::MAX, usec: i64::MAX },
            type_: u16::MAX,
            code: u16::MAX,
            value: i32::MAX,
        },
        InputEvent { time: TimeVal { sec: 1, usec: 2 }, type_: 3, code: 4, value: 5 },
    ];
    for event in cases {
        let mut device = vec![];
        match write_event(&mut device, &event) {
            Ok(()) => assert_eq!(device, event.to_ne_bytes()),
            Err(e) => panic!("write failed: {:?}", e),
        }
    }
}
