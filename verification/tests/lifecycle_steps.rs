use crabwatch_gpiod::chip::GpiodChip;
use crabwatch_gpiod::lifecycle::{
    announce, opened, released, resolve_path, start, step, Event, Request, State, Stream,
};

fn argv(items: &[&str]) -> Vec<String> {
    items.iter().map(|item| String::from(*item)).collect()
}

#[test]
fn default_path_without_argument() {
    assert_eq!(resolve_path(&argv(&["led-control"])), "/dev/gpiochip0");
}

#[test]
fn default_path_without_program_name() {
    assert_eq!(resolve_path(&argv(&[])), "/dev/gpiochip0");
}

#[test]
fn argument_overrides_default_path() {
    assert_eq!(resolve_path(&argv(&["led-control", "/dev/gpiochip9"])), "/dev/gpiochip9");
}

#[test]
fn only_first_argument_counts() {
    assert_eq!(resolve_path(&argv(&["led-control", "/dev/a", "/dev/b"])), "/dev/a");
}

#[test]
fn announcement_quotes_the_path() {
    assert_eq!(announce("/dev/gpiochip0"), "Opening GPIO chip at `/dev/gpiochip0`...");
    assert_eq!(announce(""), "Opening GPIO chip at ``...");
}

#[test]
fn start_asks_to_open_encoded_path() {
    let next = start(&argv(&["led-control", "/dev/gpiochip3"]));
    assert_eq!(next.state, State::PathReady);
    assert_eq!(next.stream, Stream::Stdout);
    assert_eq!(next.line, "Opening GPIO chip at `/dev/gpiochip3`...");
    match next.request {
        Request::Open { path } => assert_eq!(path, b"/dev/gpiochip3\0".to_vec()),
        other => panic!("unexpected request {:?}", other),
    }
}

#[test]
fn start_refuses_path_with_nul() {
    let next = start(&argv(&["led-control", "/dev/gp\0iochip0"]));
    assert_eq!(next.state, State::FailEncode);
    assert_eq!(next.stream, Stream::Stdout);
    assert_eq!(next.line, "Opening GPIO chip at `/dev/gp\0iochip0`...");
    match next.request {
        Request::Abort { error } => {
            assert_eq!(error.position, 7);
            assert_eq!(error.bytes, b"/dev/gp\0iochip0".to_vec());
        }
        other => panic!("unexpected request {:?}", other),
    }
}

#[test]
fn handle_is_reported_and_released() {
    let next = opened(GpiodChip::from_addr(0x1000));
    assert_eq!(next.state, State::ChipOpen);
    assert_eq!(next.stream, Stream::Stdout);
    assert_eq!(next.line, "Successfully opened GPIO chip");
    match next.request {
        Request::Close { chip } => assert_eq!(chip.addr(), 0x1000),
        other => panic!("unexpected request {:?}", other),
    }
}

#[test]
fn null_sentinel_fails_with_exit_code_one() {
    let next = opened(GpiodChip::from_addr(0));
    assert_eq!(next.state, State::FailOpen);
    assert_eq!(next.stream, Stream::Stderr);
    assert_eq!(next.line, "Failed to open GPIO chip");
    assert!(matches!(next.request, Request::Exit { code: 1 }));
}

#[test]
fn release_ends_with_exit_code_zero() {
    let next = released();
    assert_eq!(next.state, State::Closed);
    assert_eq!(next.stream, Stream::Stdout);
    assert_eq!(next.line, "Successfully closed GPIO chip");
    assert!(matches!(next.request, Request::Exit { code: 0 }));
}

#[test]
fn step_takes_each_event_in_its_state() {
    let first = step(State::Init, Event::Started { args: argv(&["led-control"]) })
        .expect("the start is taken at the beginning");
    assert_eq!(first.state, State::PathReady);
    let second = step(first.state, Event::Opened { chip: GpiodChip::from_addr(8) })
        .expect("the handle is taken while the path is ready");
    assert_eq!(second.state, State::ChipOpen);
    let third = step(second.state, Event::Released)
        .expect("the release is taken while the chip is open");
    assert_eq!(third.state, State::Closed);
}

#[test]
fn step_hands_back_what_it_does_not_take() {
    let rejected = step(State::Init, Event::Opened { chip: GpiodChip::from_addr(5) })
        .expect_err("no handle can arrive before the start");
    assert_eq!(rejected.state, State::Init);
    match rejected.event {
        Event::Opened { chip } => assert_eq!(chip.addr(), 5),
        other => panic!("unexpected event {:?}", other),
    }
    let rejected = step(State::PathReady, Event::Started { args: argv(&["a", "b"]) })
        .expect_err("a run starts once");
    assert_eq!(rejected.state, State::PathReady);
    match rejected.event {
        Event::Started { args } => assert_eq!(args, argv(&["a", "b"])),
        other => panic!("unexpected event {:?}", other),
    }
    assert!(step(State::Init, Event::Released).is_err());
    assert!(step(State::PathReady, Event::Released).is_err());
    assert!(step(State::ChipOpen, Event::Opened { chip: GpiodChip::from_addr(5) }).is_err());
    assert!(step(State::ChipOpen, Event::Started { args: argv(&[]) }).is_err());
}

#[test]
fn terminal_states_take_nothing() {
    for state in [State::FailEncode, State::FailOpen, State::Closed] {
        assert!(step(state, Event::Started { args: argv(&["led-control"]) }).is_err());
        assert!(step(state, Event::Opened { chip: GpiodChip::from_addr(1) }).is_err());
        assert!(step(state, Event::Opened { chip: GpiodChip::from_addr(0) }).is_err());
        assert!(step(state, Event::Released).is_err());
    }
}
