use containr::error::Error;
use containr::signal::parse_signal;
use nix::sys::signal::Signal;

#[test]
fn signal_fifteen_is_sigterm() {
    let signal = parse_signal(15).unwrap();
    assert_eq!(signal.number(), 15);
    assert_eq!(Signal::try_from(signal.number()), Ok(Signal::SIGTERM));
}

#[test]
fn signal_nine_is_sigkill() {
    let signal = parse_signal(9).unwrap();
    assert_eq!(signal.number(), 9);
    assert_eq!(Signal::try_from(signal.number()), Ok(Signal::SIGKILL));
}

#[test]
fn signal_keeps_the_number_asked_for() {
    for number in [1, 2, 3, 9, 10, 12, 15, 17, 31] {
        assert_eq!(parse_signal(number).map(|signal| signal.number()), Ok(number));
    }
}

#[test]
fn signals_are_equal_by_number() {
    assert_eq!(parse_signal(15), parse_signal(15));
    assert_ne!(parse_signal(15), parse_signal(9));
}

#[test]
fn signal_zero_is_no_signal() {
    assert_eq!(parse_signal(0), Err(Error::InvalidSignal { number: 0 }));
}

#[test]
fn signal_out_of_range_is_no_signal() {
    assert_eq!(parse_signal(-1), Err(Error::InvalidSignal { number: -1 }));
    assert_eq!(parse_signal(1000), Err(Error::InvalidSignal { number: 1000 }));
}
