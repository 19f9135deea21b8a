use ser2tcp::config::{
    char_size_from_bits, parity_from_name, resolve_config, stop_bits_from_name, CharSize,
    ConfigError, LineSettings, Parity, StopBits,
};
use ser2tcp::setup::{
    after_connect_attempt, after_open_failure, ConnectAction, OpenAction, OpenAttempt,
    MAX_CONNECT_ATTEMPTS,
};

fn run_connect(results: &[bool]) -> (ConnectAction, u32) {
    let mut attempt: u32 = 1;
    for &ok in results {
        match after_connect_attempt(attempt, ok) {
            ConnectAction::RetryAfter(ms) => {
                assert_eq!(ms, 250);
                attempt += 1;
            }
            other => return (other, attempt),
        }
    }
    panic!("ran out of attempt results");
}

#[test]
fn defaults_apply() {
    let c = resolve_config(Some("/dev/ttyUSB0".to_string()), None, None, None, None, None, None, false)
        .unwrap();
    assert_eq!(c.device, "/dev/ttyUSB0");
    assert_eq!(
        c.line,
        LineSettings {
            baud_rate: 115200,
            char_size: CharSize::Bits8,
            stop_bits: StopBits::One,
            parity: Parity::Disabled,
        }
    );
    assert_eq!(c.line, LineSettings::default_line());
    assert_eq!(c.host, "localhost");
    assert_eq!(c.tcp_port, 5761);
    assert!(!c.verbose);
}

#[test]
fn two_stop_bits_change_nothing_else() {
    let c = resolve_config(
        Some("/dev/ttyACM0".to_string()),
        Some(115200),
        Some(8),
        Some("Two".to_string()),
        None,
        None,
        None,
        false,
    )
    .unwrap();
    assert_eq!(
        c.line,
        LineSettings { stop_bits: StopBits::Two, ..LineSettings::default_line() }
    );
}

#[test]
fn explicit_options_are_kept() {
    let c = resolve_config(
        Some("COM3".to_string()),
        Some(57600),
        Some(7),
        Some("One".to_string()),
        Some("Even".to_string()),
        Some("10.0.0.2".to_string()),
        Some(2000),
        true,
    )
    .unwrap();
    assert_eq!(c.line.baud_rate, 57600);
    assert_eq!(c.line.char_size, CharSize::Bits7);
    assert_eq!(c.line.stop_bits, StopBits::One);
    assert_eq!(c.line.parity, Parity::Even);
    assert_eq!(c.host, "10.0.0.2");
    assert_eq!(c.tcp_port, 2000);
    assert!(c.verbose);
}

#[test]
fn missing_device_is_an_error() {
    let r = resolve_config(None, None, None, None, None, None, None, false);
    assert_eq!(r.unwrap_err(), ConfigError::MissingDevice);
    assert_eq!(ConfigError::MissingDevice.exit_code(), 1);
}

#[test]
fn zero_baud_rate_is_an_error() {
    let r = resolve_config(Some("d".to_string()), Some(0), None, None, None, None, None, false);
    assert_eq!(r.unwrap_err(), ConfigError::ZeroBaudRate);
}

#[test]
fn tcp_port_beyond_sixteen_bits_is_an_error() {
    let r = resolve_config(Some("d".to_string()), None, None, None, None, None, Some(65536), false);
    assert_eq!(r.unwrap_err(), ConfigError::TcpPortOutOfRange);
    let ok = resolve_config(Some("d".to_string()), None, None, None, None, None, Some(65535), false);
    assert_eq!(ok.unwrap().tcp_port, 65535);
}

#[test]
fn char_sizes() {
    assert_eq!(char_size_from_bits(Some(5)), CharSize::Bits5);
    assert_eq!(char_size_from_bits(Some(6)), CharSize::Bits6);
    assert_eq!(char_size_from_bits(Some(7)), CharSize::Bits7);
    assert_eq!(char_size_from_bits(Some(8)), CharSize::Bits8);
    assert_eq!(char_size_from_bits(Some(9)), CharSize::Bits8);
    assert_eq!(char_size_from_bits(None), CharSize::Bits8);
}

#[test]
fn stop_bit_names() {
    assert_eq!(stop_bits_from_name(&Some("Two".to_string())), StopBits::Two);
    assert_eq!(stop_bits_from_name(&Some("One".to_string())), StopBits::One);
    assert_eq!(stop_bits_from_name(&Some("two".to_string())), StopBits::One);
    assert_eq!(stop_bits_from_name(&None), StopBits::One);
}

#[test]
fn parity_names() {
    assert_eq!(parity_from_name(&Some("Odd".to_string())), Parity::Odd);
    assert_eq!(parity_from_name(&Some("Even".to_string())), Parity::Even);
    assert_eq!(parity_from_name(&Some("None".to_string())), Parity::Disabled);
    assert_eq!(parity_from_name(&Some("Mark".to_string())), Parity::Disabled);
    assert_eq!(parity_from_name(&None), Parity::Disabled);
}

#[test]
fn connects_on_last_allowed_attempt() {
    let mut results = vec![false; 19];
    results.push(true);
    assert_eq!(run_connect(&results), (ConnectAction::Proceed, 20));
}

#[test]
fn connects_at_once() {
    assert_eq!(run_connect(&[true]), (ConnectAction::Proceed, 1));
}

#[test]
fn gives_up_after_twenty_refusals() {
    let results = vec![false; 25];
    assert_eq!(run_connect(&results), (ConnectAction::GiveUp(127), MAX_CONNECT_ATTEMPTS));
}

#[test]
fn falls_back_to_last_enumerated_device() {
    let ports = vec!["/dev/ttyS0".to_string(), "/dev/ttyUSB0".to_string(), "/dev/ttyUSB1".to_string()];
    match after_open_failure(OpenAttempt::Requested, &ports) {
        OpenAction::TryDevice(d) => assert_eq!(d, "/dev/ttyUSB1"),
        other => panic!("expected a fallback, got {:?}", other),
    }
}

#[test]
fn no_enumerated_device_gives_up() {
    assert!(matches!(after_open_failure(OpenAttempt::Requested, &Vec::new()), OpenAction::GiveUp(127)));
}

#[test]
fn failed_fallback_gives_up() {
    let ports = vec!["/dev/ttyUSB0".to_string()];
    assert!(matches!(after_open_failure(OpenAttempt::Fallback, &ports), OpenAction::GiveUp(127)));
}
