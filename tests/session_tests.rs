use fanctl::error::SessionError;
use fanctl::session::{Action, Event, Session, SessionState};

const TX: u128 = 0x6e400002_b5a3_f393_e0a9_e50e24dcca9e;
const RX: u128 = 0x6e400003_b5a3_f393_e0a9_e50e24dcca9e;

fn names(list: &[Option<&str>]) -> Vec<Option<String>> {
    list.iter().map(|n| n.map(|s| s.to_string())).collect()
}

/// Drives a session up to the point where the characteristic is resolved.
fn run_to_discovery(speed: u8, uuids: Vec<u128>) -> (Session, Action) {
    let mut s = Session::new(speed);
    assert_eq!(s.step(Event::AdaptersListed { count: 1 }), Action::StartScan { adapter: 0 });
    assert_eq!(s.state, SessionState::AdapterSelected);
    assert_eq!(s.step(Event::ScanStarted), Action::ListPeripherals { after_ms: 0 });
    assert_eq!(s.state, SessionState::Scanning);
    let seen = names(&[Some("Adafruit Bluefruit LE")]);
    assert_eq!(s.step(Event::PeripheralsListed { names: seen }), Action::Connect { peripheral: 0 });
    assert_eq!(s.state, SessionState::PeripheralFound);
    assert_eq!(s.step(Event::Connected), Action::DiscoverServices);
    assert_eq!(s.state, SessionState::Connected);
    let a = s.step(Event::ServicesDiscovered { uuids });
    (s, a)
}

#[test]
fn session_sets_half_speed() {
    let (mut s, a) = run_to_discovery(50, vec![RX, TX]);
    assert_eq!(a, Action::Write { characteristic: 1, payload: b"127".to_vec() });
    assert_eq!(s.state, SessionState::CharacteristicResolved);
    assert_eq!(s.step(Event::Written), Action::Disconnect);
    assert_eq!(s.state, SessionState::CommandSent);
    assert_eq!(s.step(Event::Disconnected), Action::Finish { exit_code: 0 });
    assert_eq!(s.state, SessionState::Disconnected);
    assert!(s.is_finished());
}

#[test]
fn session_clamps_speed_above_hundred() {
    let (s, a) = run_to_discovery(150, vec![TX]);
    assert_eq!(a, Action::Write { characteristic: 0, payload: b"255".to_vec() });
    assert_eq!(s.state, SessionState::CharacteristicResolved);
}

#[test]
fn session_aborts_without_tx_characteristic() {
    let (mut s, a) = run_to_discovery(50, vec![RX, 42]);
    assert_eq!(a, Action::Finish { exit_code: 1 });
    assert_eq!(s.state, SessionState::Failed(SessionError::CharacteristicNotFound));
    assert!(s.is_finished());
    // Nothing is written afterwards, whatever comes in.
    assert_eq!(s.step(Event::Written), Action::Finish { exit_code: 1 });
    assert_eq!(s.state, SessionState::Failed(SessionError::CharacteristicNotFound));
}

#[test]
fn session_keeps_scanning_until_found() {
    let mut s = Session::new(10);
    s.step(Event::AdaptersListed { count: 2 });
    s.step(Event::ScanStarted);
    for _ in 0..1000 {
        let seen = names(&[None, Some("adafruit bluefruit le"), Some("Other")]);
        assert_eq!(
            s.step(Event::PeripheralsListed { names: seen }),
            Action::ListPeripherals { after_ms: 10 }
        );
        assert_eq!(s.state, SessionState::Scanning);
        assert!(!s.is_finished());
    }
    let seen = names(&[None, Some("Adafruit Bluefruit LE")]);
    assert_eq!(s.step(Event::PeripheralsListed { names: seen }), Action::Connect { peripheral: 1 });
    assert_eq!(s.state, SessionState::PeripheralFound);
}

#[test]
fn session_fails_without_adapter() {
    let mut s = Session::new(10);
    assert_eq!(s.step(Event::AdaptersListed { count: 0 }), Action::Finish { exit_code: 1 });
    assert_eq!(s.state, SessionState::Failed(SessionError::AdapterUnavailable));
}

#[test]
fn session_fails_when_scan_refused() {
    let mut s = Session::new(10);
    s.step(Event::AdaptersListed { count: 1 });
    assert_eq!(s.step(Event::ScanStartRefused), Action::Finish { exit_code: 1 });
    assert_eq!(s.state, SessionState::Failed(SessionError::ScanStartFailed));
}

#[test]
fn session_fails_on_transport_error() {
    let (mut s, _) = run_to_discovery(10, vec![TX]);
    assert_eq!(s.step(Event::TransportFailed), Action::Finish { exit_code: 1 });
    assert_eq!(s.state, SessionState::Failed(SessionError::TransportError));
}

#[test]
fn session_ignores_out_of_order_events() {
    let mut s = Session::new(10);
    assert_eq!(s.step(Event::Written), Action::Ignore);
    assert_eq!(s.state, SessionState::Idle);
    s.step(Event::AdaptersListed { count: 1 });
    assert_eq!(s.step(Event::TransportFailed), Action::Ignore);
    assert_eq!(s.state, SessionState::AdapterSelected);
}
