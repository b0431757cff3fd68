//! The session controller: one run from adapter choice to disconnect.
//!
//! The session decides; the caller acts. Each call of `step` takes what the
//! last action brought back (an event) and returns the next action. A session
//! starts `Idle` and expects the adapter enumeration as its first event.
use vstd::prelude::*;

use crate::characteristic::{get_tx_characteristic, lookup, uuid_value, TX_CHARACTERISTIC_UUID};
use crate::command::{decimal, speed_command};
use crate::duty::duty_cycle;
use crate::error::SessionError;
use crate::scan::{find_adafruit_ble, first_target, get_first_adapter, POLL_INTERVAL_MS};

verus! {

/// Where a session stands.
#[derive(Debug, Clone, Copy, PartialEq, Eq, Structural)]
pub enum SessionState {
    Idle,
    AdapterSelected,
    Scanning,
    PeripheralFound,
    Connected,
    CharacteristicResolved,
    CommandSent,
    Disconnected,
    Failed(SessionError),
}

/// What the last action brought back.
#[derive(Debug, Clone, PartialEq, Eq)]
pub enum Event {
    /// The host stack listed `count` adapters.
    AdaptersListed { count: usize },
    /// The adapter started scanning.
    ScanStarted,
    /// The adapter refused to scan.
    ScanStartRefused,
    /// One pass over the peripherals seen so far: the advertised local name
    /// of each, `None` where none has arrived yet.
    PeripheralsListed { names: Vec<Option<String>> },
    /// The link to the chosen peripheral is up.
    Connected,
    /// Service discovery finished with these characteristic UUIDs.
    ServicesDiscovered { uuids: Vec<u128> },
    /// The peripheral acknowledged the write.
    Written,
    /// The link is down.
    Disconnected,
    /// Connect, discovery, write or disconnect failed.
    TransportFailed,
}

/// What the caller is to do next.
#[derive(Debug, Clone, PartialEq, Eq)]
pub enum Action {
    /// Start an unfiltered scan on adapter number `adapter`.
    StartScan { adapter: usize },
    /// Wait `after_ms` milliseconds, then list the peripherals seen so far.
    ListPeripherals { after_ms: u64 },
    /// Connect to peripheral number `peripheral` of the last listing.
    Connect { peripheral: usize },
    /// Discover the services and characteristics of the connected peripheral.
    DiscoverServices,
    /// Write `payload`, with acknowledgement, to characteristic number
    /// `characteristic` of the discovered table.
    Write { characteristic: usize, payload: Vec<u8> },
    /// Disconnect from the peripheral.
    Disconnect,
    /// The session is over: end the process with `exit_code`.
    Finish { exit_code: i32 },
    /// The event does not belong to the current state: do nothing.
    Ignore,
}

/// A state from which no event leads anywhere else.
pub open spec fn is_terminal(s: SessionState) -> bool {
    s is Disconnected || s is Failed
}

/// How far along the linear sequence of states `s` stands.
pub open spec fn progress(s: SessionState) -> int {
    match s {
        SessionState::Idle => 0,
        SessionState::AdapterSelected => 1,
        SessionState::Scanning => 2,
        SessionState::PeripheralFound => 3,
        SessionState::Connected => 4,
        SessionState::CharacteristicResolved => 5,
        SessionState::CommandSent => 6,
        SessionState::Disconnected => 7,
        SessionState::Failed(_) => 8,
    }
}

/// The state that follows `s` on event `e`.
pub open spec fn next_state(s: SessionState, e: Event) -> SessionState {
    match (s, e) {
        (SessionState::Idle, Event::AdaptersListed { count }) => if count == 0 {
            SessionState::Failed(SessionError::AdapterUnavailable)
        } else {
            SessionState::AdapterSelected
        },
        (SessionState::AdapterSelected, Event::ScanStarted) => SessionState::Scanning,
        (SessionState::AdapterSelected, Event::ScanStartRefused) => SessionState::Failed(
            SessionError::ScanStartFailed,
        ),
        (SessionState::Scanning, Event::PeripheralsListed { names }) => if first_target(
            names@,
        ) is Some {
            SessionState::PeripheralFound
        } else {
            SessionState::Scanning
        },
        (SessionState::PeripheralFound, Event::Connected) => SessionState::Connected,
        (SessionState::Connected, Event::ServicesDiscovered { uuids }) => match lookup(
            uuids@,
            uuid_value(TX_CHARACTERISTIC_UUID@),
        ) {
            Ok(_) => SessionState::CharacteristicResolved,
            Err(err) => SessionState::Failed(err),
        },
        (SessionState::CharacteristicResolved, Event::Written) => SessionState::CommandSent,
        (SessionState::CommandSent, Event::Disconnected) => SessionState::Disconnected,
        (SessionState::PeripheralFound, Event::TransportFailed) => SessionState::Failed(
            SessionError::TransportError,
        ),
        (SessionState::Connected, Event::TransportFailed) => SessionState::Failed(
            SessionError::TransportError,
        ),
        (SessionState::CharacteristicResolved, Event::TransportFailed) => SessionState::Failed(
            SessionError::TransportError,
        ),
        (SessionState::CommandSent, Event::TransportFailed) => SessionState::Failed(
            SessionError::TransportError,
        ),
        _ => s,
    }
}

/// The action that goes with the move from `s` on event `e`, for a session
/// whose fan speed is `speed` percent.
pub open spec fn is_next_action(s: SessionState, speed: u8, e: Event, a: Action) -> bool {
    let t = next_state(s, e);
    if is_terminal(s) {
        a == Action::Finish { exit_code: if s is Disconnected { 0 } else { 1 } }
    } else if t is Failed {
        a == Action::Finish { exit_code: 1 }
    } else if t == s {
        match (s, e) {
            (SessionState::Scanning, Event::PeripheralsListed { names: _ }) => a
                == Action::ListPeripherals { after_ms: POLL_INTERVAL_MS },
            _ => a == Action::Ignore,
        }
    } else {
        match (t, e) {
            (SessionState::AdapterSelected, _) => a == Action::StartScan { adapter: 0 },
            (SessionState::Scanning, _) => a == Action::ListPeripherals { after_ms: 0 },
            (SessionState::PeripheralFound, Event::PeripheralsListed { names }) => a
                == Action::Connect { peripheral: first_target(names@)->Some_0 as usize },
            (SessionState::Connected, _) => a == Action::DiscoverServices,
            (SessionState::CharacteristicResolved, Event::ServicesDiscovered { uuids }) => match a {
                Action::Write { characteristic, payload } => lookup(
                    uuids@,
                    uuid_value(TX_CHARACTERISTIC_UUID@),
                ) == Ok::<usize, SessionError>(characteristic) && payload@ == decimal(
                    duty_cycle(speed as int) as nat,
                ),
                _ => false,
            },
            (SessionState::CommandSent, _) => a == Action::Disconnect,
            (SessionState::Disconnected, _) => a == Action::Finish { exit_code: 0 },
            _ => false,
        }
    }
}

/// One session: its state and the fan speed it is to set.
pub struct Session {
    pub state: SessionState,
    pub speed: u8,
}

impl Session {
    /// A fresh session for fan speed `speed` percent.
    pub fn new(speed: u8) -> (r: Session)
        ensures
            r.state == SessionState::Idle,
            r.speed == speed,
    {
        Session { state: SessionState::Idle, speed }
    }

    /// Whether the session is over.
    pub fn is_finished(&self) -> (r: bool)
        ensures
            r == is_terminal(self.state),
    {
        matches!(self.state, SessionState::Disconnected | SessionState::Failed(_))
    }

    /// Takes the result of the last action and returns the next action.
    pub fn step(&mut self, event: Event) -> (r: Action)
        ensures
            final(self).speed == old(self).speed,
            final(self).state == next_state(old(self).state, event),
            is_next_action(old(self).state, old(self).speed, event, r),
    {
        let ghost e = event;
        match self.state {
            SessionState::Disconnected => {
                return Action::Finish { exit_code: 0 };
            },
            SessionState::Failed(_) => {
                return Action::Finish { exit_code: 1 };
            },
            _ => {},
        }
        match event {
            Event::AdaptersListed { count } => {
                if self.state == SessionState::Idle {
                    match get_first_adapter(count) {
                        Some(adapter) => {
                            self.state = SessionState::AdapterSelected;
                            return Action::StartScan { adapter };
                        },
                        None => {
                            self.state = SessionState::Failed(SessionError::AdapterUnavailable);
                            return Action::Finish { exit_code: 1 };
                        },
                    }
                }
            },
            Event::ScanStarted => {
                if self.state == SessionState::AdapterSelected {
                    self.state = SessionState::Scanning;
                    return Action::ListPeripherals { after_ms: 0 };
                }
            },
            Event::ScanStartRefused => {
                if self.state == SessionState::AdapterSelected {
                    self.state = SessionState::Failed(SessionError::ScanStartFailed);
                    return Action::Finish { exit_code: 1 };
                }
            },
            Event::PeripheralsListed { names } => {
                if self.state == SessionState::Scanning {
                    match find_adafruit_ble(&names) {
                        Some(peripheral) => {
                            self.state = SessionState::PeripheralFound;
                            return Action::Connect { peripheral };
                        },
                        None => {
                            return Action::ListPeripherals { after_ms: POLL_INTERVAL_MS };
                        },
                    }
                }
            },
            Event::Connected => {
                if self.state == SessionState::PeripheralFound {
                    self.state = SessionState::Connected;
                    return Action::DiscoverServices;
                }
            },
            Event::ServicesDiscovered { uuids } => {
                if self.state == SessionState::Connected {
                    match get_tx_characteristic(&uuids) {
                        Ok(characteristic) => {
                            self.state = SessionState::CharacteristicResolved;
                            let payload = speed_command(self.speed);
                            return Action::Write { characteristic, payload };
                        },
                        Err(err) => {
                            self.state = SessionState::Failed(err);
                            return Action::Finish { exit_code: 1 };
                        },
                    }
                }
            },
            Event::Written => {
                if self.state == SessionState::CharacteristicResolved {
                    self.state = SessionState::CommandSent;
                    return Action::Disconnect;
                }
            },
            Event::Disconnected => {
                if self.state == SessionState::CommandSent {
                    self.state = SessionState::Disconnected;
                    return Action::Finish { exit_code: 0 };
                }
            },
            Event::TransportFailed => {
                match self.state {
                    SessionState::PeripheralFound | SessionState::Connected
                    | SessionState::CharacteristicResolved | SessionState::CommandSent => {
                        self.state = SessionState::Failed(SessionError::TransportError);
                        return Action::Finish { exit_code: 1 };
                    },
                    _ => {},
                }
            },
        }
        Action::Ignore
    }
}

/// Sessions only move forward: each step leaves the state where it was or
/// moves it further along the sequence, and a finished session stays as it is.
pub proof fn lemma_step_moves_forward(s: SessionState, e: Event)
    ensures
        progress(next_state(s, e)) >= progress(s),
        is_terminal(s) ==> next_state(s, e) == s,
{
}

/// The state reached from `s` after the events of `events`, in order.
pub open spec fn run(s: SessionState, events: Seq<Event>) -> SessionState
    decreases events.len(),
{
    if events.len() == 0 {
        s
    } else {
        run(next_state(s, events[0]), events.drop_first())
    }
}

/// A listing of the seen peripherals in which none is the target.
pub open spec fn is_listing_without_target(e: Event) -> bool {
    match e {
        Event::PeripheralsListed { names } => first_target(names@) is None,
        _ => false,
    }
}

/// The scan has no time limit: however many listings without the target
/// come in, the session stays in `Scanning`.
pub proof fn lemma_scan_without_target_never_ends(events: Seq<Event>)
    requires
        forall|i: int| 0 <= i < events.len() ==> is_listing_without_target(#[trigger] events[i]),
    ensures
        run(SessionState::Scanning, events) == SessionState::Scanning,
    decreases events.len(),
{
    if events.len() > 0 {
        assert(is_listing_without_target(events[0]));
        let rest = events.drop_first();
        assert forall|i: int| 0 <= i < rest.len() implies is_listing_without_target(
            #[trigger] rest[i],
        ) by {
            assert(rest[i] == events[i + 1]);
        }
        lemma_scan_without_target_never_ends(rest);
    }
}

} // verus!
