use wasefire_core::serial::{
    flush_outcome, recv_outcome, send_outcome, Api, CdcPort, Event, Serial, TransportError,
    WithSerial,
};
use wasefire_core::{Error, Unsupported};

/// A scripted transport: full control over the flow-control signal and the
/// raw outcomes, with call counting.
struct FakePort {
    dtr: bool,
    read_outcome: Result<usize, TransportError>,
    write_outcome: Result<usize, TransportError>,
    flush_outcome: Result<(), TransportError>,
    write_calls: usize,
}

impl FakePort {
    fn new() -> Self {
        FakePort {
            dtr: false,
            read_outcome: Err(TransportError::WouldBlock),
            write_outcome: Err(TransportError::WouldBlock),
            flush_outcome: Ok(()),
            write_calls: 0,
        }
    }
}

impl CdcPort for FakePort {
    fn read(&mut self, output: &mut Vec<u8>) -> Result<usize, TransportError> {
        match self.read_outcome {
            Ok(n) => Ok(if n <= output.len() { n } else { output.len() }),
            Err(e) => Err(e),
        }
    }

    fn write(&mut self, input: &[u8]) -> Result<usize, TransportError> {
        self.write_calls += 1;
        match self.write_outcome {
            Ok(n) => {
                let n = if n <= input.len() { n } else { input.len() };
                if n == 0 {
                    Err(TransportError::WouldBlock)
                } else {
                    Ok(n)
                }
            }
            Err(e) => Err(e),
        }
    }

    fn flush(&mut self) -> Result<(), TransportError> {
        self.flush_outcome
    }

    fn dtr(&self) -> bool {
        self.dtr
    }
}

#[test]
fn new_serial_has_no_subscription() {
    let mut serial = Serial::new(FakePort::new());
    assert_eq!(serial.tick(true), vec![]);
}

#[test]
fn tick_polled_emits_read_when_subscribed() {
    // Subscribe Read only; one polled tick emits exactly one Read event.
    let mut serial = Serial::new(FakePort::new());
    serial.set(&Event::Read, true);
    let events = serial.tick(true);
    assert_eq!(events, vec![Event::Read]);
}

#[test]
fn tick_unpolled_never_emits_read() {
    let mut port = FakePort::new();
    port.dtr = true;
    let mut serial = Serial::new(port);
    serial.set(&Event::Read, true);
    serial.set(&Event::Write, true);
    // Not polled: no Read event, whatever the subscription state.
    let events = serial.tick(false);
    assert_eq!(events, vec![Event::Write]);
}

#[test]
fn tick_write_follows_flow_control_not_polling() {
    let mut serial = Serial::new(FakePort::new());
    serial.set(&Event::Write, true);
    // Flow control not asserted: no Write event even when polled.
    assert_eq!(serial.tick(true), vec![]);
    let mut port = FakePort::new();
    port.dtr = true;
    let mut serial = Serial::new(port);
    serial.set(&Event::Write, true);
    // Flow control asserted: Write event even on a cycle without polling.
    assert_eq!(serial.tick(false), vec![Event::Write]);
}

#[test]
fn tick_both_subscribed_emits_read_then_write() {
    // Subscribe both; flow control asserted; one polled tick emits exactly
    // one Read and one Write, in that order.
    let mut port = FakePort::new();
    port.dtr = true;
    let mut serial = Serial::new(port);
    serial.set(&Event::Read, true);
    serial.set(&Event::Write, true);
    let events = serial.tick(true);
    assert_eq!(events, vec![Event::Read, Event::Write]);
}

#[test]
fn tick_given_lists_every_combination() {
    let mut serial = Serial::new(FakePort::new());
    serial.set(&Event::Read, true);
    serial.set(&Event::Write, true);
    assert_eq!(serial.tick_given(true, true), vec![Event::Read, Event::Write]);
    assert_eq!(serial.tick_given(true, false), vec![Event::Read]);
    assert_eq!(serial.tick_given(false, true), vec![Event::Write]);
    assert_eq!(serial.tick_given(false, false), vec![]);
}

#[test]
fn enable_disable_last_call_wins() {
    let mut port = FakePort::new();
    port.dtr = true;
    let mut serial = Serial::new(port);
    serial.set(&Event::Read, true);
    serial.set(&Event::Read, true);
    serial.set(&Event::Write, true);
    serial.set(&Event::Read, false);
    // Read was disabled last, Write stays enabled.
    assert_eq!(serial.tick(true), vec![Event::Write]);
    serial.set(&Event::Write, false);
    serial.set(&Event::Read, true);
    assert_eq!(serial.tick(true), vec![Event::Read]);
}

#[test]
fn enable_through_api_is_idempotent() {
    let mut port = FakePort::new();
    port.dtr = true;
    let mut with = WithSerial(Serial::new(port));
    assert_eq!(with.enable(&Event::Read), Ok(()));
    assert_eq!(with.enable(&Event::Read), Ok(()));
    assert_eq!(with.0.tick(true), vec![Event::Read]);
    assert_eq!(with.disable(&Event::Read), Ok(()));
    assert_eq!(with.disable(&Event::Read), Ok(()));
    assert_eq!(with.0.tick(true), vec![]);
}

#[test]
fn write_without_flow_control_sends_nothing() {
    // Flow control not asserted: zero accepted, nothing attempted.
    let mut with = WithSerial(Serial::new(FakePort::new()));
    assert_eq!(with.write(&[1, 2, 3]), Ok(0));
    assert_eq!(with.0.port().write_calls, 0);
}

#[test]
fn would_block_is_a_zero_byte_success() {
    // The transport has nothing to do: reads and writes succeed with zero.
    let mut port = FakePort::new();
    port.dtr = true;
    let mut with = WithSerial(Serial::new(port));
    let mut buffer = vec![0u8; 8];
    assert_eq!(with.read(&mut buffer), Ok(0));
    assert_eq!(with.write(&[1, 2, 3]), Ok(0));
    assert_eq!(with.0.port().write_calls, 1);
}

#[test]
fn transport_progress_is_passed_through() {
    let mut port = FakePort::new();
    port.dtr = true;
    port.read_outcome = Ok(4);
    port.write_outcome = Ok(2);
    let mut with = WithSerial(Serial::new(port));
    let mut buffer = vec![0u8; 8];
    assert_eq!(with.read(&mut buffer), Ok(4));
    assert_eq!(buffer.len(), 8);
    assert_eq!(with.write(&[1, 2, 3]), Ok(2));
    assert_eq!(with.flush(), Ok(()));
}

#[test]
fn transport_faults_become_world_errors() {
    let mut port = FakePort::new();
    port.dtr = true;
    port.read_outcome = Err(TransportError::Fault);
    port.write_outcome = Err(TransportError::Fault);
    port.flush_outcome = Err(TransportError::Fault);
    let mut with = WithSerial(Serial::new(port));
    let mut buffer = vec![0u8; 8];
    assert_eq!(with.read(&mut buffer), Err(Error::World));
    assert_eq!(with.write(&[1]), Err(Error::World));
    assert_eq!(with.flush(), Err(Error::World));
}

#[test]
fn flush_would_block_is_a_world_error() {
    let mut port = FakePort::new();
    port.flush_outcome = Err(TransportError::WouldBlock);
    let mut with = WithSerial(Serial::new(port));
    assert_eq!(with.flush(), Err(Error::World));
}

#[test]
fn unsupported_board_reports_user_error() {
    // A board without the capability: every call is the recoverable error.
    let mut board = Unsupported;
    let mut buffer = vec![0u8; 4];
    assert_eq!(board.read(&mut buffer), Err(Error::User));
    assert_eq!(board.write(&[1, 2]), Err(Error::User));
    assert_eq!(board.flush(), Err(Error::User));
    assert_eq!(board.enable(&Event::Read), Err(Error::User));
    assert_eq!(board.disable(&Event::Write), Err(Error::User));
}

#[test]
fn outcome_translation_absorbs_would_block() {
    assert_eq!(recv_outcome(Err(TransportError::WouldBlock)), Ok(0));
    assert_eq!(recv_outcome(Ok(7)), Ok(7));
    assert_eq!(recv_outcome(Err(TransportError::Fault)), Err(Error::World));
    assert_eq!(send_outcome(true, Err(TransportError::WouldBlock)), Ok(0));
    assert_eq!(send_outcome(true, Ok(3)), Ok(3));
    // The flow-control gate comes first, whatever the transport would say.
    assert_eq!(send_outcome(false, Err(TransportError::Fault)), Ok(0));
    assert_eq!(send_outcome(false, Ok(3)), Ok(0));
    assert_eq!(flush_outcome(Ok(())), Ok(()));
    assert_eq!(flush_outcome(Err(TransportError::WouldBlock)), Err(Error::World));
    assert_eq!(flush_outcome(Err(TransportError::Fault)), Err(Error::World));
}
