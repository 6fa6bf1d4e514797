use wasefire_core::board::{gpiote, timer, usbd, BoardState};
use wasefire_core::events::Events;
use wasefire_core::serial::{self, CdcPort, Serial, TransportError};
use wasefire_core::Event;

/// A transport stub with a settable flow-control signal.
struct StubPort {
    dtr: bool,
}

impl CdcPort for StubPort {
    fn read(&mut self, _output: &mut Vec<u8>) -> Result<usize, TransportError> {
        Err(TransportError::WouldBlock)
    }

    fn write(&mut self, _input: &[u8]) -> Result<usize, TransportError> {
        Err(TransportError::WouldBlock)
    }

    fn flush(&mut self) -> Result<(), TransportError> {
        Ok(())
    }

    fn dtr(&self) -> bool {
        self.dtr
    }
}

fn fresh_board(dtr: bool) -> BoardState<StubPort> {
    BoardState { events: Events::new(), serial: Serial::new(StubPort { dtr }) }
}

#[test]
fn queue_pops_in_push_order() {
    // Two pushes from two distinct occurrences pop in the same order.
    let mut events = Events::new();
    let a = Event::Button { button: 0, pressed: true };
    let b = Event::Timer { timer: 3 };
    events.push(a);
    events.push(b);
    assert_eq!(events.pop(), Some(a));
    assert_eq!(events.pop(), Some(b));
    assert_eq!(events.pop(), None);
}

#[test]
fn queue_keeps_duplicates() {
    let mut events = Events::new();
    let e = Event::Timer { timer: 1 };
    events.push(e);
    events.push(e);
    assert_eq!(events.len(), 2);
    assert_eq!(events.pop(), Some(e));
    assert_eq!(events.pop(), Some(e));
    assert_eq!(events.pop(), None);
}

#[test]
fn two_buttons_queue_in_index_order() {
    // Two buttons pressed in the same interrupt occurrence queue two Button
    // events in index order, both retrievable before a later Timer event.
    let mut state = fresh_board(false);
    gpiote(&mut state, &vec![Some(true), Some(false), None, None]);
    timer(&mut state, 2);
    assert_eq!(state.events.pop(), Some(Event::Button { button: 0, pressed: true }));
    assert_eq!(state.events.pop(), Some(Event::Button { button: 1, pressed: false }));
    assert_eq!(state.events.pop(), Some(Event::Timer { timer: 2 }));
    assert_eq!(state.events.pop(), None);
}

#[test]
fn untriggered_buttons_queue_nothing() {
    let mut state = fresh_board(false);
    gpiote(&mut state, &vec![None, None, None, None]);
    assert_eq!(state.events.pop(), None);
}

#[test]
fn timer_interrupt_queues_its_channel() {
    let mut state = fresh_board(false);
    timer(&mut state, 4);
    assert_eq!(state.events.pop(), Some(Event::Timer { timer: 4 }));
}

#[test]
fn usb_interrupt_queues_serial_events() {
    let mut state = fresh_board(true);
    state.serial.set(&serial::Event::Read, true);
    state.serial.set(&serial::Event::Write, true);
    usbd(&mut state, true);
    assert_eq!(state.events.pop(), Some(Event::Serial(serial::Event::Read)));
    assert_eq!(state.events.pop(), Some(Event::Serial(serial::Event::Write)));
    assert_eq!(state.events.pop(), None);
}

#[test]
fn usb_interrupt_without_subscription_queues_nothing() {
    let mut state = fresh_board(true);
    usbd(&mut state, true);
    assert_eq!(state.events.pop(), None);
}

#[test]
fn serial_event_converts_into_board_event() {
    assert_eq!(Event::from(serial::Event::Read), Event::Serial(serial::Event::Read));
    assert_eq!(Event::from(serial::Event::Write), Event::Serial(serial::Event::Write));
}
