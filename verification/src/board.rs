//! Shared board state and the interrupt-handler logic: each handler derives
//! zero or more generic events from what the hardware reported and appends
//! them to the queue, in generation order, within one critical section.
//!
//! The hardware-specific glue (reading and clearing registers, the USB poll)
//! stays in the board binding; these functions take its plain findings.

use vstd::prelude::*;

use crate::events::Events;
use crate::serial;
use crate::serial::{CdcPort, Serial};
use crate::Event;

verus! {

/// The process-wide mutable aggregate: the event queue and the peripheral
/// driver state. Constructed once before interrupts are unmasked; all access
/// is mediated by the board's critical-section discipline.
pub struct BoardState<P: CdcPort> {
    pub events: Events,
    pub serial: Serial<P>,
}

/// The button events derived from one interrupt occurrence: one per
/// triggered channel, in index order, carrying the pressed level that was
/// read.
pub open spec fn spec_button_events(buttons: Seq<Option<bool>>) -> Seq<Event>
    decreases buttons.len(),
{
    if buttons.len() == 0 {
        Seq::<Event>::empty()
    } else {
        spec_button_events(buttons.drop_last()) + (match buttons.last() {
            Some(pressed) => seq![
                Event::Button { button: (buttons.len() - 1) as usize, pressed },
            ],
            None => Seq::<Event>::empty(),
        })
    }
}

/// Serial events wrapped into the board-level taxonomy, order kept.
pub open spec fn spec_serial_events(events: Seq<serial::Event>) -> Seq<Event> {
    events.map_values(|e: serial::Event| Event::Serial(e))
}

/// Handles one edge-detector interrupt occurrence: `buttons[i]` holds the
/// pressed level of button `i` when its channel triggered, and `None` when
/// it did not. Queues one Button event per triggered channel, in index
/// order.
pub fn gpiote<P: CdcPort>(state: &mut BoardState<P>, buttons: &Vec<Option<bool>>)
    ensures
        final(state).events@ == old(state).events@ + spec_button_events(buttons@),
        final(state).serial == old(state).serial,
{
    let mut i: usize = 0;
    while i < buttons.len()
        invariant
            i <= buttons.len(),
            state.events@ == old(state).events@ + spec_button_events(buttons@.take(i as int)),
            state.serial == old(state).serial,
        decreases buttons.len() - i,
    {
        proof {
            assert(buttons@.take(i + 1 as int).drop_last() =~= buttons@.take(i as int));
            assert(buttons@.take(i + 1 as int).last() == buttons@[i as int]);
        }
        match buttons[i] {
            Some(pressed) => {
                state.events.push(Event::Button { button: i, pressed });
                proof {
                    assert(state.events@ =~= old(state).events@ + spec_button_events(
                        buttons@.take(i + 1 as int),
                    ));
                }
            },
            None => {
                proof {
                    assert(state.events@ =~= old(state).events@ + spec_button_events(
                        buttons@.take(i + 1 as int),
                    ));
                }
            },
        }
        i += 1;
    }
    proof {
        assert(buttons@.take(buttons@.len() as int) =~= buttons@);
    }
}

/// Handles one timer interrupt occurrence: queues the Timer event for the
/// fired channel. Restarting the hardware channel stays with the binding.
pub fn timer<P: CdcPort>(state: &mut BoardState<P>, timer: usize)
    ensures
        final(state).events@ == old(state).events@.push(Event::Timer { timer }),
        final(state).serial == old(state).serial,
{
    state.events.push(Event::Timer { timer });
}

/// Handles one USB interrupt occurrence, given whether the USB stack
/// reported activity for the serial endpoint: queues the serial events of
/// this poll cycle, in emission order.
pub fn usbd<P: CdcPort>(state: &mut BoardState<P>, polled: bool)
    ensures
        final(state).serial.spec_port() == old(state).serial.spec_port(),
        final(state).serial.enabled_for(serial::Event::Read) == old(state).serial.enabled_for(
            serial::Event::Read,
        ),
        final(state).serial.enabled_for(serial::Event::Write) == old(state).serial.enabled_for(
            serial::Event::Write,
        ),
        exists|dtr: bool|
            final(state).events@ == old(state).events@ + spec_serial_events(
                serial::spec_tick(
                    old(state).serial.enabled_for(serial::Event::Read),
                    old(state).serial.enabled_for(serial::Event::Write),
                    polled,
                    dtr,
                ),
            ),
{
    let events = state.serial.tick(polled);
    let ghost dtr: bool = choose|dtr: bool|
        events@ == serial::spec_tick(
            old(state).serial.enabled_for(serial::Event::Read),
            old(state).serial.enabled_for(serial::Event::Write),
            polled,
            dtr,
        );
    let mut i: usize = 0;
    while i < events.len()
        invariant
            i <= events.len(),
            state.events@ == old(state).events@ + spec_serial_events(events@.take(i as int)),
            state.serial.spec_port() == old(state).serial.spec_port(),
            state.serial.enabled_for(serial::Event::Read) == old(state).serial.enabled_for(
                serial::Event::Read,
            ),
            state.serial.enabled_for(serial::Event::Write) == old(state).serial.enabled_for(
                serial::Event::Write,
            ),
        decreases events.len() - i,
    {
        state.events.push(Event::from(events[i]));
        proof {
            assert(state.events@ =~= old(state).events@ + spec_serial_events(
                events@.take(i + 1 as int),
            ));
        }
        i += 1;
    }
    proof {
        assert(events@.take(events@.len() as int) =~= events@);
        assert(final(state).events@ == old(state).events@ + spec_serial_events(
            serial::spec_tick(
                old(state).serial.enabled_for(serial::Event::Read),
                old(state).serial.enabled_for(serial::Event::Write),
                polled,
                dtr,
            ),
        ));
    }
}

} // verus!
