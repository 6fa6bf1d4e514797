//! USB serial capability: subscription flags, flow-control-aware read/write
//! semantics, and the per-poll `tick` that turns poll results into events.
//!
//! The lower-level USB CDC serial endpoint is reached through the narrow
//! [`CdcPort`] surface that board-specific bindings supply; the driver only
//! layers subscription and flow-control logic above it, and the decisions
//! taken on each raw outcome are verified functions over plain values.

use vstd::prelude::*;

use crate::{Error, Unimplemented, Unsupported};

verus! {

/// USB serial event.
///
/// Events are hints to retry, not guarantees: the consumer checks whether a
/// read or write actually succeeds when it later acts on the event.
#[derive(Debug, PartialEq, Eq, Structural, Clone, Copy)]
pub enum Event {
    /// There might be data to read.
    Read,
    /// It might be possible to write data.
    Write,
}

/// Raw transport outcome with the would-block condition kept apart from
/// genuine faults.
#[derive(Debug, PartialEq, Eq, Structural, Clone, Copy)]
pub enum TransportError {
    /// No progress is possible right now; not an error.
    WouldBlock,
    /// The transport reported a genuine fault.
    Fault,
}

/// The polling/control surface of a USB CDC serial endpoint, supplied by a
/// board-specific hardware binding. The driver does not implement this
/// binding; it only consumes it, and it promises nothing about the data the
/// hardware happens to deliver.
pub trait CdcPort: Sized {
    /// Copies pending bytes into the front of `output` without resizing it
    /// and returns the count; would-block means nothing is pending.
    fn read(&mut self, output: &mut Vec<u8>) -> (r: Result<usize, TransportError>)
        ensures
            final(output)@.len() == old(output)@.len(),
            r matches Ok(n) ==> n <= old(output)@.len(),
    ;

    /// Accepts at most `input.len()` bytes for transmission and returns the
    /// count accepted, which is positive; would-block means no byte could be
    /// accepted.
    fn write(&mut self, input: &[u8]) -> (r: Result<usize, TransportError>)
        ensures
            r matches Ok(n) ==> 0 < n <= input@.len(),
    ;

    /// Succeeds once every previously accepted byte has been handed to the
    /// transport; would-block means data is still in flight.
    fn flush(&mut self) -> Result<(), TransportError>;

    /// The current flow-control (data-terminal-ready) state of the remote
    /// endpoint.
    fn dtr(&self) -> bool;
}

/// USB serial interface: the capability operations the scheduler invokes on
/// behalf of applet system calls.
pub trait Api: Sized {
    /// Whether the operations may be invoked at all. The `Unimplemented`
    /// variant is never callable: reaching it is a build defect.
    spec fn callable(&self) -> bool;

    spec fn ens_read(pre: Self, post: Self, out_pre: Seq<u8>, out_post: Seq<u8>, r: Result<
        usize,
        Error,
    >) -> bool;

    spec fn ens_write(pre: Self, post: Self, input: Seq<u8>, r: Result<usize, Error>) -> bool;

    spec fn ens_flush(pre: Self, post: Self, r: Result<(), Error>) -> bool;

    spec fn ens_set(pre: Self, post: Self, event: Event, enabled: bool, r: Result<
        (),
        Error,
    >) -> bool;

    /// Reads from the USB serial into a buffer; the count may be zero if
    /// there is nothing to read. Never blocks.
    fn read(&mut self, output: &mut Vec<u8>) -> (r: Result<usize, Error>)
        requires
            old(self).callable(),
        ensures
            Self::ens_read(*old(self), *final(self), old(output)@, final(output)@, r),
    ;

    /// Writes from a buffer to the USB serial; the count may be zero if the
    /// other side is not ready. Never blocks.
    fn write(&mut self, input: &[u8]) -> (r: Result<usize, Error>)
        requires
            old(self).callable(),
        ensures
            Self::ens_write(*old(self), *final(self), input@, r),
    ;

    /// Flushes the USB serial.
    fn flush(&mut self) -> (r: Result<(), Error>)
        requires
            old(self).callable(),
        ensures
            Self::ens_flush(*old(self), *final(self), r),
    ;

    /// Enables a given event to be triggered.
    fn enable(&mut self, event: &Event) -> (r: Result<(), Error>)
        requires
            old(self).callable(),
        ensures
            Self::ens_set(*old(self), *final(self), *event, true, r),
    ;

    /// Disables a given event from being triggered.
    fn disable(&mut self, event: &Event) -> (r: Result<(), Error>)
        requires
            old(self).callable(),
        ensures
            Self::ens_set(*old(self), *final(self), *event, false, r),
    ;
}

impl Api for Unimplemented {
    open spec fn callable(&self) -> bool {
        false
    }

    open spec fn ens_read(pre: Self, post: Self, out_pre: Seq<u8>, out_post: Seq<u8>, r: Result<
        usize,
        Error,
    >) -> bool {
        true
    }

    open spec fn ens_write(pre: Self, post: Self, input: Seq<u8>, r: Result<usize, Error>) -> bool {
        true
    }

    open spec fn ens_flush(pre: Self, post: Self, r: Result<(), Error>) -> bool {
        true
    }

    open spec fn ens_set(pre: Self, post: Self, event: Event, enabled: bool, r: Result<
        (),
        Error,
    >) -> bool {
        true
    }

    fn read(&mut self, output: &mut Vec<u8>) -> (r: Result<usize, Error>) {
        vstd::pervasive::unreached()
    }

    fn write(&mut self, input: &[u8]) -> (r: Result<usize, Error>) {
        vstd::pervasive::unreached()
    }

    fn flush(&mut self) -> (r: Result<(), Error>) {
        vstd::pervasive::unreached()
    }

    fn enable(&mut self, event: &Event) -> (r: Result<(), Error>) {
        vstd::pervasive::unreached()
    }

    fn disable(&mut self, event: &Event) -> (r: Result<(), Error>) {
        vstd::pervasive::unreached()
    }
}

impl Api for Unsupported {
    open spec fn callable(&self) -> bool {
        true
    }

    open spec fn ens_read(pre: Self, post: Self, out_pre: Seq<u8>, out_post: Seq<u8>, r: Result<
        usize,
        Error,
    >) -> bool {
        r == Err::<usize, Error>(Error::User) && out_post == out_pre
    }

    open spec fn ens_write(pre: Self, post: Self, input: Seq<u8>, r: Result<usize, Error>) -> bool {
        r == Err::<usize, Error>(Error::User)
    }

    open spec fn ens_flush(pre: Self, post: Self, r: Result<(), Error>) -> bool {
        r == Err::<(), Error>(Error::User)
    }

    open spec fn ens_set(pre: Self, post: Self, event: Event, enabled: bool, r: Result<
        (),
        Error,
    >) -> bool {
        r == Err::<(), Error>(Error::User)
    }

    fn read(&mut self, output: &mut Vec<u8>) -> (r: Result<usize, Error>) {
        Err(Error::User)
    }

    fn write(&mut self, input: &[u8]) -> (r: Result<usize, Error>) {
        Err(Error::User)
    }

    fn flush(&mut self) -> (r: Result<(), Error>) {
        Err(Error::User)
    }

    fn enable(&mut self, event: &Event) -> (r: Result<(), Error>) {
        Err(Error::User)
    }

    fn disable(&mut self, event: &Event) -> (r: Result<(), Error>) {
        Err(Error::User)
    }
}

/// Helper struct for boards with a CDC serial endpoint: owns the port
/// together with the two subscription flags.
pub struct Serial<P: CdcPort> {
    port: P,
    read_enabled: bool,
    write_enabled: bool,
}

/// Events emitted by one poll cycle, given the subscription flags, whether
/// the USB stack reported activity, and the flow-control (DTR) signal.
///
/// A Read event comes iff reads are subscribed and the endpoint was polled; a
/// Write event comes iff writes are subscribed and flow control is asserted,
/// independent of `polled` (level-triggered). When both come, Read is first.
pub open spec fn spec_tick(
    read_enabled: bool,
    write_enabled: bool,
    polled: bool,
    dtr: bool,
) -> Seq<Event> {
    (if read_enabled && polled {
        seq![Event::Read]
    } else {
        Seq::<Event>::empty()
    }) + (if write_enabled && dtr {
        seq![Event::Write]
    } else {
        Seq::<Event>::empty()
    })
}

/// How a raw receive outcome folds into the capability result: would-block is
/// absorbed as a successful zero-byte count, a fault becomes a world error.
pub open spec fn spec_recv_outcome(raw: Result<usize, TransportError>) -> Result<usize, Error> {
    match raw {
        Ok(n) => Ok(n),
        Err(TransportError::WouldBlock) => Ok(0),
        Err(TransportError::Fault) => Err(Error::World),
    }
}

/// How a write concludes: when flow control is not asserted nothing is
/// attempted and the count is zero; otherwise the raw outcome folds as for a
/// receive.
pub open spec fn spec_send_outcome(dtr: bool, raw: Result<usize, TransportError>) -> Result<
    usize,
    Error,
> {
    if !dtr {
        Ok(0)
    } else {
        spec_recv_outcome(raw)
    }
}

/// How a flush concludes: any transport failure, would-block included, is a
/// world error.
pub open spec fn spec_flush_outcome(raw: Result<(), TransportError>) -> Result<(), Error> {
    match raw {
        Ok(()) => Ok(()),
        Err(_) => Err(Error::World),
    }
}

/// Folds a raw receive outcome into the capability result.
pub fn recv_outcome(raw: Result<usize, TransportError>) -> (r: Result<usize, Error>)
    ensures
        r == spec_recv_outcome(raw),
{
    match raw {
        Ok(n) => Ok(n),
        Err(TransportError::WouldBlock) => Ok(0),
        Err(TransportError::Fault) => Err(Error::World),
    }
}

/// Folds a raw send outcome into the capability result, given the
/// flow-control sample that gated the attempt.
pub fn send_outcome(dtr: bool, raw: Result<usize, TransportError>) -> (r: Result<usize, Error>)
    ensures
        r == spec_send_outcome(dtr, raw),
{
    if !dtr {
        Ok(0)
    } else {
        recv_outcome(raw)
    }
}

/// Folds a raw flush outcome into the capability result.
pub fn flush_outcome(raw: Result<(), TransportError>) -> (r: Result<(), Error>)
    ensures
        r == spec_flush_outcome(raw),
{
    match raw {
        Ok(()) => Ok(()),
        Err(_) => Err(Error::World),
    }
}

impl<P: CdcPort> Serial<P> {
    /// The underlying port.
    pub closed spec fn spec_port(&self) -> P {
        self.port
    }

    /// Whether delivery of `event` is currently subscribed.
    pub closed spec fn enabled_for(&self, event: Event) -> bool {
        match event {
            Event::Read => self.read_enabled,
            Event::Write => self.write_enabled,
        }
    }

    pub fn new(port: P) -> (r: Self)
        ensures
            !r.enabled_for(Event::Read),
            !r.enabled_for(Event::Write),
            r.spec_port() == port,
    {
        Self { port, read_enabled: false, write_enabled: false }
    }

    pub fn port(&mut self) -> (r: &mut P)
        ensures
            *r == old(self).spec_port(),
            final(self).spec_port() == *final(r),
            final(self).enabled_for(Event::Read) == old(self).enabled_for(Event::Read),
            final(self).enabled_for(Event::Write) == old(self).enabled_for(Event::Write),
    {
        &mut self.port
    }

    /// Emits the events of one poll cycle, given whether the USB stack
    /// reported activity for this endpoint. The flow-control signal is
    /// sampled at call time; every possible sample obeys [`spec_tick`].
    pub fn tick(&mut self, polled: bool) -> (events: Vec<Event>)
        ensures
            final(self).spec_port() == old(self).spec_port(),
            final(self).enabled_for(Event::Read) == old(self).enabled_for(Event::Read),
            final(self).enabled_for(Event::Write) == old(self).enabled_for(Event::Write),
            exists|dtr: bool|
                events@ == spec_tick(
                    old(self).enabled_for(Event::Read),
                    old(self).enabled_for(Event::Write),
                    polled,
                    dtr,
                ),
    {
        let dtr = self.port.dtr();
        self.tick_given(polled, dtr)
    }

    /// The events of one poll cycle for a given flow-control sample: exactly
    /// what [`spec_tick`] lists, in that order.
    pub fn tick_given(&self, polled: bool, dtr: bool) -> (events: Vec<Event>)
        ensures
            events@ == spec_tick(
                self.enabled_for(Event::Read),
                self.enabled_for(Event::Write),
                polled,
                dtr,
            ),
    {
        let mut events: Vec<Event> = Vec::new();
        if self.read_enabled && polled {
            events.push(Event::Read);
        }
        if self.write_enabled && dtr {
            events.push(Event::Write);
        }
        proof {
            assert(events@ =~= spec_tick(
                self.enabled_for(Event::Read),
                self.enabled_for(Event::Write),
                polled,
                dtr,
            ));
        }
        events
    }

    /// Sets the subscription flag of one event kind and leaves the other
    /// kind, and the port, untouched: the last call for each kind wins.
    pub fn set(&mut self, event: &Event, enabled: bool)
        ensures
            forall|k: Event|
                final(self).enabled_for(k) == (if k == *event {
                    enabled
                } else {
                    old(self).enabled_for(k)
                }),
            final(self).spec_port() == old(self).spec_port(),
    {
        match event {
            Event::Read => self.read_enabled = enabled,
            Event::Write => self.write_enabled = enabled,
        }
    }
}

/// The flag of kind `k` after a sequence of subscription calls, applied
/// first to last, starting from `init`: each call updates the flag exactly
/// when it targets `k`, which is one step of [`Serial::set`].
pub open spec fn subscription_after(init: bool, calls: Seq<(Event, bool)>, k: Event) -> bool
    decreases calls.len(),
{
    if calls.len() == 0 {
        init
    } else {
        subscription_after(
            if calls.first().0 == k {
                calls.first().1
            } else {
                init
            },
            calls.drop_first(),
            k,
        )
    }
}

/// The value of the last call in `calls` that targets kind `k`, if any.
pub open spec fn last_set(calls: Seq<(Event, bool)>, k: Event) -> Option<bool>
    decreases calls.len(),
{
    if calls.len() == 0 {
        None
    } else if calls.last().0 == k {
        Some(calls.last().1)
    } else {
        last_set(calls.drop_last(), k)
    }
}

proof fn lemma_last_set_drop_first(calls: Seq<(Event, bool)>, k: Event)
    requires
        calls.len() > 0,
    ensures
        last_set(calls, k) == (match last_set(calls.drop_first(), k) {
            Some(v) => Some(v),
            None => if calls.first().0 == k {
                Some(calls.first().1)
            } else {
                None
            },
        }),
    decreases calls.len(),
{
    if calls.len() == 1 {
        assert(calls.drop_first().len() == 0);
        assert(calls.last() == calls.first());
    } else {
        assert(calls.drop_first().last() == calls.last());
        if calls.last().0 == k {
        } else {
            assert(calls.drop_last().drop_first() =~= calls.drop_first().drop_last());
            assert(calls.drop_last().first() == calls.first());
            lemma_last_set_drop_first(calls.drop_last(), k);
        }
    }
}

/// For every sequence of enable/disable calls, the last call for each event
/// kind determines its subscription state; a kind that no call targets keeps
/// its initial state. Repeating a call is idempotent as a consequence: only
/// the last targeting call counts.
pub proof fn lemma_last_write_wins(init: bool, calls: Seq<(Event, bool)>, k: Event)
    ensures
        subscription_after(init, calls, k) == (match last_set(calls, k) {
            Some(v) => v,
            None => init,
        }),
    decreases calls.len(),
{
    if calls.len() > 0 {
        let step = if calls.first().0 == k {
            calls.first().1
        } else {
            init
        };
        lemma_last_write_wins(step, calls.drop_first(), k);
        lemma_last_set_drop_first(calls, k);
    }
}

/// Without a poll no Read event is emitted, whatever the subscription state;
/// with a poll a Read event is emitted iff reads are currently subscribed.
pub proof fn lemma_tick_read(read_enabled: bool, write_enabled: bool, polled: bool, dtr: bool)
    ensures
        spec_tick(read_enabled, write_enabled, polled, dtr).contains(Event::Read) <==> (read_enabled
            && polled),
{
    let s = spec_tick(read_enabled, write_enabled, polled, dtr);
    if read_enabled && polled {
        assert(s[0] == Event::Read);
    } else {
        if write_enabled && dtr {
            assert(s =~= seq![Event::Write]);
            assert(s[0] == Event::Write);
        } else {
            assert(s =~= Seq::<Event>::empty());
        }
    }
}

/// A Write event is emitted iff writes are subscribed and the flow-control
/// signal is asserted at call time, independent of whether the endpoint was
/// polled.
pub proof fn lemma_tick_write(read_enabled: bool, write_enabled: bool, polled: bool, dtr: bool)
    ensures
        spec_tick(read_enabled, write_enabled, polled, dtr).contains(Event::Write) <==> (
        write_enabled && dtr),
{
    let s = spec_tick(read_enabled, write_enabled, polled, dtr);
    if write_enabled && dtr {
        assert(s.last() == Event::Write);
    } else {
        if read_enabled && polled {
            assert(s =~= seq![Event::Read]);
            assert(s[0] == Event::Read);
        } else {
            assert(s =~= Seq::<Event>::empty());
        }
    }
}

/// While the flow-control signal is not asserted a write concludes as a
/// successful zero-byte count, whatever the transport would have said.
pub proof fn lemma_flow_gate(raw: Result<usize, TransportError>)
    ensures
        spec_send_outcome(false, raw) == Ok::<usize, Error>(0),
{
}

/// A read or write that the transport reports as temporarily unavailable
/// concludes as a successful zero-byte count, never as an error.
pub proof fn lemma_would_block_absorbed(dtr: bool)
    ensures
        spec_recv_outcome(Err(TransportError::WouldBlock)) == Ok::<usize, Error>(0),
        spec_send_outcome(dtr, Err(TransportError::WouldBlock)) == Ok::<usize, Error>(0),
{
}

/// Helper trait for boards that hold a [`Serial`] somewhere in their state:
/// hands out exclusive access to it.
pub trait HasSerial: Sized {
    type Port: CdcPort;

    /// The serial driver held in this state.
    spec fn serial_view(&self) -> Serial<Self::Port>;

    fn serial(&mut self) -> (r: &mut Serial<Self::Port>)
        ensures
            *r == old(self).serial_view(),
            final(self).serial_view() == *final(r),
    ;
}

impl<P: CdcPort> HasSerial for Serial<P> {
    type Port = P;

    closed spec fn serial_view(&self) -> Serial<P> {
        *self
    }

    fn serial(&mut self) -> (r: &mut Serial<P>) {
        self
    }
}

/// Wrapper type implementing the full serial capability for any board state
/// that can hand out its [`Serial`].
pub struct WithSerial<T: HasSerial>(pub T);

impl<T: HasSerial> Api for WithSerial<T> {
    open spec fn callable(&self) -> bool {
        true
    }

    open spec fn ens_read(pre: Self, post: Self, out_pre: Seq<u8>, out_post: Seq<u8>, r: Result<
        usize,
        Error,
    >) -> bool {
        &&& out_post.len() == out_pre.len()
        &&& r matches Ok(n) ==> n <= out_pre.len()
        &&& r matches Err(e) ==> e == Error::World
        &&& post.0.serial_view().enabled_for(Event::Read) == pre.0.serial_view().enabled_for(
            Event::Read,
        )
        &&& post.0.serial_view().enabled_for(Event::Write) == pre.0.serial_view().enabled_for(
            Event::Write,
        )
    }

    open spec fn ens_write(pre: Self, post: Self, input: Seq<u8>, r: Result<usize, Error>) -> bool {
        &&& r matches Ok(n) ==> n <= input.len()
        &&& r matches Err(e) ==> e == Error::World
        &&& post.0.serial_view().enabled_for(Event::Read) == pre.0.serial_view().enabled_for(
            Event::Read,
        )
        &&& post.0.serial_view().enabled_for(Event::Write) == pre.0.serial_view().enabled_for(
            Event::Write,
        )
    }

    open spec fn ens_flush(pre: Self, post: Self, r: Result<(), Error>) -> bool {
        &&& r matches Err(e) ==> e == Error::World
        &&& post.0.serial_view().enabled_for(Event::Read) == pre.0.serial_view().enabled_for(
            Event::Read,
        )
        &&& post.0.serial_view().enabled_for(Event::Write) == pre.0.serial_view().enabled_for(
            Event::Write,
        )
    }

    open spec fn ens_set(pre: Self, post: Self, event: Event, enabled: bool, r: Result<
        (),
        Error,
    >) -> bool {
        &&& r is Ok
        &&& post.0.serial_view().spec_port() == pre.0.serial_view().spec_port()
        &&& forall|k: Event|
            post.0.serial_view().enabled_for(k) == (if k == event {
                enabled
            } else {
                pre.0.serial_view().enabled_for(k)
            })
    }

    /// Delegates to the transport; would-block is translated to a successful
    /// zero-byte read, any other fault to a world error.
    fn read(&mut self, output: &mut Vec<u8>) -> (r: Result<usize, Error>) {
        let serial = self.0.serial();
        let raw = serial.port().read(output);
        recv_outcome(raw)
    }

    /// Checks the flow-control signal first: while it is not asserted the
    /// write returns zero without attempting transmission. Otherwise it
    /// delegates with the same would-block-to-zero translation as a read.
    fn write(&mut self, input: &[u8]) -> (r: Result<usize, Error>) {
        let serial = self.0.serial();
        let port = serial.port();
        let dtr = port.dtr();
        if !dtr {
            return Ok(0);
        }
        let raw = port.write(input);
        send_outcome(dtr, raw)
    }

    /// Delegates to the transport; any fault is a world error.
    fn flush(&mut self) -> (r: Result<(), Error>) {
        let serial = self.0.serial();
        let raw = serial.port().flush();
        flush_outcome(raw)
    }

    fn enable(&mut self, event: &Event) -> (r: Result<(), Error>) {
        self.0.serial().set(event, true);
        Ok(())
    }

    fn disable(&mut self, event: &Event) -> (r: Result<(), Error>) {
        self.0.serial().set(event, false);
        Ok(())
    }
}

} // verus!
