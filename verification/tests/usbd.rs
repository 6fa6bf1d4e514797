//! The serial capability over the real CDC-ACM implementation, driven
//! through an inert USB bus: before any host activity the port has nothing
//! to read, no flow control, and nowhere to send.

use std::sync::Mutex;

use usb_device::bus::{PollResult, UsbBus, UsbBusAllocator};
use usb_device::device::{UsbDeviceBuilder, UsbVidPid};
use usb_device::endpoint::{EndpointAddress, EndpointType};
use usb_device::{UsbDirection, UsbError};
use usbd_serial::SerialPort;
use wasefire_core::serial::{Api, CdcPort, Event, Serial, TransportError, WithSerial};

/// A bus with no host on the other side: endpoint allocation succeeds, all
/// transfers would block.
struct InertBus {
    next_endpoint: Mutex<u8>,
}

impl UsbBus for InertBus {
    fn alloc_ep(
        &mut self,
        ep_dir: UsbDirection,
        ep_addr: Option<EndpointAddress>,
        _ep_type: EndpointType,
        _max_packet_size: u16,
        _interval: u8,
    ) -> usb_device::Result<EndpointAddress> {
        if let Some(addr) = ep_addr {
            return Ok(addr);
        }
        let mut next = self.next_endpoint.lock().unwrap();
        *next += 1;
        Ok(EndpointAddress::from_parts(*next as usize, ep_dir))
    }

    fn enable(&mut self) {}

    fn reset(&self) {}

    fn set_device_address(&self, _addr: u8) {}

    fn write(&self, _ep_addr: EndpointAddress, _buf: &[u8]) -> usb_device::Result<usize> {
        Err(UsbError::WouldBlock)
    }

    fn read(&self, _ep_addr: EndpointAddress, _buf: &mut [u8]) -> usb_device::Result<usize> {
        Err(UsbError::WouldBlock)
    }

    fn set_stalled(&self, _ep_addr: EndpointAddress, _stalled: bool) {}

    fn is_stalled(&self, _ep_addr: EndpointAddress) -> bool {
        false
    }

    fn suspend(&self) {}

    fn resume(&self) {}

    fn poll(&self) -> PollResult {
        PollResult::None
    }
}

/// The board binding: a `usbd_serial` port behind the library's transport
/// surface, with the raw error translated at the boundary.
struct UsbdPort<'a>(SerialPort<'a, InertBus>);

fn translate(e: UsbError) -> TransportError {
    match e {
        UsbError::WouldBlock => TransportError::WouldBlock,
        _ => TransportError::Fault,
    }
}

impl<'a> CdcPort for UsbdPort<'a> {
    fn read(&mut self, output: &mut Vec<u8>) -> Result<usize, TransportError> {
        self.0.read(output.as_mut_slice()).map_err(translate)
    }

    fn write(&mut self, input: &[u8]) -> Result<usize, TransportError> {
        self.0.write(input).map_err(translate)
    }

    fn flush(&mut self) -> Result<(), TransportError> {
        self.0.flush().map_err(translate)
    }

    fn dtr(&self) -> bool {
        self.0.dtr()
    }
}

fn inert_serial() -> Serial<UsbdPort<'static>> {
    let bus = InertBus { next_endpoint: Mutex::new(0) };
    let allocator: &'static UsbBusAllocator<InertBus> =
        Box::leak(Box::new(UsbBusAllocator::new(bus)));
    let port = SerialPort::new(allocator);
    // Building the device completes the bus initialization, as the board
    // runner does before unmasking interrupts.
    let device = UsbDeviceBuilder::new(allocator, UsbVidPid(0x16c0, 0x27dd)).build();
    drop(device);
    Serial::new(UsbdPort(port))
}

#[test]
fn idle_cdc_port_reads_zero() {
    // Nothing pending on the real port: a successful zero-byte read.
    let mut with = WithSerial(inert_serial());
    let mut buffer = vec![0u8; 16];
    assert_eq!(with.read(&mut buffer), Ok(0));
    assert_eq!(buffer.len(), 16);
}

#[test]
fn idle_cdc_port_gates_writes_on_flow_control() {
    // The host never asserted DTR on the real port: zero accepted.
    let mut with = WithSerial(inert_serial());
    assert_eq!(with.write(&[1, 2, 3]), Ok(0));
}

#[test]
fn idle_cdc_port_flushes_cleanly() {
    let mut with = WithSerial(inert_serial());
    assert_eq!(with.flush(), Ok(()));
}

#[test]
fn idle_cdc_port_ticks_without_write_events() {
    // Flow control is down on the real port, so a polled tick with both
    // subscriptions emits only the Read hint.
    let mut serial = inert_serial();
    serial.set(&Event::Read, true);
    serial.set(&Event::Write, true);
    assert_eq!(serial.tick(true), vec![Event::Read]);
    assert_eq!(serial.tick(false), vec![]);
}
