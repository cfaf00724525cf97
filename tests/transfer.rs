use std::cell::RefCell;
use std::rc::Rc;

use dac8568::{Channel, Dac, DacError, FrameAction, Framing, Message};
use embedded_hal::digital::{self, OutputPin};
use embedded_hal::spi::{self, SpiBus};

#[derive(Debug, Clone, PartialEq, Eq)]
enum Event {
    SyncLow,
    SyncHigh,
    Write(Vec<u8>),
}

type Log = Rc<RefCell<Vec<Event>>>;

struct StubBus {
    log: Log,
    fail: bool,
}

impl spi::ErrorType for StubBus {
    type Error = spi::ErrorKind;
}

impl SpiBus for StubBus {
    fn read(&mut self, _words: &mut [u8]) -> Result<(), Self::Error> {
        Ok(())
    }

    fn write(&mut self, words: &[u8]) -> Result<(), Self::Error> {
        self.log.borrow_mut().push(Event::Write(words.to_vec()));
        if self.fail {
            Err(spi::ErrorKind::Other)
        } else {
            Ok(())
        }
    }

    fn transfer(&mut self, _read: &mut [u8], _write: &[u8]) -> Result<(), Self::Error> {
        Ok(())
    }

    fn transfer_in_place(&mut self, _words: &mut [u8]) -> Result<(), Self::Error> {
        Ok(())
    }

    fn flush(&mut self) -> Result<(), Self::Error> {
        Ok(())
    }
}

struct StubPin {
    log: Log,
    fail: bool,
}

impl digital::ErrorType for StubPin {
    type Error = digital::ErrorKind;
}

impl OutputPin for StubPin {
    fn set_low(&mut self) -> Result<(), Self::Error> {
        self.log.borrow_mut().push(Event::SyncLow);
        if self.fail {
            Err(digital::ErrorKind::Other)
        } else {
            Ok(())
        }
    }

    fn set_high(&mut self) -> Result<(), Self::Error> {
        self.log.borrow_mut().push(Event::SyncHigh);
        if self.fail {
            Err(digital::ErrorKind::Other)
        } else {
            Ok(())
        }
    }
}

fn stub_dac(bus_fails: bool, pin_fails: bool) -> (Dac<StubBus, StubPin>, Log) {
    let log: Log = Rc::new(RefCell::new(Vec::new()));
    let bus = StubBus { log: log.clone(), fail: bus_fails };
    let pin = StubPin { log: log.clone(), fail: pin_fails };
    (Dac::new(bus, pin), log)
}

fn framed(bytes: [u8; 4]) -> Vec<Event> {
    vec![Event::SyncLow, Event::Write(bytes.to_vec()), Event::SyncHigh]
}

#[test]
fn set_voltage_frames_one_write() {
    let (mut dac, log) = stub_dac(false, false);
    assert_eq!(dac.set_voltage(Channel::B, 0x1234), Ok(()));
    assert_eq!(*log.borrow(), framed([0x03, 0x11, 0x23, 0x40]));
}

#[test]
fn failed_write_still_deselects_and_reports() {
    let (mut dac, log) = stub_dac(true, false);
    assert_eq!(dac.set_voltage(Channel::B, 0x1234), Err(DacError::BusWriteError));
    assert_eq!(*log.borrow(), framed([0x03, 0x11, 0x23, 0x40]));
}

#[test]
fn pin_failures_are_ignored() {
    let (mut dac, log) = stub_dac(false, true);
    assert_eq!(dac.set_voltage(Channel::A, 7), Ok(()));
    assert_eq!(*log.borrow(), framed([0x03, 0x00, 0x00, 0x70]));
}

#[test]
fn inverted_output_reflects_value() {
    let (mut dac, log) = stub_dac(false, false);
    assert!(!dac.is_inverted());
    dac.set_inverted_output(true);
    assert!(dac.is_inverted());
    assert_eq!(dac.set_voltage(Channel::A, 0), Ok(()));
    assert_eq!(*log.borrow(), framed([0x03, 0x0f, 0xff, 0xf0]));
}

#[test]
fn reference_mode_transfers() {
    let (mut dac, log) = stub_dac(false, false);
    assert_eq!(dac.use_internal_reference(), Ok(()));
    assert_eq!(dac.use_external_reference(), Ok(()));
    let mut want = framed([0x08, 0x00, 0x00, 0x01]);
    want.extend(framed([0x08, 0x00, 0x00, 0x00]));
    assert_eq!(*log.borrow(), want);
}

#[test]
fn reset_ignores_inversion_policy() {
    let (mut dac, log) = stub_dac(false, false);
    dac.set_inverted_output(true);
    assert_eq!(dac.reset(), Ok(()));
    assert_eq!(*log.borrow(), framed([0x1c, 0x00, 0x00, 0x00]));
}

#[test]
fn reset_reports_bus_failure() {
    let (mut dac, log) = stub_dac(true, true);
    assert_eq!(dac.reset(), Err(DacError::BusWriteError));
    assert_eq!(*log.borrow(), framed([0x1c, 0x00, 0x00, 0x00]));
}

#[test]
fn repeated_operation_gives_identical_transfers() {
    let (mut dac, log) = stub_dac(false, false);
    dac.set_inverted_output(true);
    assert_eq!(dac.set_voltage(Channel::F, 300), Ok(()));
    assert_eq!(dac.set_voltage(Channel::F, 300), Ok(()));
    let events = log.borrow();
    assert_eq!(events.len(), 6);
    assert_eq!(events[0..3], events[3..6]);
}

#[test]
fn release_returns_bus_and_pin() {
    let (dac, log) = stub_dac(true, false);
    let (bus, pin) = dac.release();
    assert!(bus.fail);
    assert!(!pin.fail);
    assert!(log.borrow().is_empty());
}

#[test]
fn framing_runs_select_write_deselect() {
    let payload = Message::get_software_reset_message().get_payload_bytes();
    let mut frame = Framing::new(payload);
    assert!(matches!(frame.next_action(), FrameAction::SelectDevice));
    frame.complete(false);
    match frame.next_action() {
        FrameAction::Write(b) => assert_eq!(b, payload),
        other => panic!("unexpected action {:?}", other),
    }
    frame.complete(true);
    assert!(matches!(frame.next_action(), FrameAction::DeselectDevice));
    assert!(!frame.is_complete());
    frame.complete(false);
    assert!(frame.is_complete());
    assert!(matches!(frame.next_action(), FrameAction::Finish(Ok(()))));
}

#[test]
fn framing_reports_failed_write() {
    let mut frame = Framing::new([1, 2, 3, 4]);
    frame.complete(true);
    frame.complete(false);
    frame.complete(true);
    assert!(frame.is_complete());
    assert!(matches!(frame.next_action(), FrameAction::Finish(Err(DacError::BusWriteError))));
}

#[test]
fn default_handle_is_not_inverted() {
    let (mut dac, log) = stub_dac(false, false);
    assert_eq!(dac.set_voltage(Channel::H, 0xffff), Ok(()));
    assert_eq!(*log.borrow(), framed([0x03, 0x7f, 0xff, 0xf0]));
}

#[test]
fn one_failed_write_is_not_retried() {
    let (mut dac, log) = stub_dac(true, false);
    assert_eq!(dac.set_voltage(Channel::C, 0x8000), Err(DacError::BusWriteError));
    assert_eq!(*log.borrow(), framed([0x03, 0x28, 0x00, 0x00]));
}
