//! End-to-end tests of both adapters over the mock buses.

use sensor_bus::buffer::copy_bytes;
use sensor_bus::buffer::zero_fill;
use sensor_bus::buffer::zeroed;
use sensor_bus::bus::BusFault;
use sensor_bus::mock_serial::MockPin;
use sensor_bus::mock_serial::MockSerialBus;
use sensor_bus::mock_two_wire::MockTwoWireBus;
use sensor_bus::register::Register;
use sensor_bus::serial::ClockedSerial;
use sensor_bus::two_wire::TwoWire;
use sensor_bus::types::Imu;
use sensor_bus::types::Interface;
use sensor_bus::types::Marg;

#[test]
fn register_address_encoding() {
    let r = Register::new(0x01);
    assert_eq!(r.read_address(), 0x81);
    assert_eq!(r.write_address(), 0x01);
    let s = Register::new(0x75);
    assert_eq!(s.read_address(), 0xF5);
    assert_eq!(s.write_address(), 0x75);
}

#[test]
fn serial_write_frame_and_select_window() {
    let mut ad = ClockedSerial::new(MockSerialBus::new(), MockPin::new());
    let r = Register::new(0x01);
    let res = ad.write(r, 0x07);
    assert_eq!(res, Ok(()));
    // the select line was low exactly during the transaction window
    assert_eq!(ad.ncs.levels, vec![false, true]);
    // exactly one write transfer, of [write address, value]
    assert_eq!(ad.bus.records.len(), 1);
    assert!(ad.bus.records[0].write_only);
    assert_eq!(ad.bus.records[0].out, vec![0x01, 0x07]);
}

#[test]
fn serial_read_issues_one_sized_transfer() {
    let mut bus = MockSerialBus::new();
    bus.regs[1] = 0xAA;
    bus.regs[2] = 0xBB;
    bus.regs[3] = 0xCC;
    bus.regs[4] = 0xDD;
    bus.regs[5] = 0xEE;
    let mut ad = ClockedSerial::new(bus, MockPin::new());
    let r = Register::new(0x01);
    let mut buf = zeroed(6);
    let res = ad.read_many(r, &mut buf);
    assert_eq!(res, Ok(()));
    // exactly one transfer of exactly the requested size
    assert_eq!(ad.bus.records.len(), 1);
    assert_eq!(ad.bus.records[0].out.len(), 6);
    // first outgoing byte is the read address, the rest zero filler
    assert_eq!(ad.bus.records[0].out, vec![0x81, 0, 0, 0, 0, 0]);
    // the result is the 6 bytes the mock device returned
    assert_eq!(buf, vec![0x00, 0xAA, 0xBB, 0xCC, 0xDD, 0xEE]);
    assert_eq!(ad.bus.records[0].back, buf);
    assert_eq!(ad.ncs.levels, vec![false, true]);
}

#[test]
fn serial_round_trip() {
    let mut ad = ClockedSerial::new(MockSerialBus::new(), MockPin::new());
    let r = Register::new(0x10);
    assert_eq!(ad.write(r, 0x5A), Ok(()));
    let mut buf = zeroed(2);
    assert_eq!(ad.read_many(r, &mut buf), Ok(()));
    assert_eq!(buf[1], 0x5A);
}

#[test]
fn serial_failed_read_leaves_select_asserted() {
    let mut bus = MockSerialBus::new();
    bus.fail = true;
    let mut ad = ClockedSerial::new(bus, MockPin::new());
    let r = Register::new(0x01);
    let mut buf = vec![0x99, 0x99, 0x99, 0x99];
    let res = ad.read_many(r, &mut buf);
    assert_eq!(res, Err(BusFault));
    // the known defect, preserved: the line stays asserted after a failure
    assert_eq!(ad.ncs.levels, vec![false]);
    // no transaction was completed
    assert_eq!(ad.bus.records.len(), 0);
    // every observable byte is deterministic: the zero-filled read frame
    assert_eq!(buf, vec![0x81, 0, 0, 0]);
}

#[test]
fn serial_failed_write_leaves_select_asserted() {
    let mut bus = MockSerialBus::new();
    bus.fail = true;
    let mut ad = ClockedSerial::new(bus, MockPin::new());
    let r = Register::new(0x01);
    assert_eq!(ad.write(r, 0x07), Err(BusFault));
    assert_eq!(ad.ncs.levels, vec![false]);
    assert_eq!(ad.bus.records.len(), 0);
}

#[test]
fn two_wire_write_uses_read_address() {
    let mut ad = TwoWire::new(MockTwoWireBus::new(), 0x68);
    let r = Register::new(0x01);
    let res = ad.write(r, 0x07);
    assert_eq!(res, Ok(()));
    assert_eq!(ad.bus.records.len(), 1);
    assert!(!ad.bus.records[0].combined);
    assert_eq!(ad.bus.records[0].addr, 0x68);
    // the payload carries the *read* address: the preserved asymmetry
    assert_eq!(ad.bus.records[0].out, vec![0x81, 0x07]);
    assert_eq!(ad.dev, 0x68);
}

#[test]
fn two_wire_read_issues_one_combined_transaction() {
    let mut bus = MockTwoWireBus::new();
    bus.regs[1] = 0x11;
    bus.regs[2] = 0x22;
    bus.regs[3] = 0x33;
    bus.regs[4] = 0x44;
    bus.regs[5] = 0x55;
    bus.regs[6] = 0x66;
    let mut ad = TwoWire::new(bus, 0x68);
    let r = Register::new(0x01);
    let mut buf = zeroed(6);
    let res = ad.read_many(r, &mut buf);
    assert_eq!(res, Ok(()));
    assert_eq!(ad.bus.records.len(), 1);
    assert!(ad.bus.records[0].combined);
    assert_eq!(ad.bus.records[0].addr, 0x68);
    assert_eq!(ad.bus.records[0].out, vec![0x81]);
    assert_eq!(buf, vec![0x11, 0x22, 0x33, 0x44, 0x55, 0x66]);
    assert_eq!(ad.bus.records[0].back, buf);
    // the stored peripheral address is never mutated
    assert_eq!(ad.dev, 0x68);
}

#[test]
fn two_wire_round_trip() {
    let mut ad = TwoWire::new(MockTwoWireBus::new(), 0x68);
    let r = Register::new(0x10);
    assert_eq!(ad.write(r, 0x5A), Ok(()));
    let mut buf = zeroed(1);
    assert_eq!(ad.read_many(r, &mut buf), Ok(()));
    assert_eq!(buf[0], 0x5A);
}

#[test]
fn two_wire_failed_read_buffer_zeroed() {
    let mut bus = MockTwoWireBus::new();
    bus.fail = true;
    let mut ad = TwoWire::new(bus, 0x68);
    let r = Register::new(0x01);
    let mut buf = vec![0x99, 0x99, 0x99];
    let res = ad.read_many(r, &mut buf);
    assert_eq!(res, Err(BusFault));
    assert_eq!(ad.bus.records.len(), 0);
    assert_eq!(buf, vec![0, 0, 0]);
}

fn write_then_read_one<I: Interface<BusFault>>(
    iface: &mut I,
    reg: Register,
    val: u8,
) -> Result<u8, BusFault> {
    iface.write(reg, val)?;
    let mut buf = zeroed(2);
    iface.read_many(reg, &mut buf)?;
    Ok(buf[1])
}

#[test]
fn capability_is_polymorphic() {
    // the same register driver code runs over either adapter
    let r = Register::new(0x20);
    let mut serial = ClockedSerial::new(MockSerialBus::new(), MockPin::new());
    assert_eq!(write_then_read_one(&mut serial, r, 0x42), Ok(0x42));
    let mut two_wire = TwoWire::new(MockTwoWireBus::new(), 0x68);
    // over two-wire the echoed byte sits one register later in the block
    assert_eq!(two_wire.write(r, 0x42), Ok(()));
    let mut buf = zeroed(1);
    assert_eq!(two_wire.read_many(r, &mut buf), Ok(()));
    assert_eq!(buf[0], 0x42);
}

#[test]
fn serial_each_call_is_one_fresh_transaction() {
    let mut ad = ClockedSerial::new(MockSerialBus::new(), MockPin::new());
    let r = Register::new(0x03);
    assert_eq!(ad.write(r, 0x01), Ok(()));
    assert_eq!(ad.write(r, 0x02), Ok(()));
    let mut buf = zeroed(2);
    assert_eq!(ad.read_many(r, &mut buf), Ok(()));
    // three calls, three transactions, three framed select windows
    assert_eq!(ad.bus.records.len(), 3);
    assert_eq!(ad.ncs.levels, vec![false, true, false, true, false, true]);
    // no state is cached across calls: the last write is what the read sees
    assert_eq!(buf[1], 0x02);
}

#[test]
fn buffer_helpers() {
    assert_eq!(zeroed(4), vec![0, 0, 0, 0]);
    let mut v = vec![1, 2, 3];
    zero_fill(&mut v);
    assert_eq!(v, vec![0, 0, 0]);
    let src = vec![9, 8, 7];
    assert_eq!(copy_bytes(&src), src);
}

#[test]
fn mode_markers_exist() {
    let _imu = Imu;
    let _marg = Marg;
}
