use cpu6502::bus::{Backend, Bus, BusEntry, BusError};
use cpu6502::memory::ram::{Ram, RAM_SIZE};

fn two_banks() -> Bus<Ram> {
    let mut bus = Bus::new();
    bus.attach(Ram::new_entry());
    bus.attach(BusEntry::new(Ram::new(), "ROM".to_string(), 0x8000));
    bus
}

#[test]
fn entry_range_is_inclusive() {
    let low = Ram::new_entry();
    assert_eq!(low.start(), 0);
    assert_eq!(low.end(), 0x7FFF);
    assert_eq!(low.name(), "RAM");
    let high = BusEntry::new(Ram::new(), "ROM".to_string(), 0x8000);
    assert_eq!(high.start(), 0x8000);
    assert_eq!(high.end(), 0xFFFF);
}

#[test]
fn ram_backend_reads_back_writes() {
    let mut ram = Ram::new();
    assert_eq!(ram.size(), RAM_SIZE);
    assert_eq!(ram.read(0x1234), 0);
    ram.write(0x1234, 0xAB);
    assert_eq!(ram.read(0x1234), 0xAB);
    assert_eq!(ram.read(0x1235), 0);
}

#[test]
fn routing_translates_to_local_offset() {
    let mut bus = two_banks();
    bus.write(0x8000, 0x11).unwrap();
    bus.write(0x0000, 0x22).unwrap();
    assert_eq!(bus.read(0x8000), Ok(0x11));
    assert_eq!(bus.read(0x0000), Ok(0x22));
    assert_eq!(bus.read(0xFFFF), Ok(0));
}

#[test]
fn entry_reads_at_offset() {
    let mut entry = BusEntry::new(Ram::new(), "ROM".to_string(), 0x8000);
    entry.write(0x8003, 0x5A);
    assert_eq!(entry.read(0x8003), 0x5A);
}

#[test]
fn unmapped_address_fails() {
    let mut bus: Bus<Ram> = Bus::new();
    bus.attach(Ram::new_entry());
    assert_eq!(bus.read(0x8000), Err(BusError::Unmapped(0x8000)));
    assert_eq!(bus.write(0xFFFF, 1), Err(BusError::Unmapped(0xFFFF)));
    assert_eq!(bus.read_u16(0x9000), Err(BusError::Unmapped(0x9000)));
    assert_eq!(bus.write_u16(0x9000, 7), Err(BusError::Unmapped(0x9000)));
}

#[test]
fn first_attached_entry_wins_on_overlap() {
    let mut bus: Bus<Ram> = Bus::new();
    bus.attach(BusEntry::new(Ram::new(), "A".to_string(), 0x4000));
    bus.attach(Ram::new_entry());
    bus.write(0x4000, 9).unwrap();
    assert_eq!(bus.read(0x4000), Ok(9));
    assert_eq!(bus.read(0x3FFF), Ok(0));
}

#[test]
fn sixteen_bit_read_is_little_endian() {
    let mut bus = two_banks();
    bus.write(0x0010, 0x34).unwrap();
    bus.write(0x0011, 0x12).unwrap();
    assert_eq!(bus.read_u16(0x0010), Ok(0x1234));
    let lo = bus.read(0x0010).unwrap() as u16;
    let hi = bus.read(0x0011).unwrap() as u16;
    assert_eq!(bus.read_u16(0x0010), Ok(lo | (hi << 8)));
}

#[test]
fn sixteen_bit_round_trip() {
    let mut bus = two_banks();
    assert_eq!(bus.write_u16(0x8100, 0xBEEF), Ok(()));
    assert_eq!(bus.read_u16(0x8100), Ok(0xBEEF));
    assert_eq!(bus.read(0x8100), Ok(0xEF));
    assert_eq!(bus.read(0x8101), Ok(0xBE));
}

#[test]
fn sixteen_bit_access_at_range_end_fails() {
    let mut bus = two_banks();
    assert_eq!(bus.read_u16(0x7FFF), Err(BusError::Unaligned(0x7FFF)));
    assert_eq!(bus.write_u16(0x7FFF, 1), Err(BusError::Unaligned(0x7FFF)));
    assert_eq!(bus.read(0x7FFF), Ok(0));
    assert_eq!(bus.read_u16(0xFFFF), Err(BusError::Unaligned(0xFFFF)));
}

#[test]
fn clear_removes_every_entry() {
    let mut bus = two_banks();
    bus.clear();
    assert_eq!(bus.read(0x0000), Err(BusError::Unmapped(0x0000)));
}
