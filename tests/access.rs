use gpio_regs::array::RegisterArray;
use gpio_regs::error::{ErrorKind, ReadError, WriteError};
use gpio_regs::memory::{Memory, MemoryOp, MockMemory};
use gpio_regs::pinstate::Pinstate;
use gpio_regs::port::{Addressable, Port, P0, P1};
use gpio_regs::register::{Access, Register, RegisterKind};

fn stores(ops: &[MemoryOp]) -> Vec<MemoryOp> {
    ops.iter().copied().filter(|op| matches!(op, MemoryOp::Store(_, _))).collect()
}

#[test]
fn is_valid_follows_inclusive_range() {
    let p0 = P0::port();
    assert!(p0.is_valid(0));
    assert!(p0.is_valid(31));
    assert!(!p0.is_valid(32));
    let p1 = P1::port();
    assert!(p1.is_valid(9));
    assert!(!p1.is_valid(10));
    let custom = Port::new(0x1000, 0);
    assert!(custom.is_valid(0));
    assert!(!custom.is_valid(1));
}

#[test]
fn bank_bases_and_ranges() {
    assert_eq!(P0::port().addr(), 0x5000_0000);
    assert_eq!(P0::port().valid_range, 31);
    assert_eq!(P1::port().addr(), 0x5000_0300);
    assert_eq!(P1::port().valid_range, 9);
}

#[test]
fn register_addresses_follow_layout_table() {
    let table = [
        (RegisterKind::Out, 0x504usize, Access::RW),
        (RegisterKind::OutSet, 0x508, Access::RW),
        (RegisterKind::OutClr, 0x50C, Access::RW),
        (RegisterKind::In, 0x510, Access::R),
        (RegisterKind::Dir, 0x514, Access::RW),
        (RegisterKind::DirSet, 0x518, Access::RW),
        (RegisterKind::DirClr, 0x51C, Access::RW),
        (RegisterKind::Latch, 0x520, Access::RW),
        (RegisterKind::DetectMode, 0x524, Access::RW),
    ];
    for (kind, offset, access) in table {
        let r0 = Register::of_kind(P0::port(), kind);
        assert_eq!(r0.addr(), 0x5000_0000 + offset);
        assert_eq!(r0.access, access);
        let r1 = Register::of_kind(P1::port(), kind);
        assert_eq!(r1.addr(), 0x5000_0300 + offset);
        assert_eq!(r1.offset, offset);
    }
}

#[test]
fn out_register_write_high_then_read() {
    let out = Register::of_kind(P0::port(), RegisterKind::Out);
    assert_eq!(out.addr(), 0x5000_0504);
    let mut mem = MockMemory::new();
    assert_eq!(out.write(&mut mem, 5, Pinstate::High), Ok(()));
    assert_eq!(out.read(&mut mem, 5), Ok(Pinstate::High));
    assert_eq!(mem.peek(0x5000_0504), 0x20);
}

#[test]
fn write_of_matching_bit_stores_nothing() {
    let out = Register::of_kind(P0::port(), RegisterKind::Out);
    let mut mem = MockMemory::new();
    assert_eq!(out.write(&mut mem, 7, Pinstate::Low), Ok(()));
    assert_eq!(mem.ops().as_slice(), &[MemoryOp::Load(0x5000_0504)]);

    mem.store(0x5000_0504, 0x80);
    let before = mem.ops().len();
    assert_eq!(out.write(&mut mem, 7, Pinstate::High), Ok(()));
    assert_eq!(&mem.ops()[before..], &[MemoryOp::Load(0x5000_0504)]);
    assert_eq!(mem.peek(0x5000_0504), 0x80);
}

#[test]
fn write_of_differing_bit_flips_only_that_bit() {
    let dir = Register::of_kind(P1::port(), RegisterKind::Dir);
    let mut mem = MockMemory::new();
    mem.store(0x5000_0814, 0xF0F0_000F);
    let before = mem.ops().len();
    assert_eq!(dir.write(&mut mem, 3, Pinstate::Low), Ok(()));
    assert_eq!(
        &mem.ops()[before..],
        &[MemoryOp::Load(0x5000_0814), MemoryOp::Store(0x5000_0814, 0xF0F0_0007)]
    );
    assert_eq!(dir.write(&mut mem, 9, Pinstate::High), Ok(()));
    assert_eq!(mem.peek(0x5000_0814), 0xF0F0_0207);
    assert_eq!(stores(&mem.ops()[before..]).len(), 2);
}

#[test]
fn read_reports_each_bit() {
    let input = Register::of_kind(P0::port(), RegisterKind::In);
    let mut mem = MockMemory::new();
    mem.store(0x5000_0510, 0x8000_0001);
    assert_eq!(input.read(&mut mem, 0), Ok(Pinstate::High));
    assert_eq!(input.read(&mut mem, 1), Ok(Pinstate::Low));
    assert_eq!(input.read(&mut mem, 31), Ok(Pinstate::High));
    assert_eq!(input.read_unchecked(&mut mem, 30), Pinstate::Low);
}

#[test]
fn index_past_range_is_refused_without_memory_access() {
    let out = Register::of_kind(P0::port(), RegisterKind::Out);
    let cnf = RegisterArray::pincnf(P0::port());
    let mut mem = MockMemory::new();
    assert_eq!(out.read(&mut mem, 32), Err(ReadError(ErrorKind::BadIndex)));
    assert_eq!(out.write(&mut mem, 32, Pinstate::High), Err(WriteError(ErrorKind::BadIndex)));
    assert_eq!(cnf.read_array(&mut mem, 32), Err(ReadError(ErrorKind::BadIndex)));
    assert_eq!(cnf.write_array(&mut mem, 32, 1), Err(WriteError(ErrorKind::BadIndex)));
    assert!(mem.ops().is_empty());
}

#[test]
fn bank_one_refuses_index_ten() {
    let dir = Register::of_kind(P1::port(), RegisterKind::Dir);
    let cnf = RegisterArray::pincnf(P1::port());
    let mut mem = MockMemory::new();
    assert_eq!(dir.read(&mut mem, 10), Err(ReadError(ErrorKind::BadIndex)));
    assert_eq!(cnf.write_array(&mut mem, 10, 3), Err(WriteError(ErrorKind::BadIndex)));
    assert!(mem.ops().is_empty());
    assert_eq!(cnf.write_array(&mut mem, 9, 3), Ok(()));
    assert_eq!(mem.ops().as_slice(), &[MemoryOp::Store(0x5000_0300 + 0x700 + 36, 3)]);
}

#[test]
fn pincnf_addresses_follow_formula() {
    let cnf = RegisterArray::pincnf(P0::port());
    assert_eq!(cnf.address(2), 0x5000_0708);
    let all = cnf.addresses();
    assert_eq!(all.len(), 32);
    for (i, a) in all.iter().enumerate() {
        assert_eq!(*a, 0x5000_0000 + 0x700 + i * 4);
    }
    let cnf1 = RegisterArray::pincnf(P1::port());
    assert_eq!(cnf1.address(0), 0x5000_0A00);
    assert_eq!(cnf1.address(31), 0x5000_0A7C);
}

#[test]
fn pincnf_write_then_read_keeps_every_bit() {
    let cnf = RegisterArray::pincnf(P0::port());
    let mut mem = MockMemory::new();
    assert_eq!(cnf.write_array(&mut mem, 2, 0x0000_0001), Ok(()));
    assert_eq!(cnf.read_array(&mut mem, 2), Ok(0x0000_0001));
    assert_eq!(mem.peek(0x5000_0708), 1);
    for v in [0u32, 0xFFFF_FFFF, 0x0003_070F, 0x8000_0000] {
        assert_eq!(cnf.write_array(&mut mem, 31, v), Ok(()));
        assert_eq!(cnf.read_array(&mut mem, 31), Ok(v));
        assert_eq!(cnf.read_array_unchecked(&mut mem, 31), v);
    }
}

#[test]
fn write_array_always_stores() {
    let cnf = RegisterArray::pincnf(P0::port());
    let mut mem = MockMemory::new();
    assert_eq!(cnf.write_array(&mut mem, 0, 0), Ok(()));
    assert_eq!(cnf.write_array(&mut mem, 0, 0), Ok(()));
    assert_eq!(
        mem.ops().as_slice(),
        &[MemoryOp::Store(0x5000_0700, 0), MemoryOp::Store(0x5000_0700, 0)]
    );
}

#[test]
fn custom_register_and_array() {
    let port = Port::new(0x2000, 3);
    let reg = Register::new(port, 0x10, Access::W);
    assert_eq!(reg.addr(), 0x2010);
    let arr = RegisterArray::new(port, 0x40, 4);
    assert_eq!(arr.address(3), 0x204C);
    let mut mem = MockMemory::new();
    assert_eq!(reg.write(&mut mem, 3, Pinstate::High), Ok(()));
    assert_eq!(mem.peek(0x2010), 0x8);
    assert_eq!(reg.write(&mut mem, 4, Pinstate::High), Err(WriteError(ErrorKind::BadIndex)));
}

#[test]
fn mock_memory_starts_zeroed() {
    let mut mem = MockMemory::new();
    assert_eq!(mem.peek(0x1234), 0);
    assert_eq!(mem.load(0x5000_0504), 0);
    assert_eq!(mem.ops().as_slice(), &[MemoryOp::Load(0x5000_0504)]);
}
