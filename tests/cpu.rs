use cpu6502::bus::{BusEntry, BusError};
use cpu6502::cpu::{Cpu, CpuError, StatusBit, RESET_STATUS, STACK_BASE};
use cpu6502::instruction::Instruction;
use cpu6502::memory::ram::Ram;
use cpu6502::opcode::{Addressing, OpCode, OpId};

fn machine() -> Cpu<Ram> {
    let mut cpu = Cpu::new();
    cpu.attach_backend(Ram::new_entry());
    cpu.attach_backend(BusEntry::new(Ram::new(), "ROM".to_string(), 0x8000));
    cpu
}

fn ins(code: u8, operand: u16) -> Instruction {
    Instruction { opcode: OpCode::get(code).unwrap(), operand }
}

fn load(cpu: &mut Cpu<Ram>, addr: u16, bytes: &[u8]) {
    for (i, b) in bytes.iter().enumerate() {
        cpu.bus.write(addr + i as u16, *b).unwrap();
    }
}

#[test]
fn new_cpu_is_zeroed() {
    let cpu: Cpu<Ram> = Cpu::new();
    assert_eq!((cpu.pc, cpu.ac, cpu.x, cpu.y, cpu.sp, cpu.sr), (0, 0, 0, 0, 0, 0));
    assert_eq!(STACK_BASE, 0x0100);
}

#[test]
fn status_bits_set_and_clear() {
    let mut cpu = machine();
    cpu.set_status(StatusBit::Overflow, true);
    assert_eq!(cpu.sr, 0x20);
    assert!(cpu.status(StatusBit::Overflow));
    assert!(!cpu.status(StatusBit::Carry));
    cpu.set_status(StatusBit::Carry, true);
    cpu.set_status(StatusBit::Overflow, false);
    assert_eq!(cpu.sr, 0x01);
    assert_eq!(StatusBit::Negative.index(), 6);
}

#[test]
fn reset_loads_vector_and_status() {
    let mut cpu = machine();
    load(&mut cpu, 0xFFFC, &[0x00, 0x80]);
    assert_eq!(cpu.reset(), Ok(()));
    assert_eq!(cpu.pc, 0x8000);
    assert_eq!(cpu.sr, 0x34);
    assert_eq!(RESET_STATUS, 0x34);
}

#[test]
fn reset_without_backend_fails() {
    let mut cpu: Cpu<Ram> = Cpu::new();
    cpu.attach_backend(Ram::new_entry());
    assert_eq!(cpu.reset(), Err(CpuError::Bus(BusError::Unmapped(0xFFFC))));
    assert_eq!(cpu.pc, 0);
}

#[test]
fn jmp_program_end_to_end() {
    let mut cpu = machine();
    load(&mut cpu, 0x8000, &[0x4C, 0x34, 0x12]);
    load(&mut cpu, 0xFFFC, &[0x00, 0x80]);
    cpu.reset().unwrap();
    assert_eq!(cpu.pc, 0x8000);
    assert_eq!(cpu.step(), Ok(OpId::JMP));
    assert_eq!(cpu.pc, 0x1234);
}

#[test]
fn jmp_indirect() {
    let mut cpu = machine();
    load(&mut cpu, 0x0200, &[0x78, 0x56]);
    cpu.jmp(&ins(0x6C, 0x0200)).unwrap();
    assert_eq!(cpu.pc, 0x5678);
}

#[test]
fn step_advances_pc_before_execution() {
    let mut cpu = machine();
    load(&mut cpu, 0x8000, &[0x18, 0xD8]);
    cpu.pc = 0x8000;
    cpu.sr = 0x09;
    assert_eq!(cpu.step(), Ok(OpId::CLC));
    assert_eq!(cpu.pc, 0x8001);
    assert_eq!(cpu.step(), Ok(OpId::CLD));
    assert_eq!(cpu.pc, 0x8002);
    assert_eq!(cpu.sr, 0);
}

#[test]
fn invalid_opcode_is_reported() {
    let mut cpu = machine();
    load(&mut cpu, 0x8000, &[0x02]);
    cpu.pc = 0x8000;
    assert_eq!(cpu.step(), Err(CpuError::InvalidOpcode { pc: 0x8000, code: 0x02 }));
    assert_eq!(cpu.pc, 0x8000);
}

#[test]
fn unimplemented_opcode_leaves_state() {
    let mut cpu = machine();
    load(&mut cpu, 0x8000, &[0xA9, 0x05]);
    cpu.pc = 0x8000;
    assert_eq!(cpu.step(), Err(CpuError::Unimplemented(OpId::LDA)));
    assert_eq!(cpu.pc, 0x8000);
    assert_eq!(cpu.ac, 0);
}

#[test]
fn unmapped_fetch_fails() {
    let mut cpu: Cpu<Ram> = Cpu::new();
    cpu.attach_backend(Ram::new_entry());
    cpu.pc = 0x9000;
    assert_eq!(cpu.step(), Err(CpuError::Bus(BusError::Unmapped(0x9000))));
}

#[test]
fn zero_page_indexing_wraps() {
    let mut cpu = machine();
    cpu.x = 0x02;
    cpu.y = 0x02;
    assert_eq!(cpu.resolve_address(&ins(0x75, 0xFF)), Ok(0x01));
    assert_eq!(cpu.resolve_address(&ins(0xB6, 0xFF)), Ok(0x01));
    load(&mut cpu, 0x0001, &[0x00, 0x90]);
    assert_eq!(cpu.resolve_address(&ins(0x61, 0xFF)), Ok(0x9000));
}

#[test]
fn absolute_and_indirect_y_addressing() {
    let mut cpu = machine();
    cpu.x = 0x10;
    cpu.y = 0x20;
    assert_eq!(cpu.resolve_address(&ins(0x7D, 0xFFF8)), Ok(0x0008));
    assert_eq!(cpu.resolve_address(&ins(0x79, 0x1000)), Ok(0x1020));
    load(&mut cpu, 0x0040, &[0x00, 0x30]);
    assert_eq!(cpu.resolve_address(&ins(0x71, 0x0040)), Ok(0x3020));
    assert_eq!(cpu.resolve_address(&ins(0x65, 0x0040)), Ok(0x0040));
}

#[test]
fn immediate_has_no_address() {
    let cpu = machine();
    assert_eq!(
        cpu.resolve_address(&ins(0x69, 0x01)),
        Err(CpuError::NotAddressable(Addressing::Immediate))
    );
    assert_eq!(
        cpu.resolve_address(&ins(0x0A, 0)),
        Err(CpuError::NotAddressable(Addressing::Accumulator))
    );
    assert_eq!(cpu.resolve_operand(&ins(0x69, 0x01)), Ok(0x01));
}

#[test]
fn relative_branch_backwards() {
    let mut cpu = machine();
    cpu.pc = 0x8002;
    cpu.set_status(StatusBit::Zero, true);
    cpu.beq(&ins(0xF0, 0xFB));
    assert_eq!(cpu.pc, 0x7FFD);
}

#[test]
fn relative_address_forward() {
    let mut cpu = machine();
    cpu.pc = 0x8002;
    assert_eq!(cpu.resolve_address(&ins(0xD0, 0x10)), Ok(0x8012));
    assert_eq!(cpu.resolve_address(&ins(0xD0, 0xFB)), Ok(0x7FFD));
}

#[test]
fn branches_follow_their_flags() {
    let mut cpu = machine();
    cpu.pc = 0x1000;
    cpu.bcc(&ins(0x90, 0x04));
    assert_eq!(cpu.pc, 0x1004);
    cpu.bcs(&ins(0xB0, 0x04));
    assert_eq!(cpu.pc, 0x1004);
    cpu.bne(&ins(0xD0, 0x04));
    assert_eq!(cpu.pc, 0x1008);
    cpu.bpl(&ins(0x10, 0x04));
    assert_eq!(cpu.pc, 0x100C);
    cpu.bmi(&ins(0x30, 0x04));
    assert_eq!(cpu.pc, 0x100C);
    cpu.set_status(StatusBit::Negative, true);
    cpu.bmi(&ins(0x30, 0xFC));
    assert_eq!(cpu.pc, 0x1008);
    cpu.beq(&ins(0xF0, 0x04));
    assert_eq!(cpu.pc, 0x1008);
    assert_eq!(cpu.sr, 0x40);
}

#[test]
fn nz_flags_from_result() {
    let mut cpu = machine();
    cpu.ac = 0xFF;
    cpu.and(&ins(0x29, 0x00)).unwrap();
    assert!(cpu.status(StatusBit::Zero));
    assert!(!cpu.status(StatusBit::Negative));
    cpu.ac = 0xFF;
    cpu.and(&ins(0x29, 0x80)).unwrap();
    assert_eq!(cpu.ac, 0x80);
    assert!(!cpu.status(StatusBit::Zero));
    assert!(cpu.status(StatusBit::Negative));
    cpu.ac = 0xFF;
    cpu.and(&ins(0x29, 0x7F)).unwrap();
    assert_eq!(cpu.ac, 0x7F);
    assert!(!cpu.status(StatusBit::Zero));
    assert!(!cpu.status(StatusBit::Negative));
}

#[test]
fn adc_carry_propagation() {
    let mut cpu = machine();
    cpu.ac = 0xFF;
    cpu.adc(&ins(0x69, 0x01)).unwrap();
    assert_eq!(cpu.ac, 0x00);
    assert!(cpu.status(StatusBit::Carry));
    assert!(cpu.status(StatusBit::Zero));
    assert!(!cpu.status(StatusBit::Overflow));
}

#[test]
fn adc_adds_incoming_carry_and_sets_overflow() {
    let mut cpu = machine();
    cpu.ac = 0x7F;
    cpu.set_status(StatusBit::Carry, true);
    cpu.adc(&ins(0x69, 0x00)).unwrap();
    assert_eq!(cpu.ac, 0x80);
    assert!(!cpu.status(StatusBit::Carry));
    assert!(cpu.status(StatusBit::Overflow));
    assert!(cpu.status(StatusBit::Negative));
}

#[test]
fn adc_reads_memory_operand() {
    let mut cpu = machine();
    load(&mut cpu, 0x0030, &[0x22]);
    cpu.ac = 0x11;
    cpu.adc(&ins(0x65, 0x0030)).unwrap();
    assert_eq!(cpu.ac, 0x33);
    assert_eq!(cpu.adc(&ins(0x6D, 0x9000)), Ok(()));
    cpu.bus.clear();
    assert_eq!(cpu.adc(&ins(0x6D, 0x9000)), Err(CpuError::Bus(BusError::Unmapped(0x9000))));
    assert_eq!(cpu.ac, 0x33);
}

#[test]
fn cmp_semantics() {
    let mut cpu = machine();
    cpu.ac = 0x10;
    cpu.cmp(&ins(0xC9, 0x20)).unwrap();
    assert!(!cpu.status(StatusBit::Carry));
    assert!(cpu.status(StatusBit::Negative));
    assert!(!cpu.status(StatusBit::Zero));
    assert_eq!(cpu.ac, 0x10);
    cpu.cmp(&ins(0xC9, 0x10)).unwrap();
    assert!(cpu.status(StatusBit::Carry));
    assert!(cpu.status(StatusBit::Zero));
}

#[test]
fn cpx_and_cpy_compare_index_registers() {
    let mut cpu = machine();
    cpu.x = 0x05;
    cpu.y = 0x01;
    cpu.cpx(&ins(0xE0, 0x03)).unwrap();
    assert!(cpu.status(StatusBit::Carry));
    assert!(!cpu.status(StatusBit::Zero));
    cpu.cpy(&ins(0xC0, 0x02)).unwrap();
    assert!(!cpu.status(StatusBit::Carry));
    assert!(cpu.status(StatusBit::Negative));
}

#[test]
fn asl_accumulator_and_memory() {
    let mut cpu = machine();
    cpu.ac = 0x81;
    cpu.asl(&ins(0x0A, 0)).unwrap();
    assert_eq!(cpu.ac, 0x02);
    assert!(cpu.status(StatusBit::Carry));
    load(&mut cpu, 0x0050, &[0x40]);
    cpu.asl(&ins(0x06, 0x0050)).unwrap();
    assert_eq!(cpu.bus.read(0x0050), Ok(0x80));
    assert!(!cpu.status(StatusBit::Carry));
    assert!(cpu.status(StatusBit::Negative));
}

#[test]
fn bit_tests_operand_bits() {
    let mut cpu = machine();
    load(&mut cpu, 0x0010, &[0xC0]);
    cpu.ac = 0x0F;
    cpu.bit(&ins(0x24, 0x0010)).unwrap();
    assert!(cpu.status(StatusBit::Zero));
    assert!(cpu.status(StatusBit::Overflow));
    assert!(cpu.status(StatusBit::Negative));
    assert_eq!(cpu.ac, 0x0F);
}

#[test]
fn dec_wraps_memory() {
    let mut cpu = machine();
    cpu.dec(&ins(0xC6, 0x0020)).unwrap();
    assert_eq!(cpu.bus.read(0x0020), Ok(0xFF));
    assert!(cpu.status(StatusBit::Negative));
    cpu.bus.write(0x0020, 1).unwrap();
    cpu.dec(&ins(0xCE, 0x0020)).unwrap();
    assert_eq!(cpu.bus.read(0x0020), Ok(0));
    assert!(cpu.status(StatusBit::Zero));
}

#[test]
fn dex_and_dey_decrement_their_register() {
    let mut cpu = machine();
    cpu.x = 1;
    cpu.y = 0;
    cpu.dex(&ins(0xCA, 0));
    assert_eq!(cpu.x, 0);
    assert!(cpu.status(StatusBit::Zero));
    cpu.dey(&ins(0x88, 0));
    assert_eq!(cpu.y, 0xFF);
    assert_eq!(cpu.x, 0);
    assert!(cpu.status(StatusBit::Negative));
    assert!(!cpu.status(StatusBit::Zero));
}

#[test]
fn flag_clearing_instructions() {
    let mut cpu = machine();
    cpu.sr = 0xFF;
    cpu.clc(&ins(0x18, 0));
    cpu.cld(&ins(0xD8, 0));
    cpu.cli(&ins(0x58, 0));
    assert_eq!(cpu.sr, 0xFF & !0x01 & !0x08 & !0x04);
}

#[test]
fn brk_changes_nothing() {
    let mut cpu = machine();
    load(&mut cpu, 0x8000, &[0x00]);
    cpu.pc = 0x8000;
    assert_eq!(cpu.step(), Ok(OpId::BRK));
    assert_eq!(cpu.pc, 0x8001);
    cpu.brk(&ins(0x00, 0));
    assert_eq!(cpu.pc, 0x8001);
}

#[test]
fn execute_dispatches_by_mnemonic() {
    let mut cpu = machine();
    cpu.ac = 3;
    assert_eq!(cpu.execute(&ins(0x69, 4)), Ok(()));
    assert_eq!(cpu.ac, 7);
    assert_eq!(cpu.execute(&ins(0xEA, 0)), Err(CpuError::Unimplemented(OpId::NOP)));
}
