use crate::bus::{Backend, Bus, BusEntry, BusError};
use crate::instruction::Instruction;
use crate::opcode::{Addressing, OpCode, OpId};
use vstd::prelude::*;

verus! {

/// First address of the stack page.
pub const STACK_BASE: u16 = 0x0100;

/// Address of the little-endian reset vector.
pub const RESET_VECTOR: u16 = 0xFFFC;

/// Status register value after a reset.
pub const RESET_STATUS: u8 = 0x34;

/// The named bits of the status register, bit 0 first.
#[derive(Clone, Copy, Debug, PartialEq, Eq, Structural)]
pub enum StatusBit {
    Carry,
    Zero,
    Interrupt,
    Decimal,
    Break,
    Overflow,
    Negative,
}

impl StatusBit {
    pub open spec fn spec_index(self) -> u8 {
        match self {
            StatusBit::Carry => 0,
            StatusBit::Zero => 1,
            StatusBit::Interrupt => 2,
            StatusBit::Decimal => 3,
            StatusBit::Break => 4,
            StatusBit::Overflow => 5,
            StatusBit::Negative => 6,
        }
    }

    /// The bit's position in the status register.
    pub fn index(self) -> (r: u8)
        ensures
            r == self.spec_index(),
    {
        match self {
            StatusBit::Carry => 0,
            StatusBit::Zero => 1,
            StatusBit::Interrupt => 2,
            StatusBit::Decimal => 3,
            StatusBit::Break => 4,
            StatusBit::Overflow => 5,
            StatusBit::Negative => 6,
        }
    }
}

/// Whether `bit` is set in status value `sr`.
pub open spec fn flag(sr: u8, bit: StatusBit) -> bool {
    (sr >> bit.spec_index()) & 1u8 == 1u8
}

/// `sr` with `bit` set to `state`, every other bit kept.
pub open spec fn with_flag(sr: u8, bit: StatusBit, state: bool) -> u8 {
    if state {
        sr | (1u8 << bit.spec_index())
    } else {
        sr & !(1u8 << bit.spec_index())
    }
}

/// `sr` with Zero and Negative derived from the result `value`.
pub open spec fn with_nz(sr: u8, value: u8) -> u8 {
    with_flag(with_flag(sr, StatusBit::Zero, value == 0), StatusBit::Negative, value >= 0x80)
}

/// An operand byte read as a two's-complement offset.
pub open spec fn signed(b: u8) -> int {
    if b < 0x80 {
        b as int
    } else {
        b - 0x100
    }
}

/// Where a taken relative branch lands: `pc` plus the signed low byte of
/// `operand`, modulo 2^16.
pub open spec fn branch_target(pc: u16, operand: u16) -> u16 {
    ((pc + signed(operand as u8)) % 0x10000) as u16
}

/// A zero-page pointer: `base + index` modulo 256.
pub open spec fn zero_page_index(base: u16, index: u8) -> u16 {
    (((base as u8) + index) % 0x100) as u16
}

/// The carry-in as a number.
pub open spec fn carry_in(sr: u8) -> int {
    if flag(sr, StatusBit::Carry) {
        1
    } else {
        0
    }
}

/// The full sum that ADC computes.
pub open spec fn adc_sum(ac: u8, operand: u8, sr: u8) -> int {
    ac + operand + carry_in(sr)
}

/// The sum's sign differs from that of two like-signed addends.
pub open spec fn adc_overflow(ac: u8, operand: u8, result: u8) -> bool {
    (ac < 0x80) == (operand < 0x80) && (result < 0x80) != (ac < 0x80)
}

proof fn lemma_bit_set_clear(sr: u8, i: u8, j: u8)
    by (bit_vector)
    requires
        i < 8,
        j < 8,
    ensures
        ((sr | (1u8 << i)) >> i) & 1u8 == 1u8,
        ((sr & !(1u8 << i)) >> i) & 1u8 == 0u8,
        i != j ==> ((sr | (1u8 << i)) >> j) & 1u8 == (sr >> j) & 1u8,
        i != j ==> ((sr & !(1u8 << i)) >> j) & 1u8 == (sr >> j) & 1u8,
{
}

/// Setting a flag to `state` makes a query of it answer `state` and leaves
/// every other flag as it was.
pub proof fn lemma_with_flag(sr: u8, bit: StatusBit, state: bool, other: StatusBit)
    ensures
        flag(with_flag(sr, bit, state), bit) == state,
        other != bit ==> flag(with_flag(sr, bit, state), other) == flag(sr, other),
{
    lemma_bit_set_clear(sr, bit.spec_index(), other.spec_index());
}

/// After a result `value` sets Zero and Negative, Zero is set exactly when
/// `value` is 0 and Negative exactly when bit 7 of `value` is 1; every
/// other flag is kept.
pub proof fn lemma_nz_flags(sr: u8, value: u8, other: StatusBit)
    ensures
        flag(with_nz(sr, value), StatusBit::Zero) == (value == 0),
        flag(with_nz(sr, value), StatusBit::Negative) == ((value >> 7u8) & 1u8 == 1u8),
        other != StatusBit::Zero && other != StatusBit::Negative ==> flag(with_nz(sr, value), other)
            == flag(sr, other),
{
    let z = with_flag(sr, StatusBit::Zero, value == 0);
    lemma_with_flag(sr, StatusBit::Zero, value == 0, StatusBit::Negative);
    lemma_with_flag(sr, StatusBit::Zero, value == 0, other);
    lemma_with_flag(z, StatusBit::Negative, value >= 0x80, StatusBit::Zero);
    lemma_with_flag(z, StatusBit::Negative, value >= 0x80, other);
    assert((value >= 0x80) == ((value >> 7u8) & 1u8 == 1u8)) by (bit_vector);
}

/// Indexed zero-page addresses stay in page zero: the sum wraps modulo 256.
pub proof fn lemma_zero_page_wraps(base: u16, index: u8)
    ensures
        zero_page_index(base, index) < 0x100,
        zero_page_index(base, index) == ((base % 0x100) + index) % 0x100,
{
    assert(base as u8 == base % 0x100) by (bit_vector);
}

/// Why an instruction could not be fetched or executed.
#[derive(Clone, Copy, Debug, PartialEq, Eq, Structural)]
pub enum CpuError {
    /// A memory access failed.
    Bus(BusError),
    /// The byte at `pc` is no valid opcode.
    InvalidOpcode { pc: u16, code: u8 },
    /// The opcode decodes but has no execution routine yet.
    Unimplemented(OpId),
    /// The addressing mode names no memory address.
    NotAddressable(Addressing),
}

/// The registers of the processor and the bus it owns.
pub struct Cpu<B: Backend> {
    pub pc: u16,
    pub ac: u8,
    pub x: u8,
    pub y: u8,
    pub sp: u8,
    pub sr: u8,
    pub bus: Bus<B>,
}

impl<B: Backend> Cpu<B> {
    pub open spec fn wf(&self) -> bool {
        self.bus.wf()
    }

    /// The byte at `addr`, or the error reading it gives.
    pub open spec fn load(&self, addr: u16) -> Result<u8, CpuError> {
        match self.bus.peek(addr) {
            Some(v) => Ok(v),
            None => Err(CpuError::Bus(BusError::Unmapped(addr))),
        }
    }

    /// The 16-bit value at `addr`, or the error reading it gives.
    pub open spec fn load_u16(&self, addr: u16) -> Result<u16, CpuError> {
        match self.bus.peek_u16(addr) {
            Ok(v) => Ok(v),
            Err(e) => Err(CpuError::Bus(e)),
        }
    }

    /// The effective address of `ins` in the current state.
    pub open spec fn address_of(&self, ins: Instruction) -> Result<u16, CpuError> {
        let op = ins.operand;
        match ins.opcode.addressing {
            Addressing::Absolute | Addressing::ZeroPage => Ok(op),
            Addressing::AbsoluteX => Ok(((op + self.x) % 0x10000) as u16),
            Addressing::AbsoluteY => Ok(((op + self.y) % 0x10000) as u16),
            Addressing::Indirect => self.load_u16(op),
            Addressing::IndirectX => self.load_u16(zero_page_index(op, self.x)),
            Addressing::IndirectY => match self.load_u16(op) {
                Ok(a) => Ok(((a + self.y) % 0x10000) as u16),
                Err(e) => Err(e),
            },
            Addressing::ZeroPageX => Ok(zero_page_index(op, self.x)),
            Addressing::ZeroPageY => Ok(zero_page_index(op, self.y)),
            Addressing::Relative => Ok(branch_target(self.pc, op)),
            m => Err(CpuError::NotAddressable(m)),
        }
    }

    /// The operand value of `ins`: the immediate byte, or the byte at its
    /// effective address.
    pub open spec fn operand_of(&self, ins: Instruction) -> Result<u8, CpuError> {
        if ins.opcode.addressing == Addressing::Immediate {
            Ok(ins.operand as u8)
        } else {
            match self.address_of(ins) {
                Ok(a) => self.load(a),
                Err(e) => Err(e),
            }
        }
    }

    /// The instruction at `pc`, as the decoder reads it.
    pub open spec fn fetch(&self) -> Result<Instruction, CpuError> {
        match self.load(self.pc) {
            Err(e) => Err(e),
            Ok(code) => match OpCode::spec_get(code) {
                None => Err(CpuError::InvalidOpcode { pc: self.pc, code }),
                Some(opcode) => {
                    let next = ((self.pc + 1) % 0x10000) as u16;
                    if opcode.bytes == 1 {
                        Ok(Instruction { opcode, operand: 0 })
                    } else if opcode.bytes == 2 {
                        match self.load(next) {
                            Ok(b) => Ok(Instruction { opcode, operand: b as u16 }),
                            Err(e) => Err(e),
                        }
                    } else {
                        match self.load_u16(next) {
                            Ok(w) => Ok(Instruction { opcode, operand: w }),
                            Err(e) => Err(e),
                        }
                    }
                },
            },
        }
    }

    /// `self` with the accumulator set to `ac` and the status to `sr`.
    pub open spec fn with_ac_sr(self, ac: u8, sr: u8) -> Self {
        Cpu { ac, sr, ..self }
    }

    pub open spec fn with_sr(self, sr: u8) -> Self {
        Cpu { sr, ..self }
    }

    /// The state after an instruction that reads operand `v` and changes
    /// only registers.
    pub open spec fn apply_operand(self, id: OpId, v: u8) -> Self {
        match id {
            OpId::ADC => {
                let sum = adc_sum(self.ac, v, self.sr);
                let result = (sum % 0x100) as u8;
                let sr = with_flag(self.sr, StatusBit::Carry, sum > 0xFF);
                let sr = with_flag(sr, StatusBit::Overflow, adc_overflow(self.ac, v, result));
                self.with_ac_sr(result, with_nz(sr, result))
            },
            OpId::AND => self.with_ac_sr(self.ac & v, with_nz(self.sr, self.ac & v)),
            OpId::BIT => {
                let sr = with_flag(self.sr, StatusBit::Zero, self.ac & v == 0);
                let sr = with_flag(sr, StatusBit::Overflow, v & 0x40 != 0);
                self.with_sr(with_flag(sr, StatusBit::Negative, v & 0x80 != 0))
            },
            OpId::CMP => self.compared(self.ac, v),
            OpId::CPX => self.compared(self.x, v),
            _ => self.compared(self.y, v),
        }
    }

    /// The state after comparing register value `reg` with `v`.
    pub open spec fn compared(self, reg: u8, v: u8) -> Self {
        let diff = ((reg - v) % 0x100) as u8;
        self.with_sr(with_nz(with_flag(self.sr, StatusBit::Carry, reg >= v), diff))
    }

    /// Whether the branch `id` is taken in status `sr`.
    pub open spec fn branch_taken(id: OpId, sr: u8) -> bool {
        match id {
            OpId::BCC => !flag(sr, StatusBit::Carry),
            OpId::BCS => flag(sr, StatusBit::Carry),
            OpId::BEQ => flag(sr, StatusBit::Zero),
            OpId::BMI => flag(sr, StatusBit::Negative),
            OpId::BNE => !flag(sr, StatusBit::Zero),
            _ => !flag(sr, StatusBit::Negative),
        }
    }

    /// The state after an instruction that neither reads nor writes
    /// memory and cannot fail.
    pub open spec fn apply_implied(self, id: OpId, operand: u16) -> Self {
        match id {
            OpId::BCC | OpId::BCS | OpId::BEQ | OpId::BMI | OpId::BNE | OpId::BPL => if Self::branch_taken(
                id,
                self.sr,
            ) {
                Cpu { pc: branch_target(self.pc, operand), ..self }
            } else {
                self
            },
            OpId::CLC => self.with_sr(with_flag(self.sr, StatusBit::Carry, false)),
            OpId::CLD => self.with_sr(with_flag(self.sr, StatusBit::Decimal, false)),
            OpId::CLI => self.with_sr(with_flag(self.sr, StatusBit::Interrupt, false)),
            OpId::DEX => {
                let x = ((self.x - 1) % 0x100) as u8;
                Cpu { x, sr: with_nz(self.sr, x), ..self }
            },
            OpId::DEY => {
                let y = ((self.y - 1) % 0x100) as u8;
                Cpu { y, sr: with_nz(self.sr, y), ..self }
            },
            OpId::ASL => {
                let r = ((self.ac * 2) % 0x100) as u8;
                self.with_ac_sr(r, with_nz(with_flag(self.sr, StatusBit::Carry, self.ac >= 0x80), r))
            },
            _ => self,
        }
    }

    /// The byte a read-modify-write instruction `id` stores for `v`.
    pub open spec fn modified(id: OpId, v: u8) -> u8 {
        match id {
            OpId::ASL => ((v * 2) % 0x100) as u8,
            _ => ((v - 1) % 0x100) as u8,
        }
    }

    /// The status after read-modify-write instruction `id` turned `v`
    /// into `modified(id, v)`.
    pub open spec fn modified_status(id: OpId, sr: u8, v: u8) -> u8 {
        match id {
            OpId::ASL => with_nz(with_flag(sr, StatusBit::Carry, v >= 0x80), Self::modified(id, v)),
            _ => with_nz(sr, Self::modified(id, v)),
        }
    }

    /// `post` and `r` are the outcome of a read-modify-write of memory by
    /// `ins` from `self`.
    pub open spec fn rmw_outcome(self, id: OpId, ins: Instruction, post: Self, r: Result<(), CpuError>) -> bool {
        match self.address_of(ins) {
            Err(e) => r == Err::<(), CpuError>(e) && post == self,
            Ok(a) => match self.load(a) {
                Err(e) => r == Err::<(), CpuError>(e) && post == self,
                Ok(v) => {
                    &&& r == Ok::<(), CpuError>(())
                    &&& post.wf()
                    &&& post.bus.written(&self.bus, a, Self::modified(id, v))
                    &&& post == (Cpu { bus: post.bus, sr: Self::modified_status(id, self.sr, v), ..self })
                },
            },
        }
    }

    /// `post` and `r` are the outcome of an instruction that reads its
    /// operand and changes only registers.
    pub open spec fn read_outcome(self, id: OpId, ins: Instruction, post: Self, r: Result<(), CpuError>) -> bool {
        match self.operand_of(ins) {
            Err(e) => r == Err::<(), CpuError>(e) && post == self,
            Ok(v) => r == Ok::<(), CpuError>(()) && post == self.apply_operand(id, v),
        }
    }

    /// `post` and `r` are the outcome of executing `ins` from `self`, the
    /// program counter already past `ins`.
    pub open spec fn exec_outcome(self, ins: Instruction, post: Self, r: Result<(), CpuError>) -> bool {
        match ins.opcode.id {
            OpId::ADC | OpId::AND | OpId::BIT | OpId::CMP | OpId::CPX | OpId::CPY => self.read_outcome(
                ins.opcode.id,
                ins,
                post,
                r,
            ),
            OpId::ASL => if ins.opcode.addressing == Addressing::Accumulator {
                r == Ok::<(), CpuError>(()) && post == self.apply_implied(OpId::ASL, ins.operand)
            } else {
                self.rmw_outcome(OpId::ASL, ins, post, r)
            },
            OpId::DEC => self.rmw_outcome(OpId::DEC, ins, post, r),
            OpId::BCC | OpId::BCS | OpId::BEQ | OpId::BMI | OpId::BNE | OpId::BPL | OpId::CLC
            | OpId::CLD | OpId::CLI | OpId::DEX | OpId::DEY | OpId::BRK => r == Ok::<(), CpuError>(())
                && post == self.apply_implied(ins.opcode.id, ins.operand),
            OpId::JMP => match self.address_of(ins) {
                Ok(a) => r == Ok::<(), CpuError>(()) && post == (Cpu { pc: a, ..self }),
                Err(e) => r == Err::<(), CpuError>(e) && post == self,
            },
            id => r == Err::<(), CpuError>(CpuError::Unimplemented(id)) && post == self,
        }
    }
}

impl<B: Backend> Cpu<B> {
    /// A processor with every register zero and an empty bus.
    pub fn new() -> (r: Cpu<B>)
        ensures
            r.wf(),
            r.pc == 0 && r.ac == 0 && r.x == 0 && r.y == 0 && r.sp == 0 && r.sr == 0,
            r.bus.entries().len() == 0,
    {
        Cpu { pc: 0, ac: 0, x: 0, y: 0, sp: 0, sr: 0, bus: Bus::new() }
    }

    /// Attaches a backend binding to the bus.
    pub fn attach_backend(&mut self, entry: BusEntry<B>)
        requires
            old(self).wf(),
            entry.wf(),
        ensures
            final(self).wf(),
            final(self).bus.entries() == old(self).bus.entries().push(entry),
            *final(self) == (Cpu { bus: final(self).bus, ..*old(self) }),
    {
        self.bus.attach(entry);
    }

    /// Loads the program counter from the reset vector and sets the status
    /// to its reset value; on a failed read nothing changes.
    pub fn reset(&mut self) -> (r: Result<(), CpuError>)
        requires
            old(self).wf(),
        ensures
            final(self).wf(),
            match old(self).load_u16(RESET_VECTOR) {
                Ok(pc) => r == Ok::<(), CpuError>(()) && *final(self) == (Cpu {
                    pc,
                    sr: RESET_STATUS,
                    ..*old(self)
                }),
                Err(e) => r == Err::<(), CpuError>(e) && *final(self) == *old(self),
            },
    {
        match self.bus.read_u16(RESET_VECTOR) {
            Ok(pc) => {
                self.pc = pc;
                self.sr = RESET_STATUS;
                Ok(())
            },
            Err(e) => Err(CpuError::Bus(e)),
        }
    }

    /// Whether `bit` is set.
    pub fn status(&self, bit: StatusBit) -> (r: bool)
        ensures
            r == flag(self.sr, bit),
    {
        self.status_u8(bit) == 1
    }

    fn status_u8(&self, bit: StatusBit) -> (r: u8)
        ensures
            r == (self.sr >> bit.spec_index()) & 1u8,
            r <= 1,
    {
        let i = bit.index();
        let sr = self.sr;
        assert((sr >> i) & 1u8 <= 1) by (bit_vector);
        (self.sr >> i) & 1u8
    }

    /// Sets `bit` to `state`, keeping every other bit.
    pub fn set_status(&mut self, bit: StatusBit, state: bool)
        ensures
            *final(self) == old(self).with_sr(with_flag(old(self).sr, bit, state)),
    {
        let mask: u8 = 1u8 << bit.index();
        if state {
            self.sr = self.sr | mask;
        } else {
            self.sr = self.sr & !mask;
        }
    }

    /// Sets Zero and Negative from `value`.
    fn update_status(&mut self, value: u8)
        ensures
            *final(self) == old(self).with_sr(with_nz(old(self).sr, value)),
    {
        self.set_status(StatusBit::Zero, value == 0);
        self.set_status(StatusBit::Negative, value >= 0x80);
    }

    fn update_ac(&mut self)
        ensures
            *final(self) == old(self).with_sr(with_nz(old(self).sr, old(self).ac)),
    {
        let ac = self.ac;
        self.update_status(ac);
    }

    fn update_x(&mut self)
        ensures
            *final(self) == old(self).with_sr(with_nz(old(self).sr, old(self).x)),
    {
        let x = self.x;
        self.update_status(x);
    }

    fn update_y(&mut self)
        ensures
            *final(self) == old(self).with_sr(with_nz(old(self).sr, old(self).y)),
    {
        let y = self.y;
        self.update_status(y);
    }

    fn read_byte(&self, addr: u16) -> (r: Result<u8, CpuError>)
        requires
            self.wf(),
        ensures
            r == self.load(addr),
    {
        match self.bus.read(addr) {
            Ok(v) => Ok(v),
            Err(e) => Err(CpuError::Bus(e)),
        }
    }

    fn read_word(&self, addr: u16) -> (r: Result<u16, CpuError>)
        requires
            self.wf(),
        ensures
            r == self.load_u16(addr),
    {
        match self.bus.read_u16(addr) {
            Ok(v) => Ok(v),
            Err(e) => Err(CpuError::Bus(e)),
        }
    }

    /// `pc` moved by the signed low byte of `operand`, modulo 2^16.
    fn relative(pc: u16, operand: u16) -> (r: u16)
        ensures
            r == branch_target(pc, operand),
    {
        let b = #[verifier::truncate] (operand as u8);
        let delta: i16 = if b < 0x80 {
            b as i16
        } else {
            b as i16 - 0x100
        };
        pc.wrapping_add_signed(delta)
    }

    /// `base + index` modulo 256, as a zero-page address.
    fn zero_page(base: u16, index: u8) -> (r: u16)
        ensures
            r == zero_page_index(base, index),
    {
        let low = #[verifier::truncate] (base as u8);
        low.wrapping_add(index) as u16
    }

    /// Decodes the instruction at `pc` without changing any state.
    fn current_instruction(&self) -> (r: Result<Instruction, CpuError>)
        requires
            self.wf(),
        ensures
            r == self.fetch(),
    {
        let code = match self.read_byte(self.pc) {
            Ok(c) => c,
            Err(e) => {
                return Err(e);
            },
        };
        let opcode = match OpCode::get(code) {
            Some(opcode) => opcode,
            None => {
                return Err(CpuError::InvalidOpcode { pc: self.pc, code });
            },
        };
        let next = self.pc.wrapping_add(1);
        if opcode.bytes == 1 {
            Ok(Instruction { opcode, operand: 0 })
        } else if opcode.bytes == 2 {
            match self.read_byte(next) {
                Ok(b) => Ok(Instruction { opcode, operand: b as u16 }),
                Err(e) => Err(e),
            }
        } else {
            match self.read_word(next) {
                Ok(w) => Ok(Instruction { opcode, operand: w }),
                Err(e) => Err(e),
            }
        }
    }

    /// The effective address of `instruction`.
    pub fn resolve_address(&self, instruction: &Instruction) -> (r: Result<u16, CpuError>)
        requires
            self.wf(),
        ensures
            r == self.address_of(*instruction),
    {
        let op = instruction.operand;
        match instruction.opcode.addressing {
            Addressing::Absolute | Addressing::ZeroPage => Ok(op),
            Addressing::AbsoluteX => Ok(op.wrapping_add(self.x as u16)),
            Addressing::AbsoluteY => Ok(op.wrapping_add(self.y as u16)),
            Addressing::Indirect => self.read_word(op),
            Addressing::IndirectX => self.read_word(Self::zero_page(op, self.x)),
            Addressing::IndirectY => match self.read_word(op) {
                Ok(a) => Ok(a.wrapping_add(self.y as u16)),
                Err(e) => Err(e),
            },
            Addressing::ZeroPageX => Ok(Self::zero_page(op, self.x)),
            Addressing::ZeroPageY => Ok(Self::zero_page(op, self.y)),
            Addressing::Relative => Ok(Self::relative(self.pc, op)),
            m => Err(CpuError::NotAddressable(m)),
        }
    }

    /// The operand value of `instruction`.
    pub fn resolve_operand(&self, instruction: &Instruction) -> (r: Result<u8, CpuError>)
        requires
            self.wf(),
        ensures
            r == self.operand_of(*instruction),
    {
        if instruction.opcode.addressing == Addressing::Immediate {
            Ok(#[verifier::truncate] (instruction.operand as u8))
        } else {
            match self.resolve_address(instruction) {
                Ok(a) => self.read_byte(a),
                Err(e) => Err(e),
            }
        }
    }
    /// Executes the decoded `instruction`; the program counter already
    /// points past it. On failure nothing changes.
    pub fn execute(&mut self, instruction: &Instruction) -> (r: Result<(), CpuError>)
        requires
            old(self).wf(),
        ensures
            final(self).wf(),
            old(self).exec_outcome(*instruction, *final(self), r),
    {
        match instruction.opcode.id {
            OpId::ADC => self.adc(instruction),
            OpId::AND => self.and(instruction),
            OpId::ASL => self.asl(instruction),
            OpId::BCC => {
                self.bcc(instruction);
                Ok(())
            },
            OpId::BCS => {
                self.bcs(instruction);
                Ok(())
            },
            OpId::BEQ => {
                self.beq(instruction);
                Ok(())
            },
            OpId::BIT => self.bit(instruction),
            OpId::BMI => {
                self.bmi(instruction);
                Ok(())
            },
            OpId::BNE => {
                self.bne(instruction);
                Ok(())
            },
            OpId::BPL => {
                self.bpl(instruction);
                Ok(())
            },
            OpId::BRK => {
                self.brk(instruction);
                Ok(())
            },
            OpId::CLC => {
                self.clc(instruction);
                Ok(())
            },
            OpId::CLD => {
                self.cld(instruction);
                Ok(())
            },
            OpId::CLI => {
                self.cli(instruction);
                Ok(())
            },
            OpId::CMP => self.cmp(instruction),
            OpId::CPX => self.cpx(instruction),
            OpId::CPY => self.cpy(instruction),
            OpId::DEC => self.dec(instruction),
            OpId::DEX => {
                self.dex(instruction);
                Ok(())
            },
            OpId::DEY => {
                self.dey(instruction);
                Ok(())
            },
            OpId::JMP => self.jmp(instruction),
            id => Err(CpuError::Unimplemented(id)),
        }
    }

    /// Runs one instruction: decode at `pc`, move `pc` past it, execute.
    /// Returns the mnemonic that ran; on any failure nothing changes.
    pub fn step(&mut self) -> (r: Result<OpId, CpuError>)
        requires
            old(self).wf(),
        ensures
            final(self).wf(),
            match old(self).fetch() {
                Err(e) => r == Err::<OpId, CpuError>(e) && *final(self) == *old(self),
                Ok(ins) => {
                    let mid = Cpu { pc: ((old(self).pc + ins.opcode.bytes) % 0x10000) as u16, ..*old(self) };
                    match r {
                        Ok(id) => id == ins.opcode.id && mid.exec_outcome(ins, *final(self), Ok(())),
                        Err(e) => mid.exec_outcome(ins, mid, Err(e)) && *final(self) == *old(self),
                    }
                },
            },
    {
        let instruction = match self.current_instruction() {
            Ok(i) => i,
            Err(e) => {
                return Err(e);
            },
        };
        let start = self.pc;
        self.pc = self.pc.wrapping_add(instruction.opcode.bytes as u16);
        match self.execute(&instruction) {
            Ok(()) => Ok(instruction.opcode.id),
            Err(e) => {
                self.pc = start;
                Err(e)
            },
        }
    }

    /// Moves `pc` by the signed operand byte.
    fn branch(&mut self, instruction: &Instruction)
        ensures
            *final(self) == (Cpu { pc: branch_target(old(self).pc, instruction.operand), ..*old(self) }),
    {
        self.pc = Self::relative(self.pc, instruction.operand);
    }

    /// Reads and modifies the byte at the effective address: ASL shifts it
    /// left, DEC decrements it.
    fn modify_memory(&mut self, id: OpId, instruction: &Instruction) -> (r: Result<(), CpuError>)
        requires
            old(self).wf(),
            id == OpId::ASL || id == OpId::DEC,
        ensures
            final(self).wf(),
            old(self).rmw_outcome(id, *instruction, *final(self), r),
    {
        let addr = match self.resolve_address(instruction) {
            Ok(a) => a,
            Err(e) => {
                return Err(e);
            },
        };
        let value = match self.read_byte(addr) {
            Ok(v) => v,
            Err(e) => {
                return Err(e);
            },
        };
        let result = if id == OpId::ASL {
            value.wrapping_mul(2)
        } else {
            value.wrapping_sub(1)
        };
        match self.bus.write(addr, result) {
            Ok(()) => {},
            Err(e) => {
                return Err(CpuError::Bus(e));
            },
        }
        if id == OpId::ASL {
            self.set_status(StatusBit::Carry, value >= 0x80);
        }
        self.update_status(result);
        Ok(())
    }

    /// Sets the flags from comparing register value `reg` with the operand.
    fn compare(&mut self, reg: u8, instruction: &Instruction) -> (r: Result<(), CpuError>)
        requires
            old(self).wf(),
        ensures
            final(self).wf(),
            match old(self).operand_of(*instruction) {
                Err(e) => r == Err::<(), CpuError>(e) && *final(self) == *old(self),
                Ok(v) => r == Ok::<(), CpuError>(()) && *final(self) == old(self).compared(reg, v),
            },
    {
        let value = match self.resolve_operand(instruction) {
            Ok(v) => v,
            Err(e) => {
                return Err(e);
            },
        };
        self.set_status(StatusBit::Carry, reg >= value);
        self.update_status(reg.wrapping_sub(value));
        Ok(())
    }

    /// Add with carry: AC + operand + Carry; sets Carry, Overflow, Zero and
    /// Negative.
    pub fn adc(&mut self, instruction: &Instruction) -> (r: Result<(), CpuError>)
        requires
            old(self).wf(),
        ensures
            final(self).wf(),
            old(self).read_outcome(OpId::ADC, *instruction, *final(self), r),
    {
        let value = match self.resolve_operand(instruction) {
            Ok(v) => v,
            Err(e) => {
                return Err(e);
            },
        };
        let ac = self.ac;
        let sum: u16 = ac as u16 + value as u16 + self.status_u8(StatusBit::Carry) as u16;
        let result = (sum % 0x100) as u8;
        self.set_status(StatusBit::Carry, sum > 0xFF);
        self.set_status(
            StatusBit::Overflow,
            (ac < 0x80) == (value < 0x80) && (result < 0x80) != (ac < 0x80),
        );
        self.ac = result;
        self.update_ac();
        Ok(())
    }

    /// AC &= operand; sets Zero and Negative.
    pub fn and(&mut self, instruction: &Instruction) -> (r: Result<(), CpuError>)
        requires
            old(self).wf(),
        ensures
            final(self).wf(),
            old(self).read_outcome(OpId::AND, *instruction, *final(self), r),
    {
        let value = match self.resolve_operand(instruction) {
            Ok(v) => v,
            Err(e) => {
                return Err(e);
            },
        };
        self.ac = self.ac & value;
        self.update_ac();
        Ok(())
    }

    /// Arithmetic shift left of AC or of a memory byte; Carry takes bit 7.
    pub fn asl(&mut self, instruction: &Instruction) -> (r: Result<(), CpuError>)
        requires
            old(self).wf(),
        ensures
            final(self).wf(),
            if instruction.opcode.addressing == Addressing::Accumulator {
                r == Ok::<(), CpuError>(()) && *final(self) == old(self).apply_implied(OpId::ASL, 0)
            } else {
                old(self).rmw_outcome(OpId::ASL, *instruction, *final(self), r)
            },
    {
        if instruction.opcode.addressing == Addressing::Accumulator {
            let carry = self.ac >= 0x80;
            self.set_status(StatusBit::Carry, carry);
            self.ac = self.ac.wrapping_mul(2);
            self.update_ac();
            Ok(())
        } else {
            self.modify_memory(OpId::ASL, instruction)
        }
    }

    /// Branch if Carry is clear.
    pub fn bcc(&mut self, instruction: &Instruction)
        ensures
            *final(self) == old(self).apply_implied(OpId::BCC, instruction.operand),
    {
        if !self.status(StatusBit::Carry) {
            self.branch(instruction);
        }
    }

    /// Branch if Carry is set.
    pub fn bcs(&mut self, instruction: &Instruction)
        ensures
            *final(self) == old(self).apply_implied(OpId::BCS, instruction.operand),
    {
        if self.status(StatusBit::Carry) {
            self.branch(instruction);
        }
    }

    /// Branch if Zero is set.
    pub fn beq(&mut self, instruction: &Instruction)
        ensures
            *final(self) == old(self).apply_implied(OpId::BEQ, instruction.operand),
    {
        if self.status(StatusBit::Zero) {
            self.branch(instruction);
        }
    }

    /// Tests AC against the operand: Zero from AC & operand, Overflow and
    /// Negative from the operand's bits 6 and 7.
    pub fn bit(&mut self, instruction: &Instruction) -> (r: Result<(), CpuError>)
        requires
            old(self).wf(),
        ensures
            final(self).wf(),
            old(self).read_outcome(OpId::BIT, *instruction, *final(self), r),
    {
        let value = match self.resolve_operand(instruction) {
            Ok(v) => v,
            Err(e) => {
                return Err(e);
            },
        };
        let ac = self.ac;
        self.set_status(StatusBit::Zero, ac & value == 0);
        self.set_status(StatusBit::Overflow, value & 0x40 != 0);
        self.set_status(StatusBit::Negative, value & 0x80 != 0);
        Ok(())
    }

    /// Branch if Negative is set.
    pub fn bmi(&mut self, instruction: &Instruction)
        ensures
            *final(self) == old(self).apply_implied(OpId::BMI, instruction.operand),
    {
        if self.status(StatusBit::Negative) {
            self.branch(instruction);
        }
    }

    /// Branch if Zero is clear.
    pub fn bne(&mut self, instruction: &Instruction)
        ensures
            *final(self) == old(self).apply_implied(OpId::BNE, instruction.operand),
    {
        if !self.status(StatusBit::Zero) {
            self.branch(instruction);
        }
    }

    /// Branch if Negative is clear.
    pub fn bpl(&mut self, instruction: &Instruction)
        ensures
            *final(self) == old(self).apply_implied(OpId::BPL, instruction.operand),
    {
        if !self.status(StatusBit::Negative) {
            self.branch(instruction);
        }
    }

    /// Break: changes no state; a host sees it as the mnemonic `step`
    /// returns and may report the processor state.
    pub fn brk(&mut self, _instruction: &Instruction)
        ensures
            *final(self) == *old(self),
    {
    }

    /// Clears Carry.
    pub fn clc(&mut self, instruction: &Instruction)
        ensures
            *final(self) == old(self).apply_implied(OpId::CLC, instruction.operand),
    {
        self.set_status(StatusBit::Carry, false);
    }

    /// Clears Decimal.
    pub fn cld(&mut self, instruction: &Instruction)
        ensures
            *final(self) == old(self).apply_implied(OpId::CLD, instruction.operand),
    {
        self.set_status(StatusBit::Decimal, false);
    }

    /// Clears Interrupt (interrupts enabled).
    pub fn cli(&mut self, instruction: &Instruction)
        ensures
            *final(self) == old(self).apply_implied(OpId::CLI, instruction.operand),
    {
        self.set_status(StatusBit::Interrupt, false);
    }

    /// Compares AC with the operand.
    pub fn cmp(&mut self, instruction: &Instruction) -> (r: Result<(), CpuError>)
        requires
            old(self).wf(),
        ensures
            final(self).wf(),
            old(self).read_outcome(OpId::CMP, *instruction, *final(self), r),
    {
        let ac = self.ac;
        self.compare(ac, instruction)
    }

    /// Compares X with the operand.
    pub fn cpx(&mut self, instruction: &Instruction) -> (r: Result<(), CpuError>)
        requires
            old(self).wf(),
        ensures
            final(self).wf(),
            old(self).read_outcome(OpId::CPX, *instruction, *final(self), r),
    {
        let x = self.x;
        self.compare(x, instruction)
    }

    /// Compares Y with the operand.
    pub fn cpy(&mut self, instruction: &Instruction) -> (r: Result<(), CpuError>)
        requires
            old(self).wf(),
        ensures
            final(self).wf(),
            old(self).read_outcome(OpId::CPY, *instruction, *final(self), r),
    {
        let y = self.y;
        self.compare(y, instruction)
    }

    /// Decrements the byte at the effective address.
    pub fn dec(&mut self, instruction: &Instruction) -> (r: Result<(), CpuError>)
        requires
            old(self).wf(),
        ensures
            final(self).wf(),
            old(self).rmw_outcome(OpId::DEC, *instruction, *final(self), r),
    {
        self.modify_memory(OpId::DEC, instruction)
    }

    /// Decrements X.
    pub fn dex(&mut self, instruction: &Instruction)
        ensures
            *final(self) == old(self).apply_implied(OpId::DEX, instruction.operand),
    {
        self.x = self.x.wrapping_sub(1);
        self.update_x();
    }

    /// Decrements Y.
    pub fn dey(&mut self, instruction: &Instruction)
        ensures
            *final(self) == old(self).apply_implied(OpId::DEY, instruction.operand),
    {
        self.y = self.y.wrapping_sub(1);
        self.update_y();
    }

    /// Jumps to the effective address.
    pub fn jmp(&mut self, instruction: &Instruction) -> (r: Result<(), CpuError>)
        requires
            old(self).wf(),
        ensures
            final(self).wf(),
            match old(self).address_of(*instruction) {
                Ok(a) => r == Ok::<(), CpuError>(()) && *final(self) == (Cpu { pc: a, ..*old(self) }),
                Err(e) => r == Err::<(), CpuError>(e) && *final(self) == *old(self),
            },
    {
        match self.resolve_address(instruction) {
            Ok(a) => {
                self.pc = a;
                Ok(())
            },
            Err(e) => Err(e),
        }
    }
}

} // verus!
