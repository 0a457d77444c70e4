//! The console's CPU core: the register file with its byte and word views,
//! operand resolution against registers and bus, and the fetch-decode-execute
//! step driven by the opcode table.

use vstd::prelude::*;

use crate::addressable::{AddressError, Addressable, wrote, wrote_opt};
use crate::bus::Bus;
use crate::cpu::{
    ByteOrWord, CPUError, WidthMismatch, Word, high_of, into_word_spec, low_of, with_high,
    with_low, wrap16,
};
use crate::gameboy_cpu_inst::{Instr, Opcode, Operand, instr_spec, instruction_lookup};
use crate::timed::CycleTime;

verus! {

/// The CPU's register names: six independent 8-bit registers plus the flags
/// byte, their three fixed 16-bit pairings (first name is the high byte),
/// and the standalone 16-bit stack pointer and program counter.
#[derive(Clone, Copy, PartialEq, Eq, Structural, Debug)]
pub enum Reg {
    A,
    B,
    C,
    D,
    E,
    F,
    H,
    L,
    AF,
    BC,
    DE,
    HL,
    PC,
    SP,
}

/// Whether `r` names an 8-bit register (as opposed to a pair, SP or PC).
pub open spec fn is_byte_reg(r: Reg) -> bool {
    match r {
        Reg::A | Reg::B | Reg::C | Reg::D | Reg::E | Reg::F | Reg::H | Reg::L => true,
        _ => false,
    }
}

/// The four significant flag bits within the flags byte F (the low byte of
/// the AF pair); the remaining bits are unused.
#[derive(Clone, Copy, PartialEq, Eq, Structural, Debug)]
pub enum Flag {
    /// Zero: set if the result of an operation is 0.
    Z,
    /// Carry: set on 8-bit or 16-bit addition overflow.
    C,
    /// Subtraction: set if the last operation was a subtraction.
    N,
    /// Half-carry: set on overflow out of the low 4 bits (8-bit additions)
    /// or out of the low 12 bits (16-bit additions).
    H,
}

/// The bit position of a flag within the flags byte.
pub open spec fn flag_bit(f: Flag) -> u8 {
    match f {
        Flag::Z => 7,
        Flag::C => 6,
        Flag::N => 5,
        Flag::H => 4,
    }
}

/// The single-bit mask of a flag within the flags byte.
pub open spec fn flag_mask(f: Flag) -> u8 {
    match f {
        Flag::Z => 0x80,
        Flag::C => 0x40,
        Flag::N => 0x20,
        Flag::H => 0x10,
    }
}

/// The flag's mask widened to the 16-bit AF pair, where F is the low byte.
pub open spec fn flag_mask16(f: Flag) -> u16 {
    flag_mask(f) as u16
}

/// Shifting 1 to a flag's bit position yields exactly that flag's mask.
proof fn lemma_flag_shift(f: Flag)
    ensures
        (1u16 << (flag_bit(f) as u16)) == flag_mask16(f),
{
    assert((1u16 << 4u16) == 0x10 && (1u16 << 5u16) == 0x20 && (1u16 << 6u16) == 0x40 && (1u16
        << 7u16) == 0x80) by (bit_vector);
}

impl Flag {
    /// The bit position of this flag within the flags byte.
    pub fn bit(self) -> (r: u8)
        ensures
            r == flag_bit(self),
    {
        match self {
            Flag::Z => 7,
            Flag::C => 6,
            Flag::N => 5,
            Flag::H => 4,
        }
    }

    /// The single-bit mask of this flag within the flags byte.
    pub fn mask(self) -> (r: u8)
        ensures
            r == flag_mask(self),
    {
        match self {
            Flag::Z => 0x80,
            Flag::C => 0x40,
            Flag::N => 0x20,
            Flag::H => 0x10,
        }
    }
}

/// The register file as plain 16-bit values: the mathematical state the
/// CPU's contracts are written over. Each pair holds its two 8-bit halves in
/// the same storage, high byte first.
#[derive(Clone, Copy, PartialEq, Eq, Structural, Debug)]
pub struct RegFile {
    pub af: u16,
    pub bc: u16,
    pub de: u16,
    pub hl: u16,
    pub sp: u16,
    pub pc: u16,
}

impl RegFile {
    /// The value of an 8-bit register; meaningful only for byte registers.
    pub open spec fn reg_byte(self, r: Reg) -> u8 {
        match r {
            Reg::A => high_of(self.af),
            Reg::B => high_of(self.bc),
            Reg::C => low_of(self.bc),
            Reg::D => high_of(self.de),
            Reg::E => low_of(self.de),
            Reg::F => low_of(self.af),
            Reg::H => high_of(self.hl),
            Reg::L => low_of(self.hl),
            _ => 0,
        }
    }

    /// The value of a 16-bit register; meaningful only for word registers.
    pub open spec fn reg_word(self, r: Reg) -> u16 {
        match r {
            Reg::AF => self.af,
            Reg::BC => self.bc,
            Reg::DE => self.de,
            Reg::HL => self.hl,
            Reg::SP => self.sp,
            Reg::PC => self.pc,
            _ => 0,
        }
    }

    /// The value a register naturally holds: a byte for 8-bit registers, a
    /// word for pairs, SP and PC.
    pub open spec fn reg_value(self, r: Reg) -> ByteOrWord {
        if is_byte_reg(r) {
            ByteOrWord::Byte(self.reg_byte(r))
        } else {
            ByteOrWord::Word(self.reg_word(r))
        }
    }

    /// The register file after storing a byte into an 8-bit register,
    /// leaving the paired half untouched.
    pub open spec fn with_reg_byte(self, r: Reg, v: u8) -> RegFile {
        match r {
            Reg::A => RegFile { af: with_high(self.af, v as u16), ..self },
            Reg::B => RegFile { bc: with_high(self.bc, v as u16), ..self },
            Reg::C => RegFile { bc: with_low(self.bc, v as u16), ..self },
            Reg::D => RegFile { de: with_high(self.de, v as u16), ..self },
            Reg::E => RegFile { de: with_low(self.de, v as u16), ..self },
            Reg::F => RegFile { af: with_low(self.af, v as u16), ..self },
            Reg::H => RegFile { hl: with_high(self.hl, v as u16), ..self },
            Reg::L => RegFile { hl: with_low(self.hl, v as u16), ..self },
            _ => self,
        }
    }

    /// The register file after storing a word into a 16-bit register.
    pub open spec fn with_reg_word(self, r: Reg, v: u16) -> RegFile {
        match r {
            Reg::AF => RegFile { af: v, ..self },
            Reg::BC => RegFile { bc: v, ..self },
            Reg::DE => RegFile { de: v, ..self },
            Reg::HL => RegFile { hl: v, ..self },
            Reg::SP => RegFile { sp: v, ..self },
            Reg::PC => RegFile { pc: v, ..self },
            _ => self,
        }
    }

    /// The register file with flag `f` set.
    pub open spec fn flag_set(self, f: Flag) -> RegFile {
        RegFile { af: self.af | flag_mask16(f), ..self }
    }

    /// The register file with flag `f` cleared.
    pub open spec fn flag_clear(self, f: Flag) -> RegFile {
        RegFile { af: self.af & !flag_mask16(f), ..self }
    }

    /// The register file with the program counter advanced by `w` bytes,
    /// wrapping around the 16-bit address space.
    pub open spec fn pc_advanced(self, w: u8) -> RegFile {
        RegFile { pc: wrap16(self.pc + w), ..self }
    }
}

/// Narrows a resolved operand to a byte; a word operand has no defined byte
/// reading, so it fails with an illegal-instruction fault at `pc`.
pub open spec fn spec_expect_byte(res: Result<ByteOrWord, CPUError>, pc: u16) -> Result<
    u8,
    CPUError,
> {
    match res {
        Ok(ByteOrWord::Byte(b)) => Ok(b),
        Ok(ByteOrWord::Word(_)) => Err(CPUError::AddrErr(AddressError::IllegalInstr(pc))),
        Err(e) => Err(e),
    }
}

/// Narrows a resolved operand to a word; a byte operand has no defined word
/// reading, so it fails with an illegal-instruction fault at `pc`.
pub open spec fn spec_expect_word(res: Result<ByteOrWord, CPUError>, pc: u16) -> Result<
    u16,
    CPUError,
> {
    match res {
        Ok(ByteOrWord::Word(w)) => Ok(w),
        Ok(ByteOrWord::Byte(_)) => Err(CPUError::AddrErr(AddressError::IllegalInstr(pc))),
        Err(e) => Err(e),
    }
}

/// What one fetch-decode-execute step does, as a function of the starting
/// state: the register file it leaves behind, the bus store it commits (at
/// most one), and the cycles it returns or the fault it stops on. On a
/// fault, the registers are unchanged and no store is committed.
pub struct StepOutcome {
    pub regs: RegFile,
    pub write: Option<(u16, u8)>,
    pub result: Result<u32, CPUError>,
}

/// A failed step: registers kept, nothing written, fault `e` reported.
pub open spec fn step_fail(regs: RegFile, e: CPUError) -> StepOutcome {
    StepOutcome { regs, write: None, result: Err(e) }
}

/// How one step relates the bus state `post` to the bus state `pre` it
/// started from: the step's store (if any) took place, and then the
/// elapsed-cycle notification `t` was delivered.
pub open spec fn bus_effect<B: Bus>(pre: B, post: B, w: Option<(u16, u8)>, t: CycleTime) -> bool {
    match w {
        None => post == pre.advanced(t),
        Some((addr, data)) => exists|mid: B|
            wrote(pre, mid, addr, data) && post == mid.advanced(t),
    }
}

/// The CPU core: it exclusively owns its bus, the register file, and an
/// immutable clock frequency (Hz), and is mutated only via
/// [`step`](CPU::step) and [`interrupt`](CPU::interrupt).
pub struct CPU<B: Bus> {
    /// The bus every instruction and operand byte is fetched through.
    pub bus: B,
    /// High byte A, low byte the flags register F.
    pub af: Word,
    /// High byte B, low byte C.
    pub bc: Word,
    /// High byte D, low byte E.
    pub de: Word,
    /// High byte H, low byte L.
    pub hl: Word,
    /// Stack pointer.
    pub sp: Word,
    /// Program counter.
    pub pc: Word,
    /// Clock frequency in Hz.
    pub clock: u32,
}

impl<B: Bus> CPU<B> {
    /// The register file as plain values.
    pub open spec fn regs(&self) -> RegFile {
        RegFile { af: self.af@, bc: self.bc@, de: self.de@, hl: self.hl@, sp: self.sp@, pc: self.pc@ }
    }

    /// What resolving operand `oper` yields in this state, for an
    /// instruction located at address `ipc`: a register's natural value, a
    /// byte read through the bus for the dereferencing and immediate forms,
    /// or the fault of the first failing bus read. Operand kinds with no
    /// defined resolution fail with an illegal-instruction fault at the
    /// current program counter.
    pub open spec fn spec_resolve(&self, oper: Operand, ipc: u16) -> Result<ByteOrWord, CPUError> {
        match oper {
            Operand::Value(r) => Ok(self.regs().reg_value(r)),
            Operand::DerefReg(r) => {
                let addr = into_word_spec(self.regs().reg_value(r));
                if self.bus.mapped(addr) {
                    Ok(ByteOrWord::Byte(self.bus.at(addr)))
                } else {
                    Err(CPUError::AddrErr(AddressError::OutOfBounds(addr)))
                }
            },
            Operand::Imm8 => {
                let addr = wrap16(ipc + 1);
                if self.bus.mapped(addr) {
                    Ok(ByteOrWord::Byte(self.bus.at(addr)))
                } else {
                    Err(CPUError::AddrErr(AddressError::OutOfBounds(addr)))
                }
            },
            Operand::DerefImm8 => {
                let imm_addr = wrap16(ipc + 1);
                if !self.bus.mapped(imm_addr) {
                    Err(CPUError::AddrErr(AddressError::OutOfBounds(imm_addr)))
                } else {
                    let addr = 0xFF00u16 | (self.bus.at(imm_addr) as u16);
                    if self.bus.mapped(addr) {
                        Ok(ByteOrWord::Byte(self.bus.at(addr)))
                    } else {
                        Err(CPUError::AddrErr(AddressError::OutOfBounds(addr)))
                    }
                }
            },
            Operand::Imm16 => {
                let upper_addr = wrap16(ipc + 1);
                let lower_addr = wrap16(ipc + 2);
                if !self.bus.mapped(upper_addr) {
                    Err(CPUError::AddrErr(AddressError::OutOfBounds(upper_addr)))
                } else if !self.bus.mapped(lower_addr) {
                    Err(CPUError::AddrErr(AddressError::OutOfBounds(lower_addr)))
                } else {
                    Ok(
                        ByteOrWord::Word(
                            ((self.bus.at(upper_addr) as u16) << 8) | (self.bus.at(
                                lower_addr,
                            ) as u16),
                        ),
                    )
                }
            },
            _ => Err(CPUError::AddrErr(AddressError::IllegalInstr(self.pc@))),
        }
    }

    /// What a load instruction does in this state: the source operand is
    /// resolved to a byte; a direct-register destination stores it into the
    /// register, any other destination is resolved to an address and the
    /// byte is stored through the bus; then PC advances by the instruction
    /// width.
    pub open spec fn spec_ld(&self, instr: Instr) -> StepOutcome {
        let pc = self.pc@;
        match spec_expect_byte(self.spec_resolve(instr.src, pc), pc) {
            Err(e) => step_fail(self.regs(), e),
            Ok(b) => match instr.dst {
                Operand::Value(r) => if is_byte_reg(r) {
                    StepOutcome {
                        regs: self.regs().with_reg_byte(r, b).pc_advanced(instr.width),
                        write: None,
                        result: Ok(instr.cycles),
                    }
                } else {
                    step_fail(
                        self.regs(),
                        CPUError::BadRegisterAccess(WidthMismatch::ByteWriteToWordReg),
                    )
                },
                _ => match self.spec_resolve(instr.dst, pc) {
                    Err(e) => step_fail(self.regs(), e),
                    Ok(v) => {
                        let addr = into_word_spec(v);
                        if self.bus.mapped(addr) {
                            StepOutcome {
                                regs: self.regs().pc_advanced(instr.width),
                                write: Some((addr, b)),
                                result: Ok(instr.cycles),
                            }
                        } else {
                            step_fail(
                                self.regs(),
                                CPUError::AddrErr(AddressError::OutOfBounds(addr)),
                            )
                        }
                    },
                },
            },
        }
    }

    /// What an addition instruction does in this state. The destination must
    /// be a direct register; otherwise the instruction is illegal. The
    /// Half-carry, Carry and Subtraction flags are cleared, then Half-carry
    /// is set on overflow out of the low 4 bits (8-bit) or low 12 bits
    /// (16-bit), Carry on overflow out of the full width, the wrapped sum is
    /// stored, the Zero flag is set if the destination's new value is zero,
    /// and PC advances by the instruction width.
    pub open spec fn spec_add(&self, instr: Instr) -> StepOutcome {
        let pc = self.pc@;
        match instr.dst {
            Operand::Value(dst_reg) => if is_byte_reg(dst_reg) {
                let dst_val = self.regs().reg_byte(dst_reg);
                match spec_expect_byte(self.spec_resolve(instr.src, pc), pc) {
                    Err(e) => step_fail(self.regs(), e),
                    Ok(src_val) => {
                        let cleared = self.regs().flag_clear(Flag::H).flag_clear(
                            Flag::C,
                        ).flag_clear(Flag::N);
                        let with_h = if ((dst_val & 0xF) as u16) + ((src_val & 0xF) as u16) > 0xF {
                            cleared.flag_set(Flag::H)
                        } else {
                            cleared
                        };
                        let with_c = if dst_val + src_val > 0xFF {
                            with_h.flag_set(Flag::C)
                        } else {
                            with_h
                        };
                        let stored = with_c.with_reg_byte(
                            dst_reg,
                            ((dst_val + src_val) % 0x100) as u8,
                        );
                        let with_z = if into_word_spec(stored.reg_value(dst_reg)) == 0 {
                            stored.flag_set(Flag::Z)
                        } else {
                            stored
                        };
                        StepOutcome {
                            regs: with_z.pc_advanced(instr.width),
                            write: None,
                            result: Ok(instr.cycles),
                        }
                    },
                }
            } else {
                let dst_val = self.regs().reg_word(dst_reg);
                match spec_expect_word(self.spec_resolve(instr.src, pc), pc) {
                    Err(e) => step_fail(self.regs(), e),
                    Ok(src_val) => {
                        let cleared = self.regs().flag_clear(Flag::H).flag_clear(
                            Flag::C,
                        ).flag_clear(Flag::N);
                        let with_h = if ((dst_val & 0xFFF) as u32) + ((src_val & 0xFFF) as u32) > 0xFFF {
                            cleared.flag_set(Flag::H)
                        } else {
                            cleared
                        };
                        let with_c = if dst_val + src_val > 0xFFFF {
                            with_h.flag_set(Flag::C)
                        } else {
                            with_h
                        };
                        let stored = with_c.with_reg_word(dst_reg, wrap16(dst_val + src_val));
                        let with_z = if into_word_spec(stored.reg_value(dst_reg)) == 0 {
                            stored.flag_set(Flag::Z)
                        } else {
                            stored
                        };
                        StepOutcome {
                            regs: with_z.pc_advanced(instr.width),
                            write: None,
                            result: Ok(instr.cycles),
                        }
                    },
                }
            },
            _ => step_fail(self.regs(), CPUError::AddrErr(AddressError::IllegalInstr(pc))),
        }
    }

    /// What one fetch-decode-execute step does in this state: the opcode
    /// byte at PC is read through the bus, its table entry looked up, and
    /// the operation performed. The reserved `Invalid` sentinel, and every
    /// operation kind outside the specified NOP/LD/ADD set, stops the step
    /// with an illegal-instruction fault at PC and no state change.
    pub open spec fn spec_step(&self) -> StepOutcome {
        let pc = self.pc@;
        if !self.bus.mapped(pc) {
            step_fail(self.regs(), CPUError::AddrErr(AddressError::OutOfBounds(pc)))
        } else {
            let instr = instr_spec(self.bus.at(pc));
            match instr.opcode {
                Opcode::NOP => StepOutcome {
                    regs: self.regs().pc_advanced(instr.width),
                    write: None,
                    result: Ok(instr.cycles),
                },
                Opcode::LD => self.spec_ld(instr),
                Opcode::ADD => self.spec_add(instr),
                _ => step_fail(self.regs(), CPUError::AddrErr(AddressError::IllegalInstr(pc))),
            }
        }
    }

    /// Builds a CPU around the given bus (ownership transferred in), with
    /// every register zeroed and the given clock frequency in Hz.
    pub fn create(clock: u32, bus: B) -> (r: Self)
        ensures
            r.bus == bus,
            r.clock == clock,
            r.regs() == (RegFile { af: 0, bc: 0, de: 0, hl: 0, sp: 0, pc: 0 }),
    {
        CPU {
            bus,
            af: Word::nil(),
            bc: Word::nil(),
            de: Word::nil(),
            hl: Word::nil(),
            sp: Word::nil(),
            pc: Word::nil(),
            clock,
        }
    }

    /// Reads an 8-bit register; requesting a byte from a 16-bit-only name
    /// fails with a bad-register-access fault.
    pub fn get_reg_byte(&self, reg: Reg) -> (r: Result<u8, CPUError>)
        ensures
            r == (if is_byte_reg(reg) {
                Ok::<u8, CPUError>(self.regs().reg_byte(reg))
            } else {
                Err::<u8, CPUError>(
                    CPUError::BadRegisterAccess(WidthMismatch::ByteReadFromWordReg),
                )
            }),
    {
        match reg {
            Reg::A => Ok(self.af.get_high()),
            Reg::B => Ok(self.bc.get_high()),
            Reg::C => Ok(self.bc.get_low()),
            Reg::D => Ok(self.de.get_high()),
            Reg::E => Ok(self.de.get_low()),
            Reg::F => Ok(self.af.get_low()),
            Reg::H => Ok(self.hl.get_high()),
            Reg::L => Ok(self.hl.get_low()),
            _ => Err(CPUError::BadRegisterAccess(WidthMismatch::ByteReadFromWordReg)),
        }
    }

    /// Reads a 16-bit register; requesting a word from an 8-bit name fails
    /// with a bad-register-access fault.
    pub fn get_reg_word(&self, reg: Reg) -> (r: Result<u16, CPUError>)
        ensures
            r == (if !is_byte_reg(reg) {
                Ok::<u16, CPUError>(self.regs().reg_word(reg))
            } else {
                Err::<u16, CPUError>(
                    CPUError::BadRegisterAccess(WidthMismatch::WordReadFromByteReg),
                )
            }),
    {
        match reg {
            Reg::AF => Ok(self.af.value()),
            Reg::BC => Ok(self.bc.value()),
            Reg::DE => Ok(self.de.value()),
            Reg::HL => Ok(self.hl.value()),
            Reg::SP => Ok(self.sp.value()),
            Reg::PC => Ok(self.pc.value()),
            _ => Err(CPUError::BadRegisterAccess(WidthMismatch::WordReadFromByteReg)),
        }
    }

    /// Stores a byte into an 8-bit register, leaving its paired half, the
    /// bus and the clock untouched; storing into a 16-bit-only name fails
    /// with a bad-register-access fault and changes nothing.
    pub fn set_reg_byte(&mut self, reg: Reg, val: u8) -> (r: Result<(), CPUError>)
        ensures
            is_byte_reg(reg) ==> r == Ok::<(), CPUError>(()) && final(self).regs() == old(self).regs().with_reg_byte(reg, val) && final(self).bus == old(self).bus && final(self).clock == old(self).clock,
            !is_byte_reg(reg) ==> r == Err::<(), CPUError>(
                CPUError::BadRegisterAccess(WidthMismatch::ByteWriteToWordReg),
            ) && *final(self) == *old(self),
    {
        match reg {
            Reg::A => {
                self.af.set_high(val);
                Ok(())
            },
            Reg::B => {
                self.bc.set_high(val);
                Ok(())
            },
            Reg::C => {
                self.bc.set_low(val);
                Ok(())
            },
            Reg::D => {
                self.de.set_high(val);
                Ok(())
            },
            Reg::E => {
                self.de.set_low(val);
                Ok(())
            },
            Reg::F => {
                self.af.set_low(val);
                Ok(())
            },
            Reg::H => {
                self.hl.set_high(val);
                Ok(())
            },
            Reg::L => {
                self.hl.set_low(val);
                Ok(())
            },
            _ => Err(CPUError::BadRegisterAccess(WidthMismatch::ByteWriteToWordReg)),
        }
    }

    /// Stores a word into a 16-bit register, leaving the bus and the clock
    /// untouched; storing into an 8-bit name fails with a
    /// bad-register-access fault and changes nothing.
    pub fn set_reg_word(&mut self, reg: Reg, val: u16) -> (r: Result<(), CPUError>)
        ensures
            !is_byte_reg(reg) ==> r == Ok::<(), CPUError>(()) && final(self).regs() == old(self).regs().with_reg_word(reg, val) && final(self).bus == old(self).bus && final(self).clock == old(self).clock,
            is_byte_reg(reg) ==> r == Err::<(), CPUError>(
                CPUError::BadRegisterAccess(WidthMismatch::WordWriteToByteReg),
            ) && *final(self) == *old(self),
    {
        match reg {
            Reg::AF => {
                self.af = Word(val);
                Ok(())
            },
            Reg::BC => {
                self.bc = Word(val);
                Ok(())
            },
            Reg::DE => {
                self.de = Word(val);
                Ok(())
            },
            Reg::HL => {
                self.hl = Word(val);
                Ok(())
            },
            Reg::SP => {
                self.sp = Word(val);
                Ok(())
            },
            Reg::PC => {
                self.pc = Word(val);
                Ok(())
            },
            _ => Err(CPUError::BadRegisterAccess(WidthMismatch::WordWriteToByteReg)),
        }
    }

    /// Retrieves the value a register naturally holds: a byte for 8-bit
    /// registers, a word for pairs, SP and PC.
    pub fn get_reg_value(&self, r: Reg) -> (v: ByteOrWord)
        ensures
            v == self.regs().reg_value(r),
    {
        match r {
            Reg::A => ByteOrWord::Byte(self.af.get_high()),
            Reg::B => ByteOrWord::Byte(self.bc.get_high()),
            Reg::C => ByteOrWord::Byte(self.bc.get_low()),
            Reg::D => ByteOrWord::Byte(self.de.get_high()),
            Reg::E => ByteOrWord::Byte(self.de.get_low()),
            Reg::F => ByteOrWord::Byte(self.af.get_low()),
            Reg::H => ByteOrWord::Byte(self.hl.get_high()),
            Reg::L => ByteOrWord::Byte(self.hl.get_low()),
            Reg::AF => ByteOrWord::Word(self.af.value()),
            Reg::BC => ByteOrWord::Word(self.bc.value()),
            Reg::DE => ByteOrWord::Word(self.de.value()),
            Reg::HL => ByteOrWord::Word(self.hl.value()),
            Reg::SP => ByteOrWord::Word(self.sp.value()),
            Reg::PC => ByteOrWord::Word(self.pc.value()),
        }
    }

    /// Expects the operand to name a register directly; any other operand
    /// kind fails with an illegal-instruction fault at the current PC.
    pub fn operand_to_reg(&self, oper: Operand) -> (r: Result<Reg, CPUError>)
        ensures
            r == (match oper {
                Operand::Value(rg) => Ok::<Reg, CPUError>(rg),
                _ => Err::<Reg, CPUError>(
                    CPUError::AddrErr(AddressError::IllegalInstr(self.pc@)),
                ),
            }),
    {
        match oper {
            Operand::Value(rg) => Ok(rg),
            _ => Err(CPUError::AddrErr(AddressError::IllegalInstr(self.pc.value()))),
        }
    }

    /// Resolves an operand to a byte or a word, given the address
    /// `instr_pc` of the instruction it belongs to (immediate bytes are
    /// located relative to it).
    pub fn operand_to_value(&self, oper: Operand, instr_pc: Word) -> (r: Result<
        ByteOrWord,
        CPUError,
    >)
        ensures
            r == self.spec_resolve(oper, instr_pc@),
    {
        match oper {
            Operand::Value(rg) => Ok(self.get_reg_value(rg)),
            Operand::DerefReg(rg) => {
                let addr = self.get_reg_value(rg).into_word();
                match self.bus.read_byte(addr) {
                    Ok(b) => Ok(ByteOrWord::Byte(b)),
                    Err(e) => Err(CPUError::AddrErr(e)),
                }
            },
            Operand::Imm8 => {
                let imm_addr = instr_pc.wrapping_add(Word(1)).value();
                match self.bus.read_byte(imm_addr) {
                    Ok(b) => Ok(ByteOrWord::Byte(b)),
                    Err(e) => Err(CPUError::AddrErr(e)),
                }
            },
            Operand::DerefImm8 => {
                let imm_addr = instr_pc.wrapping_add(Word(1)).value();
                let imm = match self.bus.read_byte(imm_addr) {
                    Ok(b) => b,
                    Err(e) => {
                        return Err(CPUError::AddrErr(e));
                    },
                };
                let addr = 0xFF00u16 | (imm as u16);
                match self.bus.read_byte(addr) {
                    Ok(b) => Ok(ByteOrWord::Byte(b)),
                    Err(e) => Err(CPUError::AddrErr(e)),
                }
            },
            Operand::Imm16 => {
                let upper_addr = instr_pc.wrapping_add(Word(1)).value();
                let lower_addr = instr_pc.wrapping_add(Word(2)).value();
                let upper = match self.bus.read_byte(upper_addr) {
                    Ok(b) => b,
                    Err(e) => {
                        return Err(CPUError::AddrErr(e));
                    },
                };
                let lower = match self.bus.read_byte(lower_addr) {
                    Ok(b) => b,
                    Err(e) => {
                        return Err(CPUError::AddrErr(e));
                    },
                };
                Ok(ByteOrWord::Word(((upper as u16) << 8) | (lower as u16)))
            },
            _ => Err(CPUError::AddrErr(AddressError::IllegalInstr(self.pc.value()))),
        }
    }

    /// Resolves an operand and expects a byte; a word resolution fails with
    /// an illegal-instruction fault at the current PC.
    pub fn operand_to_byte(&self, oper: Operand, instr_pc: Word) -> (r: Result<u8, CPUError>)
        ensures
            r == spec_expect_byte(self.spec_resolve(oper, instr_pc@), self.pc@),
    {
        match self.operand_to_value(oper, instr_pc) {
            Ok(ByteOrWord::Byte(b)) => Ok(b),
            Ok(ByteOrWord::Word(_)) => Err(
                CPUError::AddrErr(AddressError::IllegalInstr(self.pc.value())),
            ),
            Err(e) => Err(e),
        }
    }

    /// Resolves an operand and expects a word; a byte resolution fails with
    /// an illegal-instruction fault at the current PC.
    pub fn operand_to_word(&self, oper: Operand, instr_pc: Word) -> (r: Result<u16, CPUError>)
        ensures
            r == spec_expect_word(self.spec_resolve(oper, instr_pc@), self.pc@),
    {
        match self.operand_to_value(oper, instr_pc) {
            Ok(ByteOrWord::Word(w)) => Ok(w),
            Ok(ByteOrWord::Byte(_)) => Err(
                CPUError::AddrErr(AddressError::IllegalInstr(self.pc.value())),
            ),
            Err(e) => Err(e),
        }
    }

    /// Performs a load instruction: everything of one step but the final
    /// elapsed-cycle notification.
    fn exec_ld(&mut self, instruction: Instr) -> (r: Result<u32, CPUError>)
        ensures
            ({
                let o = old(self).spec_ld(instruction);
                &&& r == o.result
                &&& final(self).clock == old(self).clock
                &&& (r matches Ok(_) ==> final(self).regs() == o.regs && wrote_opt(
                    old(self).bus,
                    final(self).bus,
                    o.write,
                ))
                &&& (r matches Err(_) ==> *final(self) == *old(self))
            }),
    {
        let pc_word = self.pc;
        let src_val = match self.operand_to_byte(instruction.src, pc_word) {
            Ok(b) => b,
            Err(e) => {
                return Err(e);
            },
        };
        match instruction.dst {
            Operand::Value(rg) => {
                match self.set_reg_byte(rg, src_val) {
                    Ok(()) => {},
                    Err(e) => {
                        return Err(e);
                    },
                }
            },
            _ => {
                let dst_addr = match self.operand_to_value(instruction.dst, pc_word) {
                    Ok(v) => v.into_word(),
                    Err(e) => {
                        return Err(e);
                    },
                };
                match self.bus.write_byte(dst_addr, src_val) {
                    Ok(()) => {},
                    Err(e) => {
                        return Err(CPUError::AddrErr(e));
                    },
                }
            },
        }
        self.pc = self.pc.wrapping_add(Word(instruction.width as u16));
        Ok(instruction.cycles)
    }

    /// Performs an addition instruction: everything of one step but the
    /// final elapsed-cycle notification.
    #[verifier::rlimit(100)]
    fn exec_add(&mut self, instruction: Instr) -> (r: Result<u32, CPUError>)
        ensures
            ({
                let o = old(self).spec_add(instruction);
                &&& r == o.result
                &&& final(self).clock == old(self).clock
                &&& (r matches Ok(_) ==> final(self).regs() == o.regs && final(self).bus == old(self).bus)
                &&& (r matches Err(_) ==> *final(self) == *old(self))
            }),
    {
        let pc_word = self.pc;
        let dst_reg = match self.operand_to_reg(instruction.dst) {
            Ok(rg) => rg,
            Err(e) => {
                return Err(e);
            },
        };
        match self.get_reg_value(dst_reg) {
            ByteOrWord::Byte(dst_val) => {
                let src_val = match self.operand_to_byte(instruction.src, pc_word) {
                    Ok(b) => b,
                    Err(e) => {
                        return Err(e);
                    },
                };
                self.af.unset_bit(Flag::H.bit());
                self.af.unset_bit(Flag::C.bit());
                self.af.unset_bit(Flag::N.bit());
                proof {
                    lemma_flag_shift(Flag::H);
                    lemma_flag_shift(Flag::C);
                    lemma_flag_shift(Flag::N);
                    lemma_flag_shift(Flag::Z);
                }
                if ((dst_val & 0xF) as u16) + ((src_val & 0xF) as u16) > 0xF {
                    self.af.set_bit(Flag::H.bit());
                }
                if (dst_val as u16) + (src_val as u16) > 0xFF {
                    self.af.set_bit(Flag::C.bit());
                }
                let sum = dst_val.wrapping_add(src_val);
                match self.set_reg_byte(dst_reg, sum) {
                    Ok(()) => {},
                    Err(_) => {},
                }
                if self.get_reg_value(dst_reg).into_word() == 0 {
                    self.af.set_bit(Flag::Z.bit());
                }
            },
            ByteOrWord::Word(dst_val) => {
                let src_val = match self.operand_to_word(instruction.src, pc_word) {
                    Ok(w) => w,
                    Err(e) => {
                        return Err(e);
                    },
                };
                self.af.unset_bit(Flag::H.bit());
                self.af.unset_bit(Flag::C.bit());
                self.af.unset_bit(Flag::N.bit());
                proof {
                    lemma_flag_shift(Flag::H);
                    lemma_flag_shift(Flag::C);
                    lemma_flag_shift(Flag::N);
                    lemma_flag_shift(Flag::Z);
                }
                if ((dst_val & 0xFFF) as u32) + ((src_val & 0xFFF) as u32) > 0xFFF {
                    self.af.set_bit(Flag::H.bit());
                }
                if (dst_val as u32) + (src_val as u32) > 0xFFFF {
                    self.af.set_bit(Flag::C.bit());
                }
                let sum = dst_val.wrapping_add(src_val);
                match self.set_reg_word(dst_reg, sum) {
                    Ok(()) => {},
                    Err(_) => {},
                }
                if self.get_reg_value(dst_reg).into_word() == 0 {
                    self.af.set_bit(Flag::Z.bit());
                }
            },
        }
        self.pc = self.pc.wrapping_add(Word(instruction.width as u16));
        Ok(instruction.cycles)
    }

    /// Executes the instruction at PC and returns the cycles spent.
    ///
    /// The opcode byte is read through the bus, its descriptor looked up,
    /// the operation performed, PC advanced by the descriptor's width, and
    /// the elapsed cycles propagated to the bus's peripheral, exactly once,
    /// after the step's side effects are committed. Any fault at any stage
    /// aborts the step with that fault and leaves the whole CPU — registers,
    /// PC and bus — exactly as it was. In particular, an opcode whose table
    /// entry is the reserved `Invalid` sentinel fails with an
    /// illegal-instruction fault at PC and changes nothing.
    pub fn step(&mut self) -> (r: Result<u32, CPUError>)
        ensures
            ({
                let o = old(self).spec_step();
                &&& r == o.result
                &&& final(self).clock == old(self).clock
                &&& (r matches Ok(c) ==> final(self).regs() == o.regs && bus_effect(
                    old(self).bus,
                    final(self).bus,
                    o.write,
                    CycleTime::spec_new(old(self).clock, c),
                ))
                &&& (r matches Err(_) ==> *final(self) == *old(self))
            }),
            old(self).bus.mapped(old(self).pc@) && instr_spec(
                old(self).bus.at(old(self).pc@),
            ).opcode is Invalid ==> r == Err::<u32, CPUError>(
                CPUError::AddrErr(AddressError::IllegalInstr(old(self).pc@)),
            ) && *final(self) == *old(self),
    {
        let pc_val = self.pc.value();
        let opcode = match self.bus.read_byte(pc_val) {
            Ok(b) => b,
            Err(e) => {
                return Err(CPUError::AddrErr(e));
            },
        };
        let instruction = instruction_lookup(opcode);
        let cycles = match instruction.opcode {
            Opcode::NOP => {
                self.pc = self.pc.wrapping_add(Word(instruction.width as u16));
                instruction.cycles
            },
            Opcode::LD => match self.exec_ld(instruction) {
                Ok(c) => c,
                Err(e) => {
                    return Err(e);
                },
            },
            Opcode::ADD => match self.exec_add(instruction) {
                Ok(c) => c,
                Err(e) => {
                    return Err(e);
                },
            },
            _ => {
                return Err(CPUError::AddrErr(AddressError::IllegalInstr(self.pc.value())));
            },
        };
        let ghost mid_bus = self.bus;
        let ghost o = old(self).spec_step();
        let time = CycleTime::new(self.clock, cycles);
        self.bus.catchup(time);
        proof {
            match o.write {
                None => {
                    assert(self.bus == mid_bus.advanced(time));
                },
                Some((addr, data)) => {
                    assert(wrote(old(self).bus, mid_bus, addr, data));
                    assert(self.bus == mid_bus.advanced(time));
                    assert(bus_effect(old(self).bus, self.bus, o.write, time));
                },
            }
        }
        Ok(cycles)
    }

    /// Pushes any pending interrupt. The interrupt controller is an external
    /// collaborator; this hook reports "something handled" and changes no
    /// state.
    pub fn interrupt(&mut self) -> (r: Option<()>)
        ensures
            r == Some::<()>(()),
            *final(self) == *old(self),
    {
        Some(())
    }

    /// The CPU's clock frequency in Hz.
    pub fn frequency(&self) -> (r: u32)
        ensures
            r == self.clock,
    {
        self.clock
    }
}

} // verus!
