#![allow(non_snake_case)]

use gamerboy::Addressable;
use gamerboy::AddressError;
use gamerboy::Bus as _;
use gamerboy::GPU as _;
use gamerboy::RAM as _;
use gamerboy::CPUError;
use gamerboy::WidthMismatch;
use gamerboy::Word;
use gamerboy::gameboy_bus::Bus;
use gamerboy::ByteOrWord;
use gamerboy::gameboy_cpu::{CPU, Flag, Reg};
use gamerboy::gameboy_cpu_inst::Operand;
use gamerboy::gameboy_gpu::GPU;
use gamerboy::gameboy_ram::RAM;

const RAM_START: u16 = 0xC000;
const RAM_SIZE: usize = 8 * 1024;
const VRAM_START: u16 = 0x8000;
const VRAM_SIZE: usize = 8 * 1024;

type GameBoy = CPU<Bus<RAM_SIZE, VRAM_SIZE>>;

fn setup_gameboy(pc: u16) -> GameBoy {
    let ram = RAM::<RAM_SIZE>::create(RAM_START);
    let vram = RAM::<VRAM_SIZE>::create(VRAM_START);
    let gpu = GPU::create(vram);
    let bus = Bus::create(ram, gpu);
    let mut cpu = CPU::create(4194304, bus);
    cpu.pc = Word::from(pc);
    cpu
}

#[test]
fn test_cpu_ADD() {
    let mut cpu = setup_gameboy(RAM_START);

    const AB_ADD: u8 = 0x80;
    const AIMM8_ADD: u8 = 0xC6;
    const HLBC_ADD: u8 = 0x09;
    const LD_B_IMM8: u8 = 0x06;

    // Let the first addition be A += Imm8(10)
    cpu.bus
        .write_byte(RAM_START, AIMM8_ADD)
        .expect("AImm8 addition to be written to RAM");
    cpu.bus
        .write_byte(RAM_START + 1, 10)
        .expect("Imm8 value to be written to RAM");
    // LD 10 into B to prepare for some additions
    cpu.bus
        .write_byte(RAM_START + 2, LD_B_IMM8)
        .expect("LD B Imm8 operation to be written to RAM");
    cpu.bus
        .write_byte(RAM_START + 3, 10)
        .expect("LD B Imm8 value (10) to be written to RAM");
    // Let the following 2 additions be A += B
    cpu.bus
        .write_byte(RAM_START + 4, AB_ADD)
        .expect("AB addition to be written to RAM");
    cpu.bus
        .write_byte(RAM_START + 5, AB_ADD)
        .expect("AB addition to be written to RAM");
    // Let the following 3 additions be HL += BC
    cpu.bus
        .write_byte(RAM_START + 6, HLBC_ADD)
        .expect("HLBC addition to be written to RAM");
    cpu.bus
        .write_byte(RAM_START + 7, HLBC_ADD)
        .expect("HLBC addition to be written to RAM");
    cpu.bus
        .write_byte(RAM_START + 8, HLBC_ADD)
        .expect("HLBC addition to be written to RAM");

    // Set the Subtraction flag before we perform the addition
    cpu.af.set_low(Flag::N.mask());

    // Assert that we have set the subtraction flag N
    assert_eq!(cpu.af.get_low() & Flag::N.mask(), Flag::N.mask());

    cpu.step().expect("CPU to step once");

    // Assert our addition into register A (0) from Imm8 (10)
    assert_eq!(cpu.af.get_high(), 10);
    // Assert that the subtraction flag has been reset after addition
    assert_ne!(cpu.af.get_low() & Flag::N.mask(), Flag::N.mask());

    // Assert that PC has moved after Imm8 addition (which is 2 bytes wide)
    assert_eq!(cpu.pc.value(), RAM_START + 2);

    // Assert that we did not 4-bit overflow by checking flag H
    assert_ne!(cpu.af.get_low() & Flag::H.mask(), Flag::H.mask());

    // LD: B <- 10
    cpu.step().expect("CPU to step twice");

    // Check that we loaded 10 into B and moved 2 steps (width of the LD Imm8 instr)
    assert_eq!(cpu.bc.get_high(), 10);
    assert_eq!(cpu.pc.value(), RAM_START + 4);

    cpu.step().expect("CPU to step twice");

    // Assert that we did 4-bit overflow by checking flag H (10 + 10 crosses 15)
    assert_eq!(cpu.af.get_low() & Flag::H.mask(), Flag::H.mask());
    // Assert our second addition into register A (10) from B (10)
    assert_eq!(cpu.af.get_high(), 20);
    // Assert that we did NOT 8-bit overflow by checking flag C
    assert_ne!(cpu.af.get_low() & Flag::C.mask(), Flag::C.mask());

    cpu.bc.set_high(236);
    cpu.step().expect("CPU to step thrice");

    // Assert our third addition into register A (20) from B (236)
    assert_eq!(cpu.af.get_high(), 0);
    // Assert that we did an 8-bit overflow by checking flag C
    assert_eq!(cpu.af.get_low() & Flag::C.mask(), Flag::C.mask());
    // Assert that we did hit Zero by checking flag Z
    assert_eq!(cpu.af.get_low() & Flag::Z.mask(), Flag::Z.mask());

    // Initial BC state
    cpu.bc = Word::from(0x1FFFu16);
    // Initial HL state
    assert_eq!(cpu.hl, Word::nil());
    // Reset flags
    cpu.af = Word::nil();

    cpu.step().expect("CPU to step");

    // Assert that HLBC addition succeeded
    assert_eq!(cpu.hl, Word::from(0x1FFFu16));
    // No carry out of the low 12 bits here: 0x000 + 0xFFF stays within them
    assert_ne!(cpu.af.get_low() & Flag::H.mask(), Flag::H.mask());

    cpu.step().expect("CPU to step");

    // Assert that HLBC addition succeeded
    assert_eq!(cpu.hl, Word::from(0x3FFEu16));
    // 0xFFF + 0xFFF crosses the 12-bit boundary, so the half-carry is set
    assert_eq!(cpu.af.get_low() & Flag::H.mask(), Flag::H.mask());

    // Force an overflow resulting in carry bit set
    cpu.bc = Word::from(0xFFFFu16);

    cpu.step().expect("CPU to step");

    // Assert that HLBC overflow addition succeeded
    assert_eq!(cpu.hl, Word::from(0x3FFDu16));
    // 0xFFE + 0xFFF crosses the 12-bit boundary again, so H is set again
    assert_eq!(cpu.af.get_low() & Flag::H.mask(), Flag::H.mask());
    // Check that we got the overflow
    assert_eq!(cpu.af.get_low() & Flag::C.mask(), Flag::C.mask());
}

#[test]
fn test_cpu_NOP() {
    let mut cpu = setup_gameboy(RAM_START);

    // Since RAM is zeroed we should be able to step through NOP instructions
    let prev_pc = cpu.pc;
    cpu.step().expect("nop step");
    assert_eq!(prev_pc.value() + 1, cpu.pc.value());
    cpu.step().expect("nop step");
    cpu.step().expect("nop step");
    cpu.step().expect("nop step");
    assert_eq!(prev_pc.value() + 4, cpu.pc.value());
}

#[test]
fn add_flag_scenario() {
    // A = 0, B = 10; three ADD(A, B) in a row at increasing addresses.
    let mut cpu = setup_gameboy(RAM_START);
    for i in 0..3 {
        cpu.bus
            .write_byte(RAM_START + i, 0x80)
            .expect("ADD A,B to be written to RAM");
    }
    cpu.bc.set_high(10);

    cpu.step().expect("first ADD");
    assert_eq!(cpu.af.get_high(), 10);
    assert_ne!(cpu.af.get_low() & Flag::N.mask(), Flag::N.mask());
    assert_ne!(cpu.af.get_low() & Flag::H.mask(), Flag::H.mask());
    assert_ne!(cpu.af.get_low() & Flag::C.mask(), Flag::C.mask());

    cpu.step().expect("second ADD");
    assert_eq!(cpu.af.get_high(), 20);
    assert_eq!(cpu.af.get_low() & Flag::H.mask(), Flag::H.mask());
    assert_ne!(cpu.af.get_low() & Flag::C.mask(), Flag::C.mask());

    cpu.bc.set_high(236);
    cpu.step().expect("third ADD");
    assert_eq!(cpu.af.get_high(), 0);
    assert_eq!(cpu.af.get_low() & Flag::C.mask(), Flag::C.mask());
    assert_eq!(cpu.af.get_low() & Flag::Z.mask(), Flag::Z.mask());
}

#[test]
fn add16_overflow_boundary() {
    // HL = 0x1FFF, BC = 0x1FFF: the sum crosses the 12-bit boundary.
    let mut cpu = setup_gameboy(RAM_START);
    cpu.bus
        .write_byte(RAM_START, 0x09)
        .expect("ADD HL,BC to be written to RAM");
    cpu.bus
        .write_byte(RAM_START + 1, 0x09)
        .expect("ADD HL,BC to be written to RAM");
    cpu.hl = Word::from(0x1FFFu16);
    cpu.bc = Word::from(0x1FFFu16);

    cpu.step().expect("16-bit ADD");
    assert_eq!(cpu.hl, Word::from(0x3FFEu16));
    assert_eq!(cpu.af.get_low() & Flag::H.mask(), Flag::H.mask());
    assert_ne!(cpu.af.get_low() & Flag::C.mask(), Flag::C.mask());

    // A second ADD with BC = 0xFFFF wraps HL modulo 2^16 and sets the carry.
    cpu.bc = Word::from(0xFFFFu16);
    cpu.step().expect("wrapping 16-bit ADD");
    assert_eq!(cpu.hl, Word::from(0x3FFDu16));
    assert_eq!(cpu.af.get_low() & Flag::C.mask(), Flag::C.mask());
}

#[test]
fn illegal_opcode_leaves_pc_unchanged() {
    // 0xD3 maps to the reserved Invalid sentinel.
    let mut cpu = setup_gameboy(RAM_START);
    cpu.bus
        .write_byte(RAM_START, 0xD3)
        .expect("invalid opcode to be written to RAM");
    let r = cpu.step();
    assert_eq!(r, Err(CPUError::AddrErr(AddressError::IllegalInstr(RAM_START))));
    assert_eq!(cpu.pc.value(), RAM_START);
}

#[test]
fn unimplemented_opcode_reports_illegal_instruction() {
    // 0x90 decodes as SUB, which is outside the specified behavioral set.
    let mut cpu = setup_gameboy(RAM_START);
    cpu.bus
        .write_byte(RAM_START, 0x90)
        .expect("SUB opcode to be written to RAM");
    let r = cpu.step();
    assert_eq!(r, Err(CPUError::AddrErr(AddressError::IllegalInstr(RAM_START))));
    assert_eq!(cpu.pc.value(), RAM_START);
}

#[test]
fn step_at_unmapped_pc_faults() {
    let mut cpu = setup_gameboy(0x0000);
    let r = cpu.step();
    assert_eq!(r, Err(CPUError::AddrErr(AddressError::OutOfBounds(0x0000))));
    assert_eq!(cpu.pc.value(), 0x0000);
}

#[test]
fn ld_from_dereferenced_register() {
    // LD A,(BC): loads the byte BC points at.
    let mut cpu = setup_gameboy(RAM_START);
    cpu.bus
        .write_byte(RAM_START, 0x0A)
        .expect("LD A,(BC) to be written to RAM");
    cpu.bus
        .write_byte(0xC050, 7)
        .expect("the dereferenced byte to be written to RAM");
    cpu.bc = Word::from(0xC050u16);
    let cycles = cpu.step().expect("LD A,(BC) step");
    assert_eq!(cycles, 8);
    assert_eq!(cpu.af.get_high(), 7);
    assert_eq!(cpu.pc.value(), RAM_START + 1);
}

#[test]
fn ld_writes_through_bus() {
    // With video RAM mapped at 0x0000, LD (BC),A resolves the destination to
    // the byte BC points at (zero-extended) and stores A through the bus.
    let ram = RAM::<RAM_SIZE>::create(RAM_START);
    let vram = RAM::<VRAM_SIZE>::create(0x0000);
    let gpu = GPU::create(vram);
    let bus = Bus::create(ram, gpu);
    let mut cpu = CPU::create(4194304, bus);
    cpu.pc = Word::from(RAM_START);

    cpu.bus
        .write_byte(RAM_START, 0x02)
        .expect("LD (BC),A to be written to RAM");
    cpu.bus
        .write_byte(0xC050, 0x42)
        .expect("the destination byte to be written to RAM");
    cpu.bc = Word::from(0xC050u16);
    cpu.af.set_high(0x99);

    cpu.step().expect("LD (BC),A step");
    let vram_copy = cpu.bus.copy_of(gamerboy::CopyOf::VRAM);
    assert_eq!(vram_copy[0x42], 0x99);
    assert_eq!(cpu.pc.value(), RAM_START + 1);
}

#[test]
fn ld_word_source_is_illegal_as_byte() {
    // LD SP,HL (0xF9) resolves its source to a word; the byte-load engine
    // rejects it with an illegal-instruction fault at PC.
    let mut cpu = setup_gameboy(RAM_START);
    cpu.bus
        .write_byte(RAM_START, 0xF9)
        .expect("LD SP,HL to be written to RAM");
    let r = cpu.step();
    assert_eq!(r, Err(CPUError::AddrErr(AddressError::IllegalInstr(RAM_START))));
    assert_eq!(cpu.pc.value(), RAM_START);
}

#[test]
fn register_width_mismatch_errors() {
    let mut cpu = setup_gameboy(RAM_START);
    assert_eq!(
        cpu.get_reg_byte(Reg::SP),
        Err(CPUError::BadRegisterAccess(WidthMismatch::ByteReadFromWordReg))
    );
    assert_eq!(
        cpu.get_reg_word(Reg::A),
        Err(CPUError::BadRegisterAccess(WidthMismatch::WordReadFromByteReg))
    );
    assert_eq!(
        cpu.set_reg_byte(Reg::HL, 1),
        Err(CPUError::BadRegisterAccess(WidthMismatch::ByteWriteToWordReg))
    );
    assert_eq!(
        cpu.set_reg_word(Reg::B, 1),
        Err(CPUError::BadRegisterAccess(WidthMismatch::WordWriteToByteReg))
    );
}

#[test]
fn register_pairs_have_independent_storage() {
    let mut cpu = setup_gameboy(RAM_START);
    cpu.set_reg_word(Reg::BC, 0x1111).expect("set BC");
    cpu.set_reg_word(Reg::DE, 0x2222).expect("set DE");
    assert_eq!(cpu.get_reg_word(Reg::BC), Ok(0x1111));
    assert_eq!(cpu.get_reg_word(Reg::DE), Ok(0x2222));
    cpu.set_reg_byte(Reg::D, 0x33).expect("set D");
    assert_eq!(cpu.get_reg_word(Reg::DE), Ok(0x3322));
    assert_eq!(cpu.get_reg_word(Reg::BC), Ok(0x1111));
    assert_eq!(cpu.get_reg_byte(Reg::E), Ok(0x22));
}

#[test]
fn imm16_resolves_big_endian() {
    let mut cpu = setup_gameboy(RAM_START);
    cpu.bus
        .write_byte(RAM_START + 1, 0x12)
        .expect("upper immediate byte to be written");
    cpu.bus
        .write_byte(RAM_START + 2, 0x34)
        .expect("lower immediate byte to be written");
    let v = cpu.operand_to_value(Operand::Imm16, cpu.pc).expect("Imm16 resolution");
    assert_eq!(v, ByteOrWord::Word(0x1234));
    let w = cpu.operand_to_word(Operand::Imm16, cpu.pc).expect("Imm16 as word");
    assert_eq!(w, 0x1234);
    let b = cpu.operand_to_byte(Operand::Imm16, cpu.pc);
    assert_eq!(b, Err(CPUError::AddrErr(AddressError::IllegalInstr(RAM_START))));
}

#[test]
fn interrupt_reports_handled() {
    let mut cpu = setup_gameboy(RAM_START);
    assert_eq!(cpu.interrupt(), Some(()));
}

#[test]
fn frequency_returns_clock() {
    let cpu = setup_gameboy(RAM_START);
    assert_eq!(cpu.frequency(), 4194304);
}
