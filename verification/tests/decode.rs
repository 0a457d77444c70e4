use gamerboy::gameboy_cpu::Reg;
use gamerboy::gameboy_cpu_inst::{Instr, Opcode, Operand, instruction_lookup};

#[test]
fn decode_specified_instructions() {
    assert_eq!(
        instruction_lookup(0x00),
        Instr { opcode: Opcode::NOP, dst: Operand::Unused, src: Operand::Unused, width: 1, cycles: 4 }
    );
    assert_eq!(
        instruction_lookup(0x06),
        Instr { opcode: Opcode::LD, dst: Operand::Value(Reg::B), src: Operand::Imm8, width: 2, cycles: 8 }
    );
    assert_eq!(
        instruction_lookup(0x80),
        Instr { opcode: Opcode::ADD, dst: Operand::Value(Reg::A), src: Operand::Value(Reg::B), width: 1, cycles: 4 }
    );
    assert_eq!(
        instruction_lookup(0xC6),
        Instr { opcode: Opcode::ADD, dst: Operand::Value(Reg::A), src: Operand::Imm8, width: 2, cycles: 8 }
    );
    assert_eq!(
        instruction_lookup(0x09),
        Instr { opcode: Opcode::ADD, dst: Operand::Value(Reg::HL), src: Operand::Value(Reg::BC), width: 1, cycles: 8 }
    );
}

#[test]
fn decode_reserved_opcodes_are_invalid() {
    let reserved = [0xD3u8, 0xDB, 0xDD, 0xE3, 0xE4, 0xEB, 0xEC, 0xED, 0xF4, 0xFC, 0xFD];
    for op in 0..=255u8 {
        let entry = instruction_lookup(op);
        if reserved.contains(&op) {
            assert_eq!(entry.opcode, Opcode::Invalid, "opcode {op:#04X}");
        } else {
            assert_ne!(entry.opcode, Opcode::Invalid, "opcode {op:#04X}");
        }
    }
}

#[test]
fn decode_ld_grid() {
    // 0x40..0x7F is the register-to-register load grid, with HALT at 0x76.
    let regs = [
        Operand::Value(Reg::B),
        Operand::Value(Reg::C),
        Operand::Value(Reg::D),
        Operand::Value(Reg::E),
        Operand::Value(Reg::H),
        Operand::Value(Reg::L),
        Operand::DerefReg(Reg::HL),
        Operand::Value(Reg::A),
    ];
    for op in 0x40..=0x7Fu8 {
        let entry = instruction_lookup(op);
        if op == 0x76 {
            assert_eq!(entry.opcode, Opcode::HALT);
            continue;
        }
        assert_eq!(entry.opcode, Opcode::LD, "opcode {op:#04X}");
        assert_eq!(entry.dst, regs[((op - 0x40) / 8) as usize], "opcode {op:#04X}");
        assert_eq!(entry.src, regs[(op % 8) as usize], "opcode {op:#04X}");
        assert_eq!(entry.width, 1);
    }
}
