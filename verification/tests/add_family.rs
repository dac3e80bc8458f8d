use rustboy::cpu::CPU;
use rustboy::error::CpuError;

#[test]
fn test_add_base() {
    let mut cpu = CPU::new();
    cpu.registers.set_register("A", 0u8).unwrap();
    cpu.registers.set_register("B", 7u8).unwrap();
    cpu.add(0).unwrap();
    assert_eq!(cpu.registers.get_register("A").unwrap(), 7u8);
    assert_eq!(cpu.registers.get_register("F").unwrap(), 0u8);
}

#[test]
fn test_add_zero() {
    let mut cpu = CPU::new();
    cpu.registers.set_register("A", 255).unwrap();
    cpu.registers.set_register("B", 1).unwrap();
    cpu.add(0).unwrap();
    assert_eq!(cpu.registers.get_register("A").unwrap(), 0);
    assert_eq!(cpu.registers.get_register("F").unwrap(), 0b10110000);
}

#[test]
fn test_add_halfcarry() {
    let mut cpu = CPU::new();
    cpu.registers.set_register("A", 0b01001111).unwrap();
    cpu.registers.set_register("B", 1).unwrap();
    cpu.add(0).unwrap();
    assert_eq!(cpu.registers.get_register("A").unwrap(), 0b01010000);
    assert_eq!(cpu.registers.get_register("F").unwrap(), 0b00100000);
}

#[test]
fn test_add_carry() {
    let mut cpu = CPU::new();
    cpu.registers.set_register("A", 0b10000000).unwrap();
    cpu.registers.set_register("B", 0b11111111).unwrap();
    cpu.add(0).unwrap();
    assert_eq!(cpu.registers.get_register("A").unwrap(), 0b01111111);
    assert_eq!(cpu.registers.get_register("F").unwrap(), 0b00010000);
}

#[test]
fn test_add_hc_16() {
    let mut cpu = CPU::new();
    cpu.registers.set_joint_register("H", "L", 0b1000111111111111).unwrap();
    cpu.add_HL_r16(0b1);
    assert_eq!(cpu.registers.get_joint_register("H", "L").unwrap(), 0b1001000000000000);
    assert_eq!(cpu.registers.get_register("F").unwrap(), 0b00100000);
}

#[test]
fn test_add_c_16() {
    let mut cpu = CPU::new();
    cpu.registers.set_joint_register("H", "L", 0b1111111111111111).unwrap();
    cpu.add_HL_r16(0b1);
    assert_eq!(cpu.registers.get_joint_register("H", "L").unwrap(), 0b0);
    assert_eq!(cpu.registers.get_register("F").unwrap(), 0b10110000);
}

#[test]
fn test_add_sp_signed1() {
    let mut cpu = CPU::new();
    cpu.sp = 0b0000000000001111;
    cpu.add_SP_e8(-15);
    assert_eq!(cpu.sp, 0b0);
    assert_eq!(cpu.registers.get_register("F").unwrap(), 0b10110000);
}

#[test]
fn test_add_sp_signed2() {
    let mut cpu = CPU::new();
    cpu.sp = 0b1111;
    cpu.add_SP_e8(-23);
    assert_eq!(cpu.sp, 65528);
    assert_eq!(cpu.registers.get_register("F").unwrap(), 0b00100000);
}

#[test]
fn new_cpu_is_all_zero() {
    let cpu = CPU::new();
    assert_eq!(cpu.sp, 0);
    assert_eq!(cpu.memory.len(), 65535);
    assert!(cpu.memory.iter().all(|&cell| cell == 0));
    for name in ["A", "B", "C", "D", "E", "F", "H", "L"] {
        assert_eq!(cpu.registers.get_register(name), Ok(0));
    }
    assert_eq!(cpu.registers.get_flags(), 0);
}

#[test]
fn add_decodes_every_plain_register() {
    let codes: [(u8, &str); 6] = [(0, "B"), (1, "C"), (2, "D"), (3, "E"), (4, "H"), (5, "L")];
    for (code, name) in codes {
        let mut cpu = CPU::new();
        cpu.registers.set_register("A", 0x10).unwrap();
        cpu.registers.set_register(name, 0x22).unwrap();
        assert_eq!(cpu.add(code), Ok(()));
        assert_eq!(cpu.registers.get_register("A"), Ok(0x32));
        assert_eq!(cpu.registers.get_register(name), Ok(0x22));
        assert_eq!(cpu.registers.get_register("F"), Ok(0));
    }
}

#[test]
fn add_code_seven_doubles_the_accumulator() {
    let mut cpu = CPU::new();
    cpu.registers.set_register("A", 0x88).unwrap();
    assert_eq!(cpu.add(7), Ok(()));
    assert_eq!(cpu.registers.get_register("A"), Ok(0x10));
    assert_eq!(cpu.registers.get_register("F"), Ok(0b00110000));
}

#[test]
fn add_refuses_code_six_and_codes_above_seven() {
    for code in [6u8, 8, 9, 0x40, 0xFF] {
        let mut cpu = CPU::new();
        cpu.registers.set_register("A", 0x0F).unwrap();
        cpu.registers.set_register("B", 0x01).unwrap();
        cpu.registers.set_flag("C", true).unwrap();
        assert_eq!(cpu.add(code), Err(CpuError::InvalidOperandCode));
        assert_eq!(cpu.addc(code), Err(CpuError::InvalidOperandCode));
        assert_eq!(cpu.registers.get_register("A"), Ok(0x0F));
        assert_eq!(cpu.registers.get_register("B"), Ok(0x01));
        assert_eq!(cpu.registers.get_register("F"), Ok(0b00010000));
        assert_eq!(cpu.registers.get_flags(), 0b00010000);
        assert_eq!(cpu.sp, 0);
    }
}

#[test]
fn add_sets_all_four_flags_whatever_they_were() {
    let mut cpu = CPU::new();
    for name in ["Z", "S", "HC", "C"] {
        cpu.registers.set_flag(name, true).unwrap();
    }
    assert_eq!(cpu.registers.get_flags(), 0b11110000);
    cpu.registers.set_register("A", 1).unwrap();
    cpu.registers.set_register("B", 2).unwrap();
    cpu.add(0).unwrap();
    assert_eq!(cpu.registers.get_register("A"), Ok(3));
    assert_eq!(cpu.registers.get_flags(), 0);
    assert_eq!(cpu.registers.get_register("F"), Ok(0));
}

#[test]
fn add_leaves_memory_and_stack_pointer() {
    let mut cpu = CPU::new();
    cpu.sp = 0x1234;
    cpu.memory[0x0100] = 0x5A;
    cpu.registers.set_register("C", 9).unwrap();
    cpu.add(1).unwrap();
    assert_eq!(cpu.sp, 0x1234);
    assert_eq!(cpu.memory[0x0100], 0x5A);
    assert_eq!(cpu.registers.get_register("A"), Ok(9));
}

#[test]
fn addc_adds_the_carry() {
    let mut cpu = CPU::new();
    cpu.registers.set_register("A", 0x10).unwrap();
    cpu.registers.set_register("B", 0x20).unwrap();
    cpu.registers.set_flag("C", true).unwrap();
    assert_eq!(cpu.addc(0), Ok(()));
    assert_eq!(cpu.registers.get_register("A"), Ok(0x31));
    assert_eq!(cpu.registers.get_register("F"), Ok(0));
}

#[test]
fn addc_without_carry_is_add() {
    let mut cpu = CPU::new();
    cpu.registers.set_register("A", 0xF0).unwrap();
    cpu.registers.set_register("D", 0x20).unwrap();
    assert_eq!(cpu.addc(2), Ok(()));
    assert_eq!(cpu.registers.get_register("A"), Ok(0x10));
    assert_eq!(cpu.registers.get_register("F"), Ok(0b00010000));
}

#[test]
fn addc_half_carry_ignores_the_carry() {
    // 0x0F + 0x00 + carry reaches 0x10, yet the half-carry test sees 0x0F + 0x00.
    let mut cpu = CPU::new();
    cpu.registers.set_register("A", 0x0F).unwrap();
    cpu.registers.set_register("B", 0x00).unwrap();
    cpu.registers.set_flag("C", true).unwrap();
    cpu.addc(0).unwrap();
    assert_eq!(cpu.registers.get_register("A"), Ok(0x10));
    assert_eq!(cpu.registers.get_register("F"), Ok(0));
}

#[test]
fn addc_operand_ff_with_carry_wraps_the_addend() {
    // The operand and the carry are summed in eight bits first: 0xFF + 1 is 0.
    let mut cpu = CPU::new();
    cpu.registers.set_register("A", 0x21).unwrap();
    cpu.registers.set_register("B", 0xFF).unwrap();
    cpu.registers.set_flag("C", true).unwrap();
    cpu.addc(0).unwrap();
    assert_eq!(cpu.registers.get_register("A"), Ok(0x21));
    // half-carry from 0x1 + 0xF; no carry, no zero
    assert_eq!(cpu.registers.get_register("F"), Ok(0b00100000));
    assert_eq!(cpu.registers.get_flag("C"), Ok(false));
}

#[test]
fn addc_operand_ff_with_carry_on_zero_accumulator() {
    let mut cpu = CPU::new();
    cpu.registers.set_register("B", 0xFF).unwrap();
    cpu.registers.set_flag("C", true).unwrap();
    cpu.addc(0).unwrap();
    assert_eq!(cpu.registers.get_register("A"), Ok(0));
    assert_eq!(cpu.registers.get_register("F"), Ok(0b10000000));
}

#[test]
fn addc_hl_reads_memory_at_hl() {
    let mut cpu = CPU::new();
    cpu.registers.set_joint_register("H", "L", 0x1234).unwrap();
    cpu.memory[0x1234] = 0x0F;
    cpu.registers.set_register("A", 0x01).unwrap();
    cpu.registers.set_flag("C", true).unwrap();
    assert!(cpu.registers.get_joint_register("H", "L").unwrap() < 0xFFFF);
    cpu.addc_hl();
    assert_eq!(cpu.registers.get_register("A"), Ok(0x11));
    assert_eq!(cpu.registers.get_register("F"), Ok(0b00100000));
    assert_eq!(cpu.memory[0x1234], 0x0F);
    assert_eq!(cpu.registers.get_joint_register("H", "L"), Ok(0x1234));
}

#[test]
fn addc_hl_at_the_last_cell() {
    let mut cpu = CPU::new();
    cpu.registers.set_joint_register("H", "L", 0xFFFE).unwrap();
    cpu.memory[0xFFFE] = 0xFF;
    cpu.registers.set_register("A", 0x02).unwrap();
    cpu.addc_hl();
    assert_eq!(cpu.registers.get_register("A"), Ok(0x01));
    assert_eq!(cpu.registers.get_register("F"), Ok(0b00110000));
}

#[test]
fn addc_hl_byte_ff_with_carry_wraps_the_addend() {
    let mut cpu = CPU::new();
    cpu.registers.set_joint_register("H", "L", 0x0010).unwrap();
    cpu.memory[0x0010] = 0xFF;
    cpu.registers.set_register("A", 0x80).unwrap();
    cpu.registers.set_flag("C", true).unwrap();
    cpu.addc_hl();
    assert_eq!(cpu.registers.get_register("A"), Ok(0x80));
    assert_eq!(cpu.registers.get_register("F"), Ok(0));
}

#[test]
fn add_n8_adds_an_immediate() {
    let mut cpu = CPU::new();
    cpu.registers.set_register("A", 0x3A).unwrap();
    cpu.add_n8(0xC6);
    assert_eq!(cpu.registers.get_register("A"), Ok(0));
    assert_eq!(cpu.registers.get_register("F"), Ok(0b10110000));
    cpu.add_n8(0x05);
    assert_eq!(cpu.registers.get_register("A"), Ok(5));
    assert_eq!(cpu.registers.get_register("F"), Ok(0));
}

#[test]
fn add_hl_r16_carry_without_half_carry() {
    let mut cpu = CPU::new();
    cpu.registers.set_joint_register("H", "L", 0xF000).unwrap();
    cpu.add_HL_r16(0x1001);
    assert_eq!(cpu.registers.get_joint_register("H", "L"), Ok(0x0001));
    assert_eq!(cpu.registers.get_register("H"), Ok(0x00));
    assert_eq!(cpu.registers.get_register("L"), Ok(0x01));
    assert_eq!(cpu.registers.get_register("F"), Ok(0b00010000));
}

#[test]
fn add_hl_sp_adds_the_stack_pointer() {
    let mut cpu = CPU::new();
    cpu.registers.set_joint_register("H", "L", 0x0FFF).unwrap();
    cpu.sp = 0x0001;
    cpu.add_HL_SP();
    assert_eq!(cpu.registers.get_joint_register("H", "L"), Ok(0x1000));
    assert_eq!(cpu.registers.get_register("F"), Ok(0b00100000));
    assert_eq!(cpu.sp, 0x0001);
    cpu.sp = 0xF000;
    cpu.add_HL_SP();
    assert_eq!(cpu.registers.get_joint_register("H", "L"), Ok(0x0000));
    assert_eq!(cpu.registers.get_register("F"), Ok(0b10010000));
}

#[test]
fn add_sp_e8_forwards() {
    let mut cpu = CPU::new();
    cpu.sp = 0x000F;
    cpu.add_SP_e8(1);
    assert_eq!(cpu.sp, 0x0010);
    assert_eq!(cpu.registers.get_register("F"), Ok(0b00100000));
    cpu.sp = 0x1000;
    cpu.add_SP_e8(0x20);
    assert_eq!(cpu.sp, 0x1020);
    assert_eq!(cpu.registers.get_register("F"), Ok(0));
    cpu.add_SP_e8(0);
    assert_eq!(cpu.sp, 0x1020);
    assert_eq!(cpu.registers.get_register("F"), Ok(0));
}

#[test]
fn add_sp_e8_forwards_past_the_top() {
    let mut cpu = CPU::new();
    cpu.sp = 0xFFFF;
    cpu.add_SP_e8(1);
    assert_eq!(cpu.sp, 0);
    assert_eq!(cpu.registers.get_register("F"), Ok(0b10110000));
    cpu.sp = 0xFFF0;
    cpu.add_SP_e8(127);
    assert_eq!(cpu.sp, 0x006F);
    assert_eq!(cpu.registers.get_register("F"), Ok(0b00010000));
}

#[test]
fn add_sp_e8_backwards() {
    let mut cpu = CPU::new();
    cpu.sp = 0x0100;
    cpu.add_SP_e8(-1);
    assert_eq!(cpu.sp, 0x00FF);
    // lower nibble and lower byte both grew: neither flag
    assert_eq!(cpu.registers.get_register("F"), Ok(0));
    cpu.sp = 0x0000;
    cpu.add_SP_e8(-128);
    assert_eq!(cpu.sp, 0xFF80);
    // lower nibble 0 <= 0: half-carry; lower byte 0x80 > 0: no carry
    assert_eq!(cpu.registers.get_register("F"), Ok(0b00100000));
    assert_eq!(cpu.memory.len(), 65535);
}

#[test]
fn add_sp_e8_leaves_the_registers() {
    let mut cpu = CPU::new();
    cpu.registers.set_register("A", 0x11).unwrap();
    cpu.registers.set_joint_register("H", "L", 0x2233).unwrap();
    cpu.sp = 0x00FF;
    cpu.add_SP_e8(-16);
    assert_eq!(cpu.sp, 0x00EF);
    assert_eq!(cpu.registers.get_register("A"), Ok(0x11));
    assert_eq!(cpu.registers.get_joint_register("H", "L"), Ok(0x2233));
    assert_eq!(cpu.registers.get_register("F"), Ok(0b00110000));
}
