use chip8::cpu::{decode, CpuError, Opcode, CPU, SP_BOTTOM};

#[test]
fn test_add_nn_to_vx_wraps() {
    let mut c = CPU::new();
    // Instruction: 0x740a
    // v[4] = 250 + 10, wrapping to 4, flag register untouched.
    c.v[0x4] = 250;
    c.mem[0] = 0x74;
    c.mem[1] = 0x0a;

    c.execute_insn().unwrap();
    assert_eq!(c.v[0x4], 4);
    assert_eq!(c.v[0xf], 0);
    assert_eq!(c.pc, 2);
}

#[test]
fn test_shl_vx_flag_zero() {
    let mut c = CPU::new();
    // Instruction: 0x870e with v[7] = 2: most significant bit is zero.
    c.v[7] = 2;
    c.mem[0] = 0x87;
    c.mem[1] = 0x0e;

    c.execute_insn().unwrap();
    assert_eq!(c.v[7], 4);
    assert_eq!(c.v[0xf], 0);
    assert_eq!(c.pc, 2);
}

#[test]
fn test_shl_vx_flag_one() {
    let mut c = CPU::new();
    // Instruction: 0x870e with v[7] = 0x82: most significant bit is one.
    c.v[7] = 0x82;
    c.mem[0] = 0x87;
    c.mem[1] = 0x0e;

    c.execute_insn().unwrap();
    assert_eq!(c.v[7], 0x04);
    assert_eq!(c.v[0xf], 1);
    assert_eq!(c.pc, 2);
}

#[test]
fn test1_skip_if_vx_ne_vy() {
    let mut c = CPU::new();
    // Instruction: 0x92b0
    // Skip next instruction if v[2] != v[0xb]
    c.v[0x2] = 1;
    c.v[0xb] = 2;
    c.mem[0] = 0x92;
    c.mem[1] = 0xb0;

    c.execute_insn().unwrap();
    assert_eq!(c.pc, 0x4);
}

#[test]
fn test2_skip_if_vx_ne_vy() {
    let mut c = CPU::new();
    // Instruction: 0x92b0
    // Skip next instruction if v[2] != v[0xb]
    c.v[0x2] = 7;
    c.v[0xb] = 7;
    c.mem[0] = 0x92;
    c.mem[1] = 0xb0;

    c.execute_insn().unwrap();
    assert_eq!(c.pc, 0x2);
}

#[test]
fn test_skip_same_register_always_taken() {
    let mut c = CPU::new();
    // Instruction: 0x5220: v[2] == v[2] holds whatever the register holds.
    c.v[0x2] = 0x31;
    c.mem[0] = 0x52;
    c.mem[1] = 0x20;

    c.execute_insn().unwrap();
    assert_eq!(c.pc, 0x4);
}

#[test]
fn test_assign_address_to_ireg() {
    let mut c = CPU::new();
    // Instruction: 0xa123: i = 0x123.
    c.mem[0] = 0xa1;
    c.mem[1] = 0x23;

    c.execute_insn().unwrap();
    assert_eq!(c.i, 0x123);
    assert_eq!(c.pc, 2);
}

#[test]
fn test_jmp_to_address_plus_v0() {
    let mut c = CPU::new();
    // Instruction: 0xb100: jump to 0x100 + v[0].
    c.v[0] = 5;
    c.mem[0] = 0xb1;
    c.mem[1] = 0x00;

    c.execute_insn().unwrap();
    assert_eq!(c.pc, 0x105);
}

#[test]
fn test_rand_masks_constant() {
    let mut c = CPU::new();
    // Instruction: 0xc50f: v[5] = random byte AND 0x0f.
    c.mem[0] = 0xc5;
    c.mem[1] = 0x0f;

    c.execute_insn().unwrap();
    assert_eq!(c.v[5] & 0xf0, 0);
    assert_eq!(c.pc, 2);
}

#[test]
fn test_rand_handler_with_fixed_source() {
    let mut c = CPU::new();
    // Instruction: 0xc53c with a fixed all-ones random byte: v[5] = 0x3c.
    c.mem[0] = 0xc5;
    c.mem[1] = 0x3c;

    c.assign_rand_bitand_const_to_vx(0xff);
    assert_eq!(c.v[5], 0x3c);
    assert_eq!(c.pc, 2);

    // A fixed all-zeroes byte masks the constant away entirely.
    let mut c = CPU::new();
    c.mem[0] = 0xc5;
    c.mem[1] = 0x3c;
    c.assign_rand_bitand_const_to_vx(0x00);
    assert_eq!(c.v[5], 0x00);
}

#[test]
fn test_decode_families() {
    assert_eq!(decode(0x00, 0xee), Ok(Opcode::Ret));
    assert_eq!(decode(0x10, 0x55), Ok(Opcode::Jmp));
    assert_eq!(decode(0x21, 0x34), Ok(Opcode::Call));
    assert_eq!(decode(0x85, 0xc4), Ok(Opcode::AddVyToVx));
    assert_eq!(decode(0x87, 0x0e), Ok(Opcode::ShlVx));
    assert_eq!(decode(0xc5, 0x0f), Ok(Opcode::RandAndNn));
}

#[test]
fn test_decode_error_unassigned_leading_nibble() {
    // Families D, E and F have no handler in this instruction subset.
    assert_eq!(decode(0xd2, 0x34), Err(CpuError::Decode));
    assert_eq!(decode(0xe0, 0xa1), Err(CpuError::Decode));
    assert_eq!(decode(0xf5, 0x65), Err(CpuError::Decode));
    // Family 0 holds only the return opcode 00EE.
    assert_eq!(decode(0x00, 0x00), Err(CpuError::Decode));
    assert_eq!(decode(0x00, 0xe0), Err(CpuError::Decode));
}

#[test]
fn test_decode_error_unassigned_trailing_nibble() {
    // In family 8 the trailing nibbles 8 to D and F are unassigned.
    assert_eq!(decode(0x85, 0xc8), Err(CpuError::Decode));
    assert_eq!(decode(0x85, 0xcd), Err(CpuError::Decode));
    assert_eq!(decode(0x85, 0xcf), Err(CpuError::Decode));
}

#[test]
fn test_execute_insn_decode_error_leaves_state_alone() {
    let mut c = CPU::new();
    // Instruction: 0xd234 has no handler.
    c.mem[0] = 0xd2;
    c.mem[1] = 0x34;

    assert_eq!(c.execute_insn(), Err(CpuError::Decode));
    assert_eq!(c.pc, 0);
    assert_eq!(c.sp, SP_BOTTOM);
}

#[test]
fn test_execute_insn_pc_out_of_range() {
    let mut c = CPU::new();
    // The program counter no longer references a valid two-byte window.
    c.pc = 4095;

    assert_eq!(c.execute_insn(), Err(CpuError::AddressViolation));
    assert_eq!(c.pc, 4095);
}

#[test]
fn test_execute_insn_stack_overflow() {
    let mut c = CPU::new();
    // A call with the stack pointer at the last slot of the reserved
    // region would push past 0xeff.
    c.mem[0] = 0x21;
    c.mem[1] = 0x34;
    c.sp = 0xefe;

    assert_eq!(c.execute_insn(), Err(CpuError::AddressViolation));
    assert_eq!(c.pc, 0);
    assert_eq!(c.sp, 0xefe);

    // One slot lower the call still fits.
    let mut c = CPU::new();
    c.mem[0] = 0x21;
    c.mem[1] = 0x34;
    c.sp = 0xefc;
    c.execute_insn().unwrap();
    assert_eq!(c.pc, 0x134);
    assert_eq!(c.sp, 0xefe);
}

#[test]
fn test_execute_insn_stack_underflow() {
    let mut c = CPU::new();
    // A return with nothing on the stack.
    c.mem[0] = 0x00;
    c.mem[1] = 0xee;

    assert_eq!(c.execute_insn(), Err(CpuError::AddressViolation));
    assert_eq!(c.pc, 0);
    assert_eq!(c.sp, SP_BOTTOM);
}

#[test]
fn test_add_with_carry_into_flag_register_itself() {
    let mut c = CPU::new();
    // Instruction: 0x8ff4: v[0xf] += v[0xf] with carry; the carry report
    // wins over the wrapped sum.
    c.v[0xf] = 200;
    c.mem[0] = 0x8f;
    c.mem[1] = 0xf4;

    c.execute_insn().unwrap();
    assert_eq!(c.v[0xf], 1);
    assert_eq!(c.pc, 2);

    // Without a carry the sum lands in the flag register last.
    let mut c = CPU::new();
    c.v[0xf] = 5;
    c.mem[0] = 0x8f;
    c.mem[1] = 0xf4;
    c.execute_insn().unwrap();
    assert_eq!(c.v[0xf], 10);
}

#[test]
fn test_stack_helpers_round_trip() {
    let mut c = CPU::new();
    c.sp = 0xea0;
    c.copy_16bits_to_tos(0x1234);
    assert_eq!(c.mem[0xea0], 0x12);
    assert_eq!(c.mem[0xea1], 0x34);
    assert_eq!(c.get_16bits_from_tos(), 0x1234);
}

#[test]
fn test_instruction_field_accessors() {
    let mut c = CPU::new();
    // Instruction: 0x8a5c at pc 2.
    c.mem[2] = 0x8a;
    c.mem[3] = 0x5c;
    c.pc = 2;

    assert_eq!(c.nibble_x(), 0xa);
    assert_eq!(c.nibble_y(), 0x5);
    assert_eq!(c.get_constant(), 0x5c);
    assert_eq!(c.get_address(), 0xa5c);
}

#[test]
fn test_inc_pc_counts_instructions() {
    let mut c = CPU::new();
    c.inc_pc(1);
    assert_eq!(c.pc, 2);
    c.inc_pc(2);
    assert_eq!(c.pc, 6);
}

#[test]
fn test_new_machine_is_reset() {
    let c = CPU::new();
    assert_eq!(c.mem.len(), 4096);
    assert_eq!(c.v.len(), 16);
    assert!(c.mem.iter().all(|&b| b == 0));
    assert!(c.v.iter().all(|&b| b == 0));
    assert_eq!(c.i, 0);
    assert_eq!(c.pc, 0);
    assert_eq!(c.sp, SP_BOTTOM);
}
