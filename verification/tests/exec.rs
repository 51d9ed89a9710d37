use chip8::vm::error::VmError;
use chip8::vm::exec::Step;
use chip8::vm::flags::VmKey;
use chip8::vm::Vm;

fn fresh_vm() -> Vm {
    let mut vm = Vm::new();
    vm.load_program(&[]).unwrap();
    vm
}

#[test]
fn add_reg_carry_flag_matches_wide_sum() {
    let cases: &[(u8, u8)] = &[
        (0, 0),
        (255, 1),
        (255, 255),
        (200, 55),
        (200, 56),
        (1, 254),
        (128, 128),
        (127, 128),
    ];
    for &(a, b) in cases {
        let mut vm = fresh_vm();
        vm.reg8[1] = a;
        vm.reg8[2] = b;
        let step = vm.add_x_y(1, 2).unwrap();
        assert_eq!(step, Step::Next);
        assert_eq!(vm.reg8[1], a.wrapping_add(b), "sum for {} + {}", a, b);
        let expected_vf = ((a as u16 + b as u16) > 255) as u8;
        assert_eq!(vm.reg8[0xF], expected_vf, "carry for {} + {}", a, b);
    }
}

#[test]
fn sub_reg_borrow_flag_matches_comparison() {
    let cases: &[(u8, u8)] = &[
        (0, 0),
        (0, 1),
        (1, 0),
        (255, 255),
        (100, 55),
        (55, 100),
        (128, 127),
    ];
    for &(a, b) in cases {
        let mut vm = fresh_vm();
        vm.reg8[1] = a;
        vm.reg8[2] = b;
        let step = vm.sub_x_y(1, 2).unwrap();
        assert_eq!(step, Step::Next);
        assert_eq!(vm.reg8[1], a.wrapping_sub(b), "difference for {} - {}", a, b);
        assert_eq!(vm.reg8[0xF], (a >= b) as u8, "no-borrow for {} - {}", a, b);
    }
}

#[test]
fn subn_reg_reverses_operands() {
    let mut vm = fresh_vm();
    vm.reg8[1] = 10;
    vm.reg8[2] = 25;
    vm.subn_x_y(1, 2).unwrap();
    assert_eq!(vm.reg8[1], 15);
    assert_eq!(vm.reg8[0xF], 1);

    vm.reg8[1] = 30;
    vm.reg8[2] = 25;
    vm.subn_x_y(1, 2).unwrap();
    assert_eq!(vm.reg8[1], 251);
    assert_eq!(vm.reg8[0xF], 0);
}

#[test]
fn shifts_report_the_dropped_bit() {
    let mut vm = fresh_vm();
    vm.reg8[3] = 0b1000_0001;
    vm.shr_x_y(3, 0).unwrap();
    assert_eq!(vm.reg8[3], 0b0100_0000);
    assert_eq!(vm.reg8[0xF], 1);

    vm.reg8[3] = 0b1000_0001;
    vm.shl_x_y(3, 0).unwrap();
    assert_eq!(vm.reg8[3], 0b0000_0010);
    assert_eq!(vm.reg8[0xF], 1);

    vm.reg8[3] = 0b0100_0010;
    vm.shr_x_y(3, 0).unwrap();
    assert_eq!(vm.reg8[3], 0b0010_0001);
    assert_eq!(vm.reg8[0xF], 0);
}

#[test]
fn bitwise_ops_write_vx() {
    let mut vm = fresh_vm();
    vm.reg8[1] = 0b1100;
    vm.reg8[2] = 0b1010;
    vm.or_x_y(1, 2).unwrap();
    assert_eq!(vm.reg8[1], 0b1110);

    vm.reg8[1] = 0b1100;
    vm.and_x_y(1, 2).unwrap();
    assert_eq!(vm.reg8[1], 0b1000);

    vm.reg8[1] = 0b1100;
    vm.xor_x_y(1, 2).unwrap();
    assert_eq!(vm.reg8[1], 0b0110);
}

#[test]
fn add_immediate_wraps_without_flag() {
    let mut vm = fresh_vm();
    vm.reg8[1] = 250;
    vm.reg8[0xF] = 7;
    vm.add_x_kk(1, 10).unwrap();
    assert_eq!(vm.reg8[1], 4);
    assert_eq!(vm.reg8[0xF], 7, "AddImmediate must not touch VF");
}

#[test]
fn bcd_writes_three_digits() {
    let mut vm = fresh_vm();
    vm.reg8[2] = 234;
    vm.reg_i = 0x400;
    vm.ld_b_x(2).unwrap();
    assert_eq!(&vm.mem[0x400..0x403], &[2, 3, 4]);

    vm.reg8[2] = 7;
    vm.ld_b_x(2).unwrap();
    assert_eq!(&vm.mem[0x400..0x403], &[0, 0, 7]);
}

#[test]
fn store_and_load_registers_are_inclusive() {
    let mut vm = fresh_vm();
    for k in 0..6u8 {
        vm.reg8[k as usize] = 10 + k;
    }
    vm.reg_i = 0x500;
    vm.ld_deref_i_x(5).unwrap();
    assert_eq!(&vm.mem[0x500..0x506], &[10, 11, 12, 13, 14, 15]);
    assert_eq!(vm.mem[0x506], 0, "only V0..=Vx move to memory");

    let mut vm2 = fresh_vm();
    vm2.mem[0x500..0x506].copy_from_slice(&[10, 11, 12, 13, 14, 15]);
    vm2.reg_i = 0x500;
    vm2.reg8[6] = 99;
    vm2.ld_x_deref_i(5).unwrap();
    assert_eq!(&vm2.reg8[0..6], &[10, 11, 12, 13, 14, 15]);
    assert_eq!(vm2.reg8[6], 99, "only V0..=Vx come from memory");
}

#[test]
fn font_address_is_five_bytes_per_glyph() {
    let mut vm = fresh_vm();
    vm.reg8[0] = 0xA;
    vm.ld_f_x(0).unwrap();
    assert_eq!(vm.reg_i, 50);
}

#[test]
fn add_to_index_wraps() {
    let mut vm = fresh_vm();
    vm.reg_i = 0xFFFF;
    vm.reg8[0] = 2;
    vm.add_i_x(0).unwrap();
    assert_eq!(vm.reg_i, 1);
}

#[test]
fn timer_loads_and_stores() {
    let mut vm = fresh_vm();
    vm.reg_dt = 42;
    vm.ld_x_dt(3).unwrap();
    assert_eq!(vm.reg8[3], 42);

    vm.reg8[4] = 77;
    vm.ld_dt_x(4).unwrap();
    assert_eq!(vm.reg_dt, 77);
    vm.ld_st_x(4).unwrap();
    assert_eq!(vm.reg_st, 77);
}

#[test]
fn random_with_explicit_byte_masks_exactly() {
    let mut vm = fresh_vm();
    vm.rnd_with(0, 0x3C, 0xAB).unwrap();
    assert_eq!(vm.reg8[0], 0xAB & 0x3C);
}

#[test]
fn random_never_sets_bits_outside_mask() {
    for _ in 0..32 {
        let mut vm = fresh_vm();
        vm.rnd(0, 0x0F).unwrap();
        assert_eq!(vm.reg8[0] & 0xF0, 0);
    }
}

#[test]
fn key_skips_follow_key_mask() {
    let mut vm = fresh_vm();
    vm.reg8[0] = 5;
    assert_eq!(vm.skp_x(0).unwrap(), Step::Next);
    assert_eq!(vm.sknp_x(0).unwrap(), Step::Skip);

    vm.signal_key_down(VmKey::from(5));
    assert_eq!(vm.skp_x(0).unwrap(), Step::Skip);
    assert_eq!(vm.sknp_x(0).unwrap(), Step::Next);

    vm.signal_key_up(VmKey::from(5));
    assert_eq!(vm.skp_x(0).unwrap(), Step::Next);
}

#[test]
fn conditional_skip_steps() {
    let mut vm = fresh_vm();
    vm.reg8[1] = 9;
    vm.reg8[2] = 9;
    assert_eq!(vm.se_x_kk(1, 9).unwrap(), Step::Skip);
    assert_eq!(vm.se_x_kk(1, 8).unwrap(), Step::Next);
    assert_eq!(vm.sne_x_kk(1, 9).unwrap(), Step::Next);
    assert_eq!(vm.sne_x_kk(1, 8).unwrap(), Step::Skip);
    assert_eq!(vm.se_x_y(1, 2).unwrap(), Step::Skip);
    assert_eq!(vm.sne_x_y(1, 2).unwrap(), Step::Next);
}

#[test]
fn bad_register_is_reported() {
    let mut vm = fresh_vm();
    assert_eq!(vm.get_reg(16), Err(VmError::BadReg(16)));
    assert_eq!(vm.set_reg(200, 1), Err(VmError::BadReg(200)));
}

#[test]
fn invalid_opcode_is_reported_with_its_word() {
    let mut vm = fresh_vm();
    assert_eq!(vm.invalid(0xFF, 0xFF), Err(VmError::BadInsn(0xFFFF)));
}

#[test]
fn error_descriptions() {
    assert_eq!(VmError::StackOverflow.describe(), "stack overflow");
    assert_eq!(VmError::StackUnderflow.describe(), "stack underflow");
    assert_eq!(VmError::BadInsn(0xFFFF).describe(), "bad instruction");
    assert_eq!(VmError::BadReg(16).describe(), "bad register");
    assert_eq!(VmError::BadProgramTooLarge(1, 2).describe(), "program too large");
}
