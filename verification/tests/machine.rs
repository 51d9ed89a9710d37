use chip8::vm::error::VmError;
use chip8::vm::exec::Step;
use chip8::vm::flags::VmKey;
use chip8::vm::state::VmState;
use chip8::vm::{Vm, MEM_SIZE, PROG_MAX, PROG_OFF};

#[test]
fn largest_program_loads_and_one_more_byte_fails() {
    let mut vm = Vm::new();
    assert_eq!(vm.load_program(&vec![0u8; 3584]), Ok(()));

    let mut vm = Vm::new();
    assert_eq!(
        vm.load_program(&vec![0u8; 3585]),
        Err(VmError::BadProgramTooLarge(3585, 3584))
    );
}

#[test]
fn load_program_lays_out_memory() {
    let mut vm = Vm::new();
    vm.load_program(&[0xAB, 0xCD, 0xEF]).unwrap();
    assert_eq!(vm.mem.len(), MEM_SIZE);
    assert_eq!(vm.mem[0], 0xF0, "first font byte");
    assert_eq!(vm.mem[5], 0x20, "glyph 1 begins");
    assert_eq!(&vm.mem[PROG_OFF..PROG_OFF + 3], &[0xAB, 0xCD, 0xEF]);
    assert_eq!(vm.mem[PROG_OFF + 3], 0);
    assert_eq!(vm.reg_pc, PROG_OFF as u16);
    assert_eq!(vm.reg_sp, 0);
    assert!(vm.vram.iter().all(|&row| row == 0));
}

#[test]
fn load_program_failure_leaves_machine_alone() {
    let mut vm = Vm::new();
    vm.load_program(&[0x12, 0x34]).unwrap();
    vm.reg8[3] = 9;
    let before_pc = vm.reg_pc;
    assert!(vm.load_program(&vec![0u8; PROG_MAX + 1]).is_err());
    assert_eq!(vm.reg8[3], 9);
    assert_eq!(vm.reg_pc, before_pc);
    assert_eq!(&vm.mem[PROG_OFF..PROG_OFF + 2], &[0x12, 0x34]);
}

#[test]
fn update_advances_over_a_nop() {
    let mut vm = Vm::new();
    vm.load_program(&[]).unwrap();
    assert_eq!(vm.update(), Ok(()));
    assert_eq!(vm.reg_pc, 0x202);
}

#[test]
fn update_executes_a_jump() {
    let mut vm = Vm::new();
    vm.load_program(&[0x1A, 0xBC]).unwrap();
    vm.update().unwrap();
    assert_eq!(vm.reg_pc, 0x0ABC);
}

#[test]
fn update_executes_jump_plus_v0() {
    let mut vm = Vm::new();
    vm.load_program(&[0xB2, 0x00]).unwrap();
    vm.reg8[0] = 4;
    vm.update().unwrap();
    assert_eq!(vm.reg_pc, 0x204);
}

#[test]
fn update_skip_moves_two_instructions() {
    let mut vm = Vm::new();
    vm.load_program(&[0x30, 0x00]).unwrap();
    vm.update().unwrap();
    assert_eq!(vm.reg_pc, 0x204, "V0 == 0 so the skip fires");

    let mut vm = Vm::new();
    vm.load_program(&[0x30, 0x01]).unwrap();
    vm.update().unwrap();
    assert_eq!(vm.reg_pc, 0x202, "V0 != 1 so no skip");
}

#[test]
fn update_reports_invalid_instruction() {
    let mut vm = Vm::new();
    vm.load_program(&[0xFF, 0xFF]).unwrap();
    assert_eq!(vm.update(), Err(VmError::BadInsn(0xFFFF)));
    assert_eq!(vm.reg_pc, 0x200, "a failed step leaves the state alone");
}

#[test]
fn update_treats_syscall_as_noop() {
    let mut vm = Vm::new();
    vm.load_program(&[0x01, 0x23]).unwrap();
    assert_eq!(vm.update(), Ok(()));
    assert_eq!(vm.reg_pc, 0x202);
}

#[test]
fn call_overflows_on_the_seventeenth_level() {
    // 0x2200 at 0x200 calls address 0x200 again, forever.
    let mut vm = Vm::new();
    vm.load_program(&[0x22, 0x00]).unwrap();
    for depth in 1..=16 {
        assert_eq!(vm.update(), Ok(()), "call {} fits", depth);
        assert_eq!(vm.reg_pc, 0x200);
        assert_eq!(vm.reg_sp, depth);
    }
    assert_eq!(vm.update(), Err(VmError::StackOverflow));
    assert_eq!(vm.reg_sp, 16);
}

#[test]
fn return_underflows_on_an_empty_stack() {
    let mut vm = Vm::new();
    vm.load_program(&[0x00, 0xEE]).unwrap();
    assert_eq!(vm.update(), Err(VmError::StackUnderflow));
}

#[test]
fn call_then_return_round_trip() {
    // 0x2204: call 0x204; at 0x204, 0x00EE: return to 0x202.
    let mut vm = Vm::new();
    vm.load_program(&[0x22, 0x04, 0x00, 0x00, 0x00, 0xEE]).unwrap();
    vm.update().unwrap();
    assert_eq!(vm.reg_pc, 0x204);
    assert_eq!(vm.reg_sp, 1);
    assert_eq!(vm.stack[0], 0x202);
    vm.update().unwrap();
    assert_eq!(vm.reg_pc, 0x202);
    assert_eq!(vm.reg_sp, 0);
}

#[test]
fn wait_for_key_blocks_until_a_key_arrives() {
    // 0xF50A: wait for a key into V5.
    let mut vm = Vm::new();
    vm.load_program(&[0xF5, 0x0A]).unwrap();
    vm.update().unwrap();
    let pc_after_wait_started = vm.reg_pc;

    for _ in 0..3 {
        assert_eq!(vm.update(), Ok(()));
        assert_eq!(vm.reg_pc, pc_after_wait_started, "no progress while waiting");
    }

    vm.signal_key_down(VmKey::from(5));
    assert_eq!(vm.reg8[5], 5, "the waited-for register receives the key code");

    vm.update().unwrap();
    assert_eq!(vm.reg_pc, pc_after_wait_started + 2, "the next step advances again");
}

#[test]
fn timers_count_down_and_stop_at_zero() {
    let mut vm = Vm::new();
    vm.load_program(&[]).unwrap();
    vm.reg_dt = 2;
    vm.reg_st = 1;
    vm.update_timers();
    assert_eq!((vm.reg_dt, vm.reg_st), (1, 0));
    vm.update_timers();
    assert_eq!((vm.reg_dt, vm.reg_st), (0, 0));
    vm.update_timers();
    assert_eq!((vm.reg_dt, vm.reg_st), (0, 0));
}

#[test]
fn key_signals_edit_the_mask() {
    let mut vm = Vm::new();
    vm.load_program(&[]).unwrap();
    vm.signal_key_down(VmKey::from(0));
    vm.signal_key_down(VmKey::from(5));
    vm.signal_key_down(VmKey::from(15));
    assert_eq!(vm.keys.to_vec(), vec![0, 5, 15]);
    vm.signal_key_up(VmKey::from(5));
    assert_eq!(vm.keys.to_vec(), vec![0, 15]);
}

#[test]
fn key_conversions_round_trip() {
    for code in 0..16u8 {
        let key = VmKey::from(code);
        assert_eq!(u8::from(key), code);
    }
    assert_eq!(u8::from(VmKey::empty()), 0xFF);
    assert_eq!(VmKey::from(16u8), VmKey::empty());
}

#[test]
fn fetching_at_the_edge_of_memory() {
    let mut vm = Vm::new();
    vm.load_program(&[]).unwrap();
    vm.mem[4094] = 0x12;
    vm.mem[4095] = 0x34;
    assert_eq!(vm.get_insn_bytes_at(4094), Some((0x12, 0x34)));
    assert_eq!(vm.get_insn_bytes_at(4095), None);
    assert_eq!(vm.get_insn_bytes_at(usize::MAX), None);
}

#[test]
fn state_snapshot_loads_and_decodes() {
    let mut st = VmState::default();
    st.load_program(&[0x1A, 0xBC, 0x00, 0xE0]).unwrap();
    assert_eq!(st.reg_pc, 0x200);
    assert_eq!(st.get_insn_bytes(), Some((0x1A, 0xBC)));
    assert!(matches!(
        st.get_insn_at(0x202),
        Some(chip8::insn::Insn::Cls(_))
    ));
    assert!(matches!(st.get_insn_at(0x204), Some(chip8::insn::Insn::Nop)));
    assert_eq!(st.get_insn_at(4095), None, "no second byte at the last address");
}

#[test]
fn state_snapshot_rejects_large_programs() {
    let mut st = VmState::default();
    assert_eq!(
        st.load_program(&vec![0u8; 3585]),
        Err(VmError::BadProgramTooLarge(3585, 3584))
    );
}

#[test]
fn font_occupies_the_bottom_eighty_bytes() {
    let font = chip8::vm::sprites::font_bytes();
    assert_eq!(font.len(), 80);
    let mut buf = vec![0xAAu8; 100];
    chip8::vm::sprites::copy_to(&mut buf);
    assert_eq!(&buf[0..80], &font[..]);
    assert!(buf[80..].iter().all(|&b| b == 0xAA), "bytes past the font stay");
}

#[test]
fn skip_if_picks_the_step() {
    assert_eq!(Step::skip_if(true), Step::Skip);
    assert_eq!(Step::skip_if(false), Step::Next);
}

#[test]
fn fresh_machine_has_font_and_program_counter_ready() {
    let vm = Vm::new();
    let font = chip8::vm::sprites::font_bytes();
    assert_eq!(vm.mem.len(), MEM_SIZE);
    assert_eq!(&vm.mem[0..80], &font[..], "the glyph font is present at startup");
    assert!(vm.mem[80..].iter().all(|&b| b == 0));
    assert_eq!(vm.reg_pc, PROG_OFF as u16, "the program counter starts at the program offset");
    assert_eq!(vm.reg_i, 0);
    assert_eq!(vm.reg_sp, 0);
    assert_eq!((vm.reg_dt, vm.reg_st), (0, 0));
    assert!(vm.reg8.iter().all(|&v| v == 0));
    assert!(vm.stack.iter().all(|&v| v == 0));
    assert!(vm.vram.iter().all(|&row| row == 0));
    assert_eq!(vm.keys.to_vec(), Vec::<u8>::new());
    assert!(!vm.wait_key);
}

#[test]
fn fresh_state_snapshot_has_font_and_program_counter_ready() {
    let st = VmState::default();
    let font = chip8::vm::sprites::font_bytes();
    assert_eq!(st.mem.len(), MEM_SIZE);
    assert_eq!(&st.mem[0..80], &font[..]);
    assert!(st.mem[80..].iter().all(|&b| b == 0));
    assert_eq!(st.reg_pc, PROG_OFF as u16);
    assert_eq!(st.reg_sp, 0);
    assert!(st.reg8.iter().all(|&v| v == 0));
}
