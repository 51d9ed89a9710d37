use chip8::insn::insns::{AddInsn, JpInsn, LdInsn, SeInsn, SneInsn};
use chip8::insn::Insn;

#[test]
fn decode_cls() {
    assert!(matches!(Insn::from_bytes(0x00, 0xE0), Some(Insn::Cls(_))));
}

#[test]
fn decode_ret() {
    assert!(matches!(Insn::from_bytes(0x00, 0xEE), Some(Insn::Ret(_))));
}

#[test]
fn decode_nop() {
    assert!(matches!(Insn::from_bytes(0x00, 0x00), Some(Insn::Nop)));
}

#[test]
fn decode_sys() {
    match Insn::from_bytes(0x01, 0x23) {
        Some(Insn::Sys(i)) => assert_eq!(i.addr, 0x123),
        other => panic!("unexpected decode: {:?}", other),
    }
}

#[test]
fn decode_jump() {
    assert!(matches!(
        Insn::from_bytes(0x1A, 0xBC),
        Some(Insn::Jp(JpInsn::Addr(0xABC)))
    ));
}

#[test]
fn decode_jump_plus_v0() {
    assert!(matches!(
        Insn::from_bytes(0xB1, 0x23),
        Some(Insn::Jp(JpInsn::AddrReg(0x123)))
    ));
}

#[test]
fn decode_call() {
    match Insn::from_bytes(0x2F, 0x00) {
        Some(Insn::Call(i)) => assert_eq!(i.addr, 0xF00),
        other => panic!("unexpected decode: {:?}", other),
    }
}

#[test]
fn decode_invalid_word() {
    assert!(Insn::from_bytes(0xFF, 0xFF).is_none());
    assert!(Insn::from_bytes(0x5A, 0xB1).is_none());
    assert!(Insn::from_bytes(0x8A, 0xB9).is_none());
    assert!(Insn::from_bytes(0x9A, 0xB4).is_none());
    assert!(Insn::from_bytes(0xE1, 0x00).is_none());
    assert!(Insn::from_bytes(0xF1, 0x34).is_none());
}

#[test]
fn decode_skips() {
    assert!(matches!(
        Insn::from_bytes(0x31, 0x42),
        Some(Insn::Se(SeInsn::RegVal(1, 0x42)))
    ));
    assert!(matches!(
        Insn::from_bytes(0x41, 0x42),
        Some(Insn::SNe(SneInsn::RegVal(1, 0x42)))
    ));
    assert!(matches!(
        Insn::from_bytes(0x51, 0x20),
        Some(Insn::Se(SeInsn::RegReg(1, 2)))
    ));
    assert!(matches!(
        Insn::from_bytes(0x91, 0x20),
        Some(Insn::SNe(SneInsn::RegReg(1, 2)))
    ));
}

#[test]
fn decode_loads_and_adds() {
    assert!(matches!(
        Insn::from_bytes(0x61, 0x42),
        Some(Insn::Ld(LdInsn::RegVal(1, 0x42)))
    ));
    assert!(matches!(
        Insn::from_bytes(0x71, 0x42),
        Some(Insn::Add(AddInsn::RegVal(1, 0x42)))
    ));
    assert!(matches!(
        Insn::from_bytes(0x81, 0x20),
        Some(Insn::Ld(LdInsn::RegReg(1, 2)))
    ));
    assert!(matches!(
        Insn::from_bytes(0xA1, 0x23),
        Some(Insn::Ld(LdInsn::MemAddr(0x123)))
    ));
}

#[test]
fn decode_alu() {
    match Insn::from_bytes(0x81, 0x21) {
        Some(Insn::Or(i)) => assert_eq!((i.x, i.y), (1, 2)),
        other => panic!("unexpected decode: {:?}", other),
    }
    match Insn::from_bytes(0x81, 0x22) {
        Some(Insn::And(i)) => assert_eq!((i.x, i.y), (1, 2)),
        other => panic!("unexpected decode: {:?}", other),
    }
    match Insn::from_bytes(0x81, 0x23) {
        Some(Insn::Xor(i)) => assert_eq!((i.x, i.y), (1, 2)),
        other => panic!("unexpected decode: {:?}", other),
    }
    assert!(matches!(
        Insn::from_bytes(0x81, 0x24),
        Some(Insn::Add(AddInsn::RegReg(1, 2)))
    ));
    match Insn::from_bytes(0x81, 0x25) {
        Some(Insn::Sub(i)) => assert_eq!((i.x, i.y), (1, 2)),
        other => panic!("unexpected decode: {:?}", other),
    }
    match Insn::from_bytes(0x81, 0x26) {
        Some(Insn::Shr(i)) => assert_eq!((i.x, i.y), (1, 2)),
        other => panic!("unexpected decode: {:?}", other),
    }
    match Insn::from_bytes(0x81, 0x27) {
        Some(Insn::SubN(i)) => assert_eq!((i.x, i.y), (1, 2)),
        other => panic!("unexpected decode: {:?}", other),
    }
    match Insn::from_bytes(0x81, 0x2E) {
        Some(Insn::Shl(i)) => assert_eq!((i.x, i.y), (1, 2)),
        other => panic!("unexpected decode: {:?}", other),
    }
}

#[test]
fn decode_draw_and_rnd() {
    match Insn::from_bytes(0xC1, 0x42) {
        Some(Insn::Rnd(i)) => assert_eq!((i.x, i.val), (1, 0x42)),
        other => panic!("unexpected decode: {:?}", other),
    }
    match Insn::from_bytes(0xD1, 0x25) {
        Some(Insn::Drw(i)) => assert_eq!((i.x, i.y, i.n), (1, 2, 5)),
        other => panic!("unexpected decode: {:?}", other),
    }
}

#[test]
fn decode_key_skips() {
    match Insn::from_bytes(0xE1, 0x9E) {
        Some(Insn::Skp(i)) => assert_eq!(i.x, 1),
        other => panic!("unexpected decode: {:?}", other),
    }
    match Insn::from_bytes(0xE1, 0xA1) {
        Some(Insn::SkpNp(i)) => assert_eq!(i.x, 1),
        other => panic!("unexpected decode: {:?}", other),
    }
}

#[test]
fn decode_f_group() {
    assert!(matches!(
        Insn::from_bytes(0xF1, 0x07),
        Some(Insn::Ld(LdInsn::RegDt(1)))
    ));
    assert!(matches!(
        Insn::from_bytes(0xF1, 0x0A),
        Some(Insn::Ld(LdInsn::RegKey(1)))
    ));
    assert!(matches!(
        Insn::from_bytes(0xF1, 0x15),
        Some(Insn::Ld(LdInsn::DtReg(1)))
    ));
    assert!(matches!(
        Insn::from_bytes(0xF1, 0x18),
        Some(Insn::Ld(LdInsn::StReg(1)))
    ));
    assert!(matches!(
        Insn::from_bytes(0xF1, 0x1E),
        Some(Insn::Add(AddInsn::MemReg(1)))
    ));
    assert!(matches!(
        Insn::from_bytes(0xF1, 0x29),
        Some(Insn::Ld(LdInsn::SpriteReg(1)))
    ));
    assert!(matches!(
        Insn::from_bytes(0xF1, 0x33),
        Some(Insn::Ld(LdInsn::BcdReg(1)))
    ));
    assert!(matches!(
        Insn::from_bytes(0xF1, 0x55),
        Some(Insn::Ld(LdInsn::PtrReg(1)))
    ));
    assert!(matches!(
        Insn::from_bytes(0xF1, 0x65),
        Some(Insn::Ld(LdInsn::RegPtr(1)))
    ));
}

#[test]
fn insn_from_conversions() {
    let i: Insn = LdInsn::MemAddr(0x200).into();
    assert!(matches!(i, Insn::Ld(LdInsn::MemAddr(0x200))));
    let i: Insn = JpInsn::Addr(0x300).into();
    assert!(matches!(i, Insn::Jp(JpInsn::Addr(0x300))));
}
