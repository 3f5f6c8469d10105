use rsgb::alu::{self, ShiftOp};
use rsgb::registers::FlagSet;

fn no_flags() -> FlagSet {
    FlagSet { zero: false, negative: false, half_carry: false, carry: false }
}

#[test]
fn add_sets_carry_half_carry_and_zero() {
    let r = alu::add(0xFF, 0x01, false);
    assert_eq!(r.value, 0x00);
    assert!(r.flags.zero && r.flags.carry && r.flags.half_carry && !r.flags.negative);
}

#[test]
fn add_half_carry_only() {
    let r = alu::add(0x0F, 0x01, false);
    assert_eq!(r.value, 0x10);
    assert!(!r.flags.zero && !r.flags.carry && r.flags.half_carry && !r.flags.negative);
}

#[test]
fn add_without_any_carry() {
    let r = alu::add(0x12, 0x34, false);
    assert_eq!(r.value, 0x46);
    assert_eq!(r.flags, no_flags());
}

#[test]
fn add_with_carry_in() {
    let r = alu::add(0x0E, 0x01, true);
    assert_eq!(r.value, 0x10);
    assert!(r.flags.half_carry && !r.flags.carry);
}

#[test]
fn dec_of_zero_wraps() {
    let r = alu::dec(0x00, no_flags());
    assert_eq!(r.value, 0xFF);
    assert!(r.flags.negative && r.flags.half_carry && !r.flags.zero && !r.flags.carry);
}

#[test]
fn dec_keeps_carry_and_sets_zero() {
    let fl = FlagSet { carry: true, ..no_flags() };
    let r = alu::dec(0x01, fl);
    assert_eq!(r.value, 0x00);
    assert!(r.flags.zero && r.flags.negative && !r.flags.half_carry && r.flags.carry);
}

#[test]
fn inc_wraps_to_zero() {
    let r = alu::inc(0xFF, no_flags());
    assert_eq!(r.value, 0x00);
    assert!(r.flags.zero && r.flags.half_carry && !r.flags.negative && !r.flags.carry);
}

#[test]
fn sub_borrows() {
    let r = alu::sub(0x10, 0x01, false);
    assert_eq!(r.value, 0x0F);
    assert!(r.flags.negative && r.flags.half_carry && !r.flags.carry && !r.flags.zero);
    let r = alu::sub(0x00, 0x01, false);
    assert_eq!(r.value, 0xFF);
    assert!(r.flags.carry);
    let r = alu::sub(0x05, 0x04, true);
    assert_eq!(r.value, 0x00);
    assert!(r.flags.zero && !r.flags.carry);
}

#[test]
fn logic_operations() {
    let r = alu::and(0xF0, 0x0F);
    assert_eq!(r.value, 0);
    assert!(r.flags.zero && r.flags.half_carry);
    let r = alu::or(0xF0, 0x0F);
    assert_eq!(r.value, 0xFF);
    assert_eq!(r.flags, no_flags());
    let r = alu::xor(0x5A, 0x5A);
    assert_eq!(r.value, 0);
    assert!(r.flags.zero && !r.flags.half_carry);
}

#[test]
fn shifts_and_rotates() {
    let r = alu::shift(ShiftOp::Rlc, 0x85, false);
    assert_eq!(r.value, 0x0B);
    assert!(r.flags.carry && !r.flags.zero);
    let r = alu::shift(ShiftOp::Rrc, 0x01, false);
    assert_eq!(r.value, 0x80);
    assert!(r.flags.carry);
    let r = alu::shift(ShiftOp::Rl, 0x80, false);
    assert_eq!(r.value, 0x00);
    assert!(r.flags.carry && r.flags.zero);
    let r = alu::shift(ShiftOp::Rr, 0x01, true);
    assert_eq!(r.value, 0x80);
    assert!(r.flags.carry);
    let r = alu::shift(ShiftOp::Sla, 0xC0, false);
    assert_eq!(r.value, 0x80);
    assert!(r.flags.carry);
    let r = alu::shift(ShiftOp::Sra, 0x81, false);
    assert_eq!(r.value, 0xC0);
    assert!(r.flags.carry);
    let r = alu::shift(ShiftOp::Swap, 0xAB, true);
    assert_eq!(r.value, 0xBA);
    assert!(!r.flags.carry);
    let r = alu::shift(ShiftOp::Srl, 0x01, false);
    assert_eq!(r.value, 0x00);
    assert!(r.flags.zero && r.flags.carry);
    let r = alu::rotate_a(ShiftOp::Rlc, 0x00, false);
    assert_eq!(r.value, 0x00);
    assert!(!r.flags.zero);
}

#[test]
fn bit_test_reads_the_bit() {
    let f = alu::bit_test(7, 0x80, no_flags());
    assert!(!f.zero && f.half_carry && !f.negative);
    let f = alu::bit_test(0, 0xFE, FlagSet { carry: true, ..no_flags() });
    assert!(f.zero && f.carry);
}

#[test]
fn sixteen_bit_additions() {
    let r = alu::add16(0x0FFF, 0x0001, no_flags());
    assert_eq!(r.value, 0x1000);
    assert!(r.flags.half_carry && !r.flags.carry);
    let r = alu::add16(0xFFFF, 0x0001, FlagSet { zero: true, ..no_flags() });
    assert_eq!(r.value, 0x0000);
    assert!(r.flags.carry && r.flags.zero);
    let r = alu::add_sp(0xFFF8, 0x08);
    assert_eq!(r.value, 0x0000);
    assert!(r.flags.carry && r.flags.half_carry && !r.flags.zero);
    let r = alu::add_sp(0x0010, 0xFF);
    assert_eq!(r.value, 0x000F);
}

#[test]
fn decimal_adjust() {
    // 0x19 + 0x28 = 0x41 in binary, 47 in decimal
    let r = alu::add(0x19, 0x28, false);
    let d = alu::daa(r.value, r.flags);
    assert_eq!(d.value, 0x47);
    assert!(!d.flags.carry);
    // 0x99 + 0x01 = 100 decimal: 0x00 with carry
    let r = alu::add(0x99, 0x01, false);
    let d = alu::daa(r.value, r.flags);
    assert_eq!(d.value, 0x00);
    assert!(d.flags.carry && d.flags.zero);
    // 0x20 - 0x01 = 0x19 decimal
    let r = alu::sub(0x20, 0x01, false);
    let d = alu::daa(r.value, r.flags);
    assert_eq!(d.value, 0x19);
}
