use mos6502::status::{Flag, Status};

#[test]
fn test_set_carry_off_off() {
    let mut status = Status::default();
    status.set_carry(0x0fe);
    assert!(!status.contains(Flag::Carry));
}

#[test]
fn test_set_carry_off_on() {
    let mut status = Status::default();
    status.set_carry(0x100);
    assert!(status.contains(Flag::Carry));
}

#[test]
fn test_set_carry_on_off() {
    let mut status = Status::default();
    status.set(Flag::Carry, true);
    status.set_carry(0x0fe);
    assert!(!status.contains(Flag::Carry));
}

#[test]
fn test_set_carry_on_on() {
    let mut status = Status::default();
    status.set(Flag::Carry, true);
    status.set_carry(0x100);
    assert!(status.contains(Flag::Carry));
}

#[test]
fn test_set_negative_off_off() {
    let mut status = Status::default();
    status.set_negative(0b0000_0001);
    assert!(!status.contains(Flag::Negative));
}

#[test]
fn test_set_negative_off_on() {
    let mut status = Status::default();
    status.set_negative(0b1000_0000);
    assert!(status.contains(Flag::Negative));
}

#[test]
fn test_set_negative_on_off() {
    let mut status = Status::default();
    status.set(Flag::Negative, true);
    status.set_negative(0b0000_0001);
    assert!(!status.contains(Flag::Negative));
}

#[test]
fn test_set_negative_on_on() {
    let mut status = Status::default();
    status.set(Flag::Negative, true);
    status.set_negative(0b1000_0000);
    assert!(status.contains(Flag::Negative));
}

#[test]
fn test_set_overflow_off_off() {
    let mut status = Status::default();
    status.set_overflow(false);
    assert!(!status.contains(Flag::Overflow));
}

#[test]
fn test_set_overflow_off_on() {
    let mut status = Status::default();
    status.set_overflow(true);
    assert!(status.contains(Flag::Overflow));
}

#[test]
fn test_set_overflow_on_off() {
    let mut status = Status::default();
    status.set(Flag::Overflow, true);
    status.set_overflow(false);
    assert!(!status.contains(Flag::Overflow));
}

#[test]
fn test_set_overflow_on_on() {
    let mut status = Status::default();
    status.set(Flag::Overflow, true);
    status.set_overflow(true);
    assert!(status.contains(Flag::Overflow));
}

#[test]
fn test_set_zero_off_off() {
    let mut status = Status::default();
    status.set_zero(1);
    assert!(!status.contains(Flag::Zero));
}

#[test]
fn test_set_zero_off_on() {
    let mut status = Status::default();
    status.set_zero(0);
    assert!(status.contains(Flag::Zero));
}

#[test]
fn test_set_zero_on_off() {
    let mut status = Status::default();
    status.set(Flag::Zero, true);
    status.set_zero(1);
    assert!(!status.contains(Flag::Zero));
}

#[test]
fn test_set_zero_on_on() {
    let mut status = Status::default();
    status.set(Flag::Zero, true);
    status.set_zero(0);
    assert!(status.contains(Flag::Zero));
}
