use std::ops::Range;

use rusty_chip::fault::Fault;
use rusty_chip::pointer::Pointer;

const TEST_RANGE: Range<usize> = 0x100..0xF00;

#[test]
fn pointer_current_defaults_to_range_start() {
    let p = Pointer::new(TEST_RANGE);
    assert_eq!(TEST_RANGE.start, p.current);
    assert_eq!(0x100, p.current);
}

#[test]
fn pointer_move_forward_adds_2_to_current() {
    let mut p = Pointer::new(TEST_RANGE);

    p.move_forward().unwrap();
    assert_eq!(TEST_RANGE.start + 2, p.current);
    assert_eq!(0x102, p.current);

    p.move_forward().unwrap();
    assert_eq!(0x104, p.current);
}

#[test]
fn pointer_move_backward_subtracts_2_from_current() {
    let mut p = Pointer::new(TEST_RANGE);
    p.current = TEST_RANGE.end;

    p.move_backward().unwrap();
    assert_eq!(TEST_RANGE.end - 2, p.current);
    assert_eq!(0xEFE, p.current);

    p.move_backward().unwrap();
    assert_eq!(0xEFC, p.current);
}

#[test]
fn pointer_set_current() {
    let mut p = Pointer::new(TEST_RANGE);
    let addr = 0xABC;

    p.set(addr).unwrap();
    assert_eq!(addr, p.current);
}

#[test]
fn set_outside_the_range_is_a_fault() {
    let mut p = Pointer::new(TEST_RANGE);
    p.set(0x200).unwrap();

    assert_eq!(Err(Fault::OutOfRange), p.set(0xFF));
    assert_eq!(0x200, p.current);
    assert_eq!(Err(Fault::OutOfRange), p.set(0xF00));
    assert_eq!(0x200, p.current);
    assert_eq!(Ok(()), p.set(0x100));
    assert_eq!(Ok(()), p.set(0xEFF));
    assert_eq!(0xEFF, p.current);
}

#[test]
fn move_forward_stops_at_the_end_of_the_range() {
    let mut p = Pointer::new(TEST_RANGE);
    p.set(0xEFC).unwrap();

    assert_eq!(Ok(0xEFE), p.next());
    assert_eq!(Ok(()), p.move_forward());
    assert_eq!(0xEFE, p.current);
    assert_eq!(Err(Fault::OutOfRange), p.next());
    assert_eq!(Err(Fault::OutOfRange), p.move_forward());
    assert_eq!(0xEFE, p.current);
}

#[test]
fn move_backward_stops_at_the_start_of_the_range() {
    let mut p = Pointer::new(TEST_RANGE);
    p.set(0x102).unwrap();

    assert_eq!(Ok(0x100), p.prev());
    assert_eq!(Ok(()), p.move_backward());
    assert_eq!(0x100, p.current);
    assert_eq!(Err(Fault::OutOfRange), p.prev());
    assert_eq!(Err(Fault::OutOfRange), p.move_backward());
    assert_eq!(0x100, p.current);
}

#[test]
fn moves_never_wrap_around_the_address_type() {
    let mut low = Pointer::new(0x0..0x10);
    low.set(0x1).unwrap();
    assert_eq!(Err(Fault::OutOfRange), low.move_backward());
    assert_eq!(0x1, low.current);

    let mut high = Pointer::new(0x0..usize::MAX);
    high.set(usize::MAX - 1).unwrap();
    assert_eq!(Err(Fault::OutOfRange), high.move_forward());
    assert_eq!(usize::MAX - 1, high.current);
}

#[test]
fn contains_is_half_open() {
    let p = Pointer::new(TEST_RANGE);
    assert!(!p.contains(0xFF));
    assert!(p.contains(0x100));
    assert!(p.contains(0xEFF));
    assert!(!p.contains(0xF00));
}
