//! Interpretation of the trap's return value, and the flag-set algebra.

use clone3::Errno;
use clone3::Flags;
use clone3::handle_return_value;
use clone3::flags::FILES;
use clone3::flags::FS;
use clone3::flags::PIDFD;

#[test]
fn sentinel_maps_to_last_error() {
    assert_eq!(handle_return_value(-1, 11), Err(Errno(11)));
    assert_eq!(handle_return_value(-1, 22), Err(Errno(22)));
}

#[test]
fn zero_is_returned_as_the_new_context() {
    assert_eq!(handle_return_value(0, 11), Ok(0));
}

#[test]
fn positive_value_is_the_child_identifier() {
    assert_eq!(handle_return_value(4321, 0), Ok(4321));
    assert_eq!(handle_return_value(i32::MAX as i64, 0), Ok(i32::MAX));
}

#[test]
fn empty_flags_have_no_bits() {
    assert_eq!(Flags::empty().bits(), 0);
    assert_eq!(Flags::default().bits(), 0);
    assert!(!Flags::empty().contains(PIDFD));
    assert!(!Flags::empty().intersects(PIDFD));
}

#[test]
fn insert_adds_bits() {
    let mut flags = Flags::empty();
    flags.insert(FILES);
    flags.insert(FS);
    assert_eq!(flags.bits(), FILES | FS);
    assert!(flags.contains(FILES));
    assert!(flags.contains(FILES | FS));
    assert!(!flags.contains(FILES | PIDFD));
    assert!(flags.intersects(FILES | PIDFD));
    assert!(!flags.intersects(PIDFD));
}

#[test]
fn from_bits_keeps_the_pattern() {
    let flags = Flags::from_bits(FILES | PIDFD);
    assert_eq!(flags.bits(), FILES | PIDFD);
}
