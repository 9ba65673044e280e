use fmodes::Mode;
use fmodes::native::mode_from_native_bits;
use fmodes::native::mode_to_native_bits;

#[test]
fn set_algebra() {
    let owner = Mode::from_bits(Mode::IRWXU).unwrap();
    let group = Mode::from_bits(Mode::IRWXG).unwrap();
    let both = owner.union(group);
    assert_eq!(both.bits(), 0o770);
    assert_eq!(both.intersection(owner), owner);
    assert_eq!(both.difference(group), owner);
    assert!(both.contains(owner));
    assert!(!owner.contains(both));
    assert_eq!(owner.complement().bits(), 0o7077);
    assert!(!owner.is_empty());
    assert!(Mode::empty().is_empty());
    assert_eq!(Mode::default(), Mode::empty());
    assert_eq!(Mode::all().bits(), 0o7777);
    assert_eq!(Mode::all().complement(), Mode::empty());
}

#[test]
fn mode_bits() {
    let m = Mode::from_bits(0o644).unwrap();
    assert_eq!(m.bits(), 0o644);
    assert_eq!(u16::from(m), 0o644);
}

#[test]
fn native_bits_round_trip() {
    let m = Mode::from_bits(0o755).unwrap();
    assert_eq!(mode_to_native_bits(&m), 0o755u32);
    assert_eq!(mode_from_native_bits(0o755), Some(m));
    assert_eq!(mode_from_native_bits(0o010755), None);
    assert_eq!(mode_from_native_bits(0x8000_0000), None);
}

#[test]
fn native_umask_interop() {
    // the native bit positions coincide with POSIX's, so the word handed to
    // the umask crate holds exactly the mask's bits, and comes back unchanged
    let m = Mode::from_bits(0o741).unwrap();
    let native = umask::Mode::from(mode_to_native_bits(&m));
    assert_eq!(u32::from(native), 0o741u32);
    assert_eq!(mode_from_native_bits(u32::from(native)), Some(m));
}
