use magic::cookie::Flags;
use magic::flags;

#[test]
fn union_is_commutative() {
    let a = Flags::from_bits_retain(flags::MIME_TYPE | flags::SYMLINK);
    let b = Flags::from_bits_retain(flags::MIME_ENCODING);
    assert_eq!(a | b, b | a);
    assert_eq!((a | b).bits(), 0x0000412);
}

#[test]
fn union_is_idempotent() {
    let a = Flags::from_bits_retain(flags::COMPRESS);
    let b = Flags::from_bits_retain(flags::DEVICES | flags::COMPRESS);
    assert_eq!((a | b) | b, a | b);
    assert_eq!(a | a, a);
}

#[test]
fn union_is_associative() {
    let a = Flags::from_bits_retain(flags::DEBUG);
    let b = Flags::from_bits_retain(flags::RAW);
    let c = Flags::from_bits_retain(flags::APPLE);
    assert_eq!((a | b) | c, a | (b | c));
    assert_eq!(a.union(b).union(c).bits(), 0x0000901);
}

#[test]
fn default_is_empty() {
    assert_eq!(Flags::default(), Flags::empty());
    assert!(Flags::default().is_empty());
    assert_eq!(Flags::empty().bits(), 0);
    let a = Flags::from_bits_retain(flags::ERROR);
    assert_eq!(Flags::empty() | a, a);
}

#[test]
fn composite_flags_are_unions() {
    assert_eq!(flags::MIME, 0x0000410);
    assert_eq!(
        Flags::from_bits_retain(flags::MIME_TYPE) | Flags::from_bits_retain(flags::MIME_ENCODING),
        Flags::from_bits_retain(flags::MIME)
    );
    assert_eq!(flags::NODESC, flags::EXTENSION | flags::MIME | flags::APPLE);
    assert_eq!(flags::NO_CHECK_BUILTIN, 0x07fb000);
    assert_eq!(flags::NO_CHECK_BUILTIN & flags::NO_CHECK_SOFT, 0);
}

#[test]
fn contains_checks_every_bit() {
    let mime = Flags::from_bits_retain(flags::MIME);
    assert!(mime.contains(Flags::from_bits_retain(flags::MIME_TYPE)));
    assert!(mime.contains(Flags::from_bits_retain(flags::MIME_ENCODING)));
    assert!(mime.contains(Flags::empty()));
    assert!(!Flags::from_bits_retain(flags::MIME_TYPE).contains(mime));
}

#[test]
fn unnamed_bits_are_kept() {
    let f = Flags::from_bits_retain(-1);
    assert_eq!(f.bits(), -1);
    assert!(f.contains(Flags::from_bits_retain(flags::NO_CHECK_JSON)));
}
