use nix::libc::{O_CLOEXEC, O_CREAT, O_RDONLY, O_RDWR, O_TRUNC, O_WRONLY};
use noop::OpenType::{All, Read, Write};
use noop::{check_open, Action, OpenType};

/// Test standard `OpenType` parsing
#[test]
fn parse() {
    assert_eq!(OpenType::from(O_RDONLY), Read);
    assert_eq!(OpenType::from(O_WRONLY), Write);
    assert_eq!(OpenType::from(O_RDWR), All);
}

/// Test optional `open` flags
#[test]
fn extra() {
    assert_eq!(OpenType::from(O_RDONLY | O_CREAT | O_TRUNC), Read);
}

/// Extra flag bits never change the parsed mode, whatever the base flags.
#[test]
fn extra_bits_ignored() {
    for f in [O_RDONLY, O_WRONLY, O_RDWR, O_WRONLY | O_CREAT] {
        assert_eq!(
            OpenType::from(f),
            OpenType::from(f | O_CLOEXEC | O_TRUNC | O_CREAT)
        );
    }
    assert_eq!(
        OpenType::from(0u64),
        OpenType::from(0u64 | 0x80000 | 0x200 | 0x40)
    );
}

/// Flags from a 64-bit register parse like their 32-bit form.
#[test]
fn from_register() {
    assert_eq!(OpenType::from(0u64), Read);
    assert_eq!(OpenType::from(1u64), Write);
    assert_eq!(OpenType::from(2u64), All);
    assert_eq!(OpenType::from(577u64), Write);
}

/// A block on everything vetoes every mode.
#[test]
fn block_all() {
    let a = Action::Block(All);
    assert!(!a.allows(&Read));
    assert!(!a.allows(&Write));
    assert!(!a.allows(&All));
}

/// A block on one mode vetoes that mode and read-write, nothing else.
#[test]
fn block_one_mode() {
    let r = Action::Block(Read);
    assert!(!r.allows(&Read));
    assert!(r.allows(&Write));
    assert!(!r.allows(&All));

    let w = Action::Block(Write);
    assert!(w.allows(&Read));
    assert!(!w.allows(&Write));
    assert!(!w.allows(&All));
}

/// A replacement never blocks, and no rule at all never blocks.
#[test]
fn replace_and_absent_allow() {
    let rep = Action::Replace(b"/tmp/other".to_vec());
    assert!(rep.allows(&Read));
    assert!(rep.allows(&Write));
    assert!(rep.allows(&All));

    assert!(check_open(&Read, None));
    assert!(check_open(&All, None));
    assert!(!check_open(&All, Some(&Action::Block(Write))));
}
