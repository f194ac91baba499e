use noop::OpenType::{All, Read, Write};
use noop::{
    dispatch_event, handle_open, log_line, plan_open, sys_to_name, Action, Error, Event, Policy,
    Regs, Step, Syscall,
};

const SYS_OPENAT: u64 = 257;
const SYS_OPEN: u64 = 2;
const POISONED: u64 = u64::MAX;

fn openat_regs(flags: u64) -> Regs {
    Regs {
        orig_rax: SYS_OPENAT,
        rdi: 0,
        rsi: 0x1000,
        rdx: flags,
        r8: 0,
        rsp: 0x7fff_0000,
    }
}

fn policy_of(rules: &[(&[u8], Action)]) -> Policy {
    let mut p = Policy::new();
    for (k, a) in rules {
        p.insert(k.to_vec(), a.clone());
    }
    p
}

/// Test that write block works
#[test]
fn no_write() {
    let f: &[u8] = b"/tmp/f";
    let p = policy_of(&[(f, Action::Block(Write))]);

    // `cat F` opens read-only: permitted, registers untouched
    let mut regs = openat_regs(0);
    let plan = plan_open(&p, &mut regs, &f.to_vec());
    assert!(plan.allowed);
    assert_eq!(regs, openat_regs(0));

    // `tee F` opens write-only (with create and truncate): blocked
    let mut regs = openat_regs(1 | 0x40 | 0x200);
    let plan = plan_open(&p, &mut regs, &f.to_vec());
    assert!(!plan.allowed);
    assert_eq!(regs.orig_rax, POISONED);
}

/// Test that read block works
#[test]
fn no_read() {
    let f: &[u8] = b"/tmp/f";
    let p = policy_of(&[(f, Action::Block(Read))]);

    // `cat F` opens read-only: blocked
    let mut regs = openat_regs(0);
    let plan = plan_open(&p, &mut regs, &f.to_vec());
    assert!(!plan.allowed);
    assert_eq!(regs.orig_rax, POISONED);

    // `tee F` opens write-only: permitted
    let mut regs = openat_regs(1 | 0x40 | 0x200);
    let plan = plan_open(&p, &mut regs, &f.to_vec());
    assert!(plan.allowed);
    assert_eq!(regs.orig_rax, SYS_OPENAT);
}

/// Test that open block works
#[test]
fn no_open() {
    let f: &[u8] = b"/tmp/f";
    let p = policy_of(&[(f, Action::Block(All))]);

    for flags in [0u64, 1, 2, 1 | 0x40 | 0x200] {
        let mut regs = openat_regs(flags);
        let plan = plan_open(&p, &mut regs, &f.to_vec());
        assert!(!plan.allowed);
        assert_eq!(regs.orig_rax, POISONED);
    }

    // another path is not restricted
    let mut regs = openat_regs(0);
    let plan = plan_open(&p, &mut regs, &b"/tmp/other".to_vec());
    assert!(plan.allowed);
}

/// Test that logging works
#[test]
fn log() {
    let f: &[u8] = b"/tmp/f";

    let line = log_line(Syscall::OpenAt, &f.to_vec(), Read, true, None);
    assert_eq!(line, b"openat(\"/tmp/f\", R)".to_vec());

    let line = log_line(Syscall::OpenAt, &f.to_vec(), Read, false, None);
    assert_eq!(line, b"openat(\"/tmp/f\", R) BLOCKED".to_vec());

    let line = log_line(Syscall::Open, &b"bar".to_vec(), All, true, Some(&f.to_vec()));
    assert_eq!(line, b"open(\"bar\", RW) => /tmp/f".to_vec());

    let line = log_line(Syscall::OpenAt, &f.to_vec(), Write, true, None);
    assert_eq!(line, b"openat(\"/tmp/f\", W)".to_vec());
}

/// Test that path redirection works
#[test]
fn redirect() {
    let f: &[u8] = b"/tmp/f";
    let p = policy_of(&[(b"bar", Action::Replace(f.to_vec()))]);

    let mut regs = openat_regs(0);
    let plan = plan_open(&p, &mut regs, &b"bar".to_vec());
    assert!(plan.allowed);

    // the substitute, NUL-terminated, goes just below the red zone
    let expected_addr = 0x7fff_0000u64 - 128 - (f.len() as u64 + 1);
    let (addr, data) = plan.write.expect("a replacement writes into the tracee");
    assert_eq!(addr, expected_addr);
    assert_eq!(data, b"/tmp/f\0".to_vec());

    // the pathname register of openat now points at it
    assert_eq!(regs.rsi, expected_addr);
    assert_eq!(regs.orig_rax, SYS_OPENAT);
    assert_eq!(plan.target, Some(f.to_vec()));

    // the word image poked into the tracee reads back as the substitute
    let image = noop::codec::words_to_bytes(&noop::codec::encode_write(&data));
    assert_eq!(noop::codec::take_until_nul(&image, None), f.to_vec());

    // a path without a rule is left alone
    let mut regs = openat_regs(0);
    let plan = plan_open(&p, &mut regs, &b"baz".to_vec());
    assert!(plan.write.is_none());
    assert_eq!(regs, openat_regs(0));
}

/// The `open` descriptor rewrites its own registers: path in rdi, flags in
/// rsi.
#[test]
fn open_descriptor() {
    let f: &[u8] = b"/f";
    let p = policy_of(&[(b"bar", Action::Replace(f.to_vec()))]);
    let mut regs = Regs {
        orig_rax: SYS_OPEN,
        rdi: 0x2000,
        rsi: 1,
        rdx: 0,
        r8: 0,
        rsp: 0x9000,
    };
    let plan = plan_open(&p, &mut regs, &b"bar".to_vec());
    assert_eq!(plan.sys, Syscall::Open);
    assert_eq!(plan.mode, Write);
    let expected_addr = 0x9000u64 - 128 - 3;
    assert_eq!(regs.rdi, expected_addr);
    assert_eq!(regs.rsi, 1);
}

/// The tracee's exit code is propagated exactly; traps are counted.
#[test]
fn dispatch() {
    assert_eq!(dispatch_event(&Event::Exited(42), 7), (Step::Exit(42), 7));
    assert_eq!(dispatch_event(&Event::Exited(0), 0), (Step::Exit(0), 0));
    assert_eq!(dispatch_event(&Event::OpenTrap, 7), (Step::Handle, 8));
    assert_eq!(dispatch_event(&Event::Other, 7), (Step::Ignore, 7));
}

/// Syscall numbers map to their kernel-interface names.
#[test]
fn syscall_names() {
    assert_eq!(sys_to_name(2), Some("open"));
    assert_eq!(sys_to_name(257), Some("openat"));
    assert_eq!(sys_to_name(304), Some("open_by_handle_at"));
    assert_eq!(sys_to_name(1), None);
    assert!(Syscall::from(60).is_none());
    assert_eq!(Syscall::OpenAt.name(), "openat");
    assert_eq!(Syscall::Open.number(), 2);
}

/// Handling a replacement against a process we cannot touch surfaces the
/// kernel's error.
#[test]
fn poke_failure_surfaces() {
    let f: &[u8] = b"/tmp/f";
    let p = policy_of(&[(b"bar", Action::Replace(f.to_vec()))]);
    let mut regs = openat_regs(0);
    let r = handle_open(-1, &p, &mut regs, &b"bar".to_vec());
    assert!(matches!(r, Err(Error::OS { .. })));

    // without a replacement nothing touches the tracee, whatever the pid
    let mut regs = openat_regs(0);
    let r = handle_open(-1, &p, &mut regs, &b"baz".to_vec());
    assert!(r.is_ok());
}

/// A later rule for the same path wins, as repeated command-line rules do.
#[test]
fn later_rule_wins() {
    let f: &[u8] = b"/tmp/f";
    let p = policy_of(&[(f, Action::Block(Write)), (f, Action::Block(Read))]);
    let mut regs = openat_regs(0);
    let plan = plan_open(&p, &mut regs, &f.to_vec());
    assert!(!plan.allowed);
    let mut regs = openat_regs(1);
    let plan = plan_open(&p, &mut regs, &f.to_vec());
    assert!(plan.allowed);
}
