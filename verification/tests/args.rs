use noop::{parse, usage, Action, ArgReason, Error, OpenType, Parsed};

fn argv(parts: &[&[u8]]) -> Vec<Vec<u8>> {
    parts.iter().map(|p| p.to_vec()).collect()
}

/// Test that no output fails
#[test]
fn no_args() {
    let r = parse(vec![]);
    assert!(matches!(
        r,
        Err(Error::Arg {
            reason: ArgReason::NoProgram
        })
    ));
}

/// Test that no program fails
#[test]
fn no_program() {
    let r = parse(argv(&[b"a", b"b", b"-l", b"--"]));
    assert!(matches!(
        r,
        Err(Error::Arg {
            reason: ArgReason::NoProgram
        })
    ));
}

/// Test that help flag works
#[test]
fn help() {
    let r = parse(argv(&[b"-h"]));
    assert!(matches!(r, Ok(Parsed::Help)));
    assert!(usage().contains("USAGE"));
}

/// `-h` wins even when rules and a program follow it.
#[test]
fn help_amid_rules() {
    let r = parse(argv(&[b"/tmp/f", b"-h", b"--", b"cat"]));
    assert!(matches!(r, Ok(Parsed::Help)));
}

/// Usage errors ask for the usage text; others do not.
#[test]
fn usage_errors() {
    let nul = Error::Arg {
        reason: ArgReason::NulByte,
    };
    assert!(nul.is_usage());
    assert!(!Error::OS { errno: 1 }.is_usage());
    assert!(!Error::Parse.is_usage());
}

/// An argument with an empty path before `=` is rejected.
#[test]
fn empty_left_rejected() {
    let r = parse(argv(&[b"=f", b"--", b"cat"]));
    assert!(matches!(
        r,
        Err(Error::Arg {
            reason: ArgReason::EmptyPath
        })
    ));
}

/// An argument with more than one `=` is rejected.
#[test]
fn double_eq_rejected() {
    let r = parse(argv(&[b"a=b=c", b"--", b"cat"]));
    assert!(matches!(
        r,
        Err(Error::Arg {
            reason: ArgReason::BadParts
        })
    ));
}

/// An argument holding a NUL byte is rejected.
#[test]
fn nul_rejected() {
    let r = parse(argv(&[b"a\0b", b"--", b"cat"]));
    assert!(matches!(
        r,
        Err(Error::Arg {
            reason: ArgReason::NulByte
        })
    ));
    let r = parse(argv(&[b"--", b"cat", b"a\0b"]));
    assert!(matches!(
        r,
        Err(Error::Arg {
            reason: ArgReason::NulByte
        })
    ));
}

/// Each rule form parses to its action, keyed by the path as given.
#[test]
fn rule_forms() {
    let r = parse(argv(&[b"f", b"g:r", b"h:w", b"bar=f", b"-l", b"--", b"cat", b"f"]));
    match r {
        Ok(Parsed::Run(args)) => {
            assert!(args.show);
            assert_eq!(args.argv, argv(&[b"cat", b"f"]));
            assert_eq!(args.paths.len(), 4);
            assert_eq!(args.paths[0].0, b"f".to_vec());
            assert!(matches!(args.paths[0].1, Action::Block(OpenType::All)));
            assert_eq!(args.paths[1].0, b"g".to_vec());
            assert!(matches!(args.paths[1].1, Action::Block(OpenType::Read)));
            assert_eq!(args.paths[2].0, b"h".to_vec());
            assert!(matches!(args.paths[2].1, Action::Block(OpenType::Write)));
            assert_eq!(args.paths[3].0, b"bar".to_vec());
            match &args.paths[3].1 {
                Action::Replace(t) => assert_eq!(t, &b"f".to_vec()),
                other => panic!("expected a replacement, got {:?}", other),
            }
        }
        other => panic!("expected a parsed command line, got {:?}", other),
    }
}

/// Flags stop at `--`: later `-l` and `-h` belong to the program.
#[test]
fn flags_end_at_separator() {
    let r = parse(argv(&[b"--", b"prog", b"-h", b"-l"]));
    match r {
        Ok(Parsed::Run(args)) => {
            assert!(!args.show);
            assert_eq!(args.argv, argv(&[b"prog", b"-h", b"-l"]));
            assert!(args.paths.is_empty());
        }
        other => panic!("expected a parsed command line, got {:?}", other),
    }
}
