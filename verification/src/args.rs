//! The command line of the tracer, parsed into a policy, flags, and the
//! program to run. Arguments arrive as byte buffers, in order, without the
//! tracer's own name:
//!
//! - `-l` turns per-syscall logging on, `-h` asks for the usage text, and
//!   `--` ends the rules; everything after it is the program and its
//!   arguments.
//! - Every other argument before `--` is a rule: `PATH` blocks every open of
//!   `PATH`, `PATH:r` only reads, `PATH:w` only writes, and `PATH=OTHER`
//!   substitutes `OTHER` whenever the tracee opens `PATH`.
//!
//! A rule whose path is empty before `=`, a rule with more than one `=`, an
//! argument holding a NUL byte, and a command line without a program are
//! rejected, each with its own reason.

use vstd::prelude::*;

use crate::bytes::clone_bytes;
use crate::bytes::find_byte;
use crate::bytes::first_pos;
use crate::bytes::is_pair;
use crate::bytes::seqs_view;
use crate::bytes::sub_bytes;
use crate::err::ArgReason;
use crate::err::Error;
use crate::policy::rules_view;
use crate::types::Action;
use crate::types::ActionModel;
use crate::types::OpenType;

verus! {

pub const BYTE_DASH: u8 = 45;

pub const BYTE_COLON: u8 = 58;

pub const BYTE_EQ: u8 = 61;

pub const BYTE_LOW_H: u8 = 104;

pub const BYTE_LOW_L: u8 = 108;

pub const BYTE_LOW_R: u8 = 114;

pub const BYTE_LOW_W: u8 = 119;

/// The usage text: how the tracer is invoked, its flags, and its rule
/// forms. Shown for `-h` and beside every usage error.
pub fn usage() -> &'static str {
    "noop blocks or modifies calls to open made by the passed program.

USAGE:
  noop [-lh] [FILE[:rw] | FILE=REPLACE]... -- PROGRAM [ARG]...

FLAGS:
  -l Logs open calls and resulting action to stderr
  -h Show this message and exit

ARGS:
  FILE          Block PROGRAM from opening FILE
      [:rw]     If :r or :w is specified only that opening mode is blocked
  FILE=REPLACE  Replace open calls to FILE with REPLACE
  PROGRAM       PROGRAM to run and intercept on
  ARGS          ARGS to pass to the PROGRAM
"
}

/// Whether a buffer holds a NUL byte anywhere.
pub open spec fn spec_has_nul(a: Seq<u8>) -> bool {
    exists|i: int| 0 <= i < a.len() && a[i] == 0
}

/// What one rule argument means: the path it names and the action it asks
/// for, or the reason it is rejected. An argument with a NUL byte is
/// rejected; one with a `=` is a substitution (rejected when the path before
/// the `=` is empty or another `=` follows); one ending in `:r` or `:w`
/// blocks that mode of its path; anything else blocks its path outright.
pub open spec fn spec_rule(a: Seq<u8>) -> Result<(Seq<u8>, ActionModel), Error> {
    if spec_has_nul(a) {
        Err(Error::Arg { reason: ArgReason::NulByte })
    } else {
        let p = first_pos(a, BYTE_EQ);
        if p < a.len() {
            if p == 0 {
                Err(Error::Arg { reason: ArgReason::EmptyPath })
            } else if first_pos(a.skip(p + 1), BYTE_EQ) < a.len() - p - 1 {
                Err(Error::Arg { reason: ArgReason::BadParts })
            } else {
                Ok((a.take(p), ActionModel::Replace(a.skip(p + 1))))
            }
        } else if a.len() >= 2 && a[a.len() - 2] == BYTE_COLON && a[a.len() - 1] == BYTE_LOW_W {
            Ok((a.take(a.len() - 2), ActionModel::Block(OpenType::Write)))
        } else if a.len() >= 2 && a[a.len() - 2] == BYTE_COLON && a[a.len() - 1] == BYTE_LOW_R {
            Ok((a.take(a.len() - 2), ActionModel::Block(OpenType::Read)))
        } else {
            Ok((a, ActionModel::Block(OpenType::All)))
        }
    }
}

/// Rejection law: a rule argument whose `=` has an empty path on its left,
/// or which holds more than one `=`, is rejected as a usage error.
pub proof fn lemma_rule_rejects_bad_eq(a: Seq<u8>)
    requires
        first_pos(a, BYTE_EQ) < a.len(),
        first_pos(a, BYTE_EQ) == 0 || first_pos(a.skip(first_pos(a, BYTE_EQ) + 1), BYTE_EQ)
            < a.len() - first_pos(a, BYTE_EQ) - 1,
    ensures
        spec_rule(a) matches Err(Error::Arg { .. }),
{
}

/// A parsed command line as contracts see it: the rules in the order given,
/// whether logging is on, and the program with its arguments.
pub struct ArgsModel {
    pub rules: Seq<(Seq<u8>, ActionModel)>,
    pub show: bool,
    pub argv: Seq<Seq<u8>>,
}

/// What parsing a whole command line yields.
pub enum ParseOut {
    /// The usage text was asked for.
    Help,
    /// The command line is rejected with this error.
    Reject(Error),
    /// A well-formed command line.
    Run(ArgsModel),
}

/// Folds the arguments from position `i` on over the state gathered so far:
/// `done` tells whether `--` was seen, `show` whether `-l` was seen, and
/// `rules` and `argv` hold what was gathered. The first offending argument
/// decides the error; `-h` wins over anything after it.
pub open spec fn spec_parse_from(
    args: Seq<Seq<u8>>,
    i: int,
    done: bool,
    show: bool,
    rules: Seq<(Seq<u8>, ActionModel)>,
    argv: Seq<Seq<u8>>,
) -> ParseOut
    decreases args.len() - i,
{
    if i < 0 || i >= args.len() {
        if argv.len() == 0 {
            ParseOut::Reject(Error::Arg { reason: ArgReason::NoProgram })
        } else {
            ParseOut::Run(ArgsModel { rules, show, argv })
        }
    } else {
        let a = args[i];
        if done {
            if spec_has_nul(a) {
                ParseOut::Reject(Error::Arg { reason: ArgReason::NulByte })
            } else {
                spec_parse_from(args, i + 1, done, show, rules, argv.push(a))
            }
        } else if a == seq![BYTE_DASH, BYTE_LOW_L] {
            spec_parse_from(args, i + 1, done, true, rules, argv)
        } else if a == seq![BYTE_DASH, BYTE_LOW_H] {
            ParseOut::Help
        } else if a == seq![BYTE_DASH, BYTE_DASH] {
            spec_parse_from(args, i + 1, true, show, rules, argv)
        } else {
            match spec_rule(a) {
                Err(e) => ParseOut::Reject(e),
                Ok(r) => spec_parse_from(args, i + 1, done, show, rules.push(r), argv),
            }
        }
    }
}

/// What a whole command line parses to.
pub open spec fn spec_parse(args: Seq<Seq<u8>>) -> ParseOut {
    spec_parse_from(args, 0, false, false, Seq::empty(), Seq::empty())
}

/// The fold never accepts an empty program: whatever was gathered so far, a
/// run it yields carries at least the program gathered along the way.
proof fn lemma_parse_from_run_has_program(
    args: Seq<Seq<u8>>,
    i: int,
    done: bool,
    show: bool,
    rules: Seq<(Seq<u8>, ActionModel)>,
    argv: Seq<Seq<u8>>,
)
    ensures
        spec_parse_from(args, i, done, show, rules, argv) matches ParseOut::Run(m) ==> m.argv.len()
            > 0,
    decreases args.len() - i,
{
    if i < 0 || i >= args.len() {
    } else {
        let a = args[i];
        if done {
            if !spec_has_nul(a) {
                lemma_parse_from_run_has_program(args, i + 1, done, show, rules, argv.push(a));
            }
        } else if a == seq![BYTE_DASH, BYTE_LOW_L] {
            lemma_parse_from_run_has_program(args, i + 1, done, true, rules, argv);
        } else if a == seq![BYTE_DASH, BYTE_LOW_H] {
        } else if a == seq![BYTE_DASH, BYTE_DASH] {
            lemma_parse_from_run_has_program(args, i + 1, true, show, rules, argv);
        } else {
            match spec_rule(a) {
                Err(_) => {},
                Ok(r) => lemma_parse_from_run_has_program(
                    args,
                    i + 1,
                    done,
                    show,
                    rules.push(r),
                    argv,
                ),
            }
        }
    }
}

/// Program law: a command line without a program never parses to a run; a
/// run always carries the program and its arguments.
pub proof fn lemma_run_has_program(args: Seq<Seq<u8>>)
    ensures
        spec_parse(args) matches ParseOut::Run(m) ==> m.argv.len() > 0,
{
    lemma_parse_from_run_has_program(args, 0, false, false, Seq::empty(), Seq::empty());
}

/// A parsed command line: the rules in the order given (paths as given, to
/// be canonicalised by the caller), whether logging is on, and the program
/// with its arguments.
#[derive(Debug)]
pub struct Args {
    pub paths: Vec<(Vec<u8>, Action)>,
    pub show: bool,
    pub argv: Vec<Vec<u8>>,
}

impl View for Args {
    type V = ArgsModel;

    open spec fn view(&self) -> ArgsModel {
        ArgsModel {
            rules: rules_view(self.paths@),
            show: self.show,
            argv: seqs_view(self.argv@),
        }
    }
}

/// What parsing yields when the command line is not rejected: the usage text
/// was asked for, or a command line to run.
#[derive(Debug)]
pub enum Parsed {
    Help,
    Run(Args),
}

/// Parses one rule argument into the path it names and the action it asks
/// for, exactly as `spec_rule` lays it out.
pub fn parse_rule(a: &Vec<u8>) -> (r: Result<(Vec<u8>, Action), Error>)
    ensures
        match r {
            Ok(ka) => spec_rule(a@) == Ok::<(Seq<u8>, ActionModel), Error>((ka.0@, ka.1@)),
            Err(e) => spec_rule(a@) == Err::<(Seq<u8>, ActionModel), Error>(e),
        },
{
    let n = a.len();
    let nul = find_byte(a, 0, 0);
    if nul < n {
        proof {
            assert(a@[nul as int] == 0);
        }
        return Err(Error::Arg { reason: ArgReason::NulByte });
    }
    proof {
        assert(!spec_has_nul(a@)) by {
            if spec_has_nul(a@) {
                let i = choose|i: int| 0 <= i < a@.len() && a@[i] == 0;
                assert(a@[i] != 0);
            }
        }
    }
    let p = find_byte(a, BYTE_EQ, 0);
    proof {
        assert(a@.skip(0) =~= a@);
    }
    if p < n {
        if p == 0 {
            return Err(Error::Arg { reason: ArgReason::EmptyPath });
        }
        let q = find_byte(a, BYTE_EQ, p + 1);
        if q < n {
            return Err(Error::Arg { reason: ArgReason::BadParts });
        }
        let key = sub_bytes(a, 0, p);
        let rep = sub_bytes(a, p + 1, n);
        proof {
            assert(a@.take(p as int) =~= a@.subrange(0, p as int));
            assert(a@.skip(p as int + 1) =~= a@.subrange(p as int + 1, n as int));
        }
        return Ok((key, Action::Replace(rep)));
    }
    if n >= 2 {
        let c = a[n - 2];
        let d = a[n - 1];
        if c == BYTE_COLON && d == BYTE_LOW_W {
            let key = sub_bytes(a, 0, n - 2);
            proof {
                assert(a@.take(n as int - 2) =~= a@.subrange(0, n as int - 2));
            }
            return Ok((key, Action::Block(OpenType::Write)));
        }
        if c == BYTE_COLON && d == BYTE_LOW_R {
            let key = sub_bytes(a, 0, n - 2);
            proof {
                assert(a@.take(n as int - 2) =~= a@.subrange(0, n as int - 2));
            }
            return Ok((key, Action::Block(OpenType::Read)));
        }
    }
    Ok((clone_bytes(a), Action::Block(OpenType::All)))
}

/// Parses a command line, given as the arguments after the tracer's own
/// name, into the usage request, a command line to run, or the error that
/// rejects it — exactly as `spec_parse` lays it out.
pub fn parse(args: Vec<Vec<u8>>) -> (r: Result<Parsed, Error>)
    ensures
        match r {
            Ok(Parsed::Help) => spec_parse(seqs_view(args@)) == ParseOut::Help,
            Ok(Parsed::Run(a)) => spec_parse(seqs_view(args@)) == ParseOut::Run(a@),
            Err(e) => spec_parse(seqs_view(args@)) == ParseOut::Reject(e),
        },
{
    let ghost v = seqs_view(args@);
    let mut done = false;
    let mut show = false;
    let mut paths: Vec<(Vec<u8>, Action)> = Vec::new();
    let mut argv: Vec<Vec<u8>> = Vec::new();
    let mut i: usize = 0;
    proof {
        assert(rules_view(paths@) =~= Seq::<(Seq<u8>, ActionModel)>::empty());
        assert(seqs_view(argv@) =~= Seq::<Seq<u8>>::empty());
    }
    while i < args.len()
        invariant
            i <= args@.len(),
            v == seqs_view(args@),
            spec_parse(v) == spec_parse_from(
                v,
                i as int,
                done,
                show,
                rules_view(paths@),
                seqs_view(argv@),
            ),
        decreases args@.len() - i,
    {
        proof {
            assert(v[i as int] == args@[i as int]@);
        }
        let a = &args[i];
        if done {
            let nul = find_byte(a, 0, 0);
            if nul < a.len() {
                proof {
                    assert(a@[nul as int] == 0);
                }
                return Err(Error::Arg { reason: ArgReason::NulByte });
            }
            proof {
                assert(!spec_has_nul(a@)) by {
                    if spec_has_nul(a@) {
                        let z = choose|z: int| 0 <= z < a@.len() && a@[z] == 0;
                        assert(a@[z] != 0);
                    }
                }
            }
            let ghost before = seqs_view(argv@);
            argv.push(clone_bytes(a));
            proof {
                assert(seqs_view(argv@) =~= before.push(a@));
            }
        } else if is_pair(a, BYTE_DASH, BYTE_LOW_L) {
            show = true;
        } else if is_pair(a, BYTE_DASH, BYTE_LOW_H) {
            return Ok(Parsed::Help);
        } else if is_pair(a, BYTE_DASH, BYTE_DASH) {
            done = true;
        } else {
            match parse_rule(a) {
                Err(e) => {
                    return Err(e);
                },
                Ok(ka) => {
                    let ghost before = rules_view(paths@);
                    let ghost entry = (ka.0@, ka.1@);
                    paths.push(ka);
                    proof {
                        assert(rules_view(paths@) =~= before.push(entry));
                    }
                },
            }
        }
        i = i + 1;
    }
    if argv.len() == 0 {
        proof {
            assert(seqs_view(argv@).len() == 0);
        }
        return Err(Error::Arg { reason: ArgReason::NoProgram });
    }
    let out = Args { paths, show, argv };
    proof {
        assert(seqs_view(out.argv@).len() != 0);
    }
    Ok(Parsed::Run(out))
}

} // verus!
