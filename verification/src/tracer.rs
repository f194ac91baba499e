//! The decisions the tracer takes at every event: how a trapped open call is
//! judged against the policy, how its registers are rewritten, what is
//! placed into the tracee for a substitution, what the log line says, and
//! how the wait loop dispatches events.
//!
//! The loop driver owns the processes: it forks, installs the filter, waits,
//! fetches and flushes register snapshots, and canonicalises the pathname it
//! read out of the tracee. Everything it then does with a trapped call is
//! decided here.

use vstd::prelude::*;

use crate::bytes::append_bytes;
use crate::bytes::clone_bytes;
use crate::codec::read_data;
use crate::codec::write_data;
use crate::err::Error;
use crate::policy::spec_lookup;
use crate::policy::Policy;
use crate::syscall::spec_syscall_from;
use crate::syscall::Regs;
use crate::syscall::Syscall;
use crate::syscall::SYS_INVALID;
use crate::types::check_open;
use crate::types::spec_check_open;
use crate::types::spec_open_type;
use crate::types::Action;
use crate::types::ActionModel;
use crate::types::OpenType;

verus! {

/// Bytes below the stack pointer that the x86_64 ABI reserves for leaf
/// routines: a substituted pathname is placed below them, never inside.
pub const RED_ZONE: u64 = 128;

/// What the wait on the tracee reported: the tracee exited with a code, the
/// filter trapped an open-family call, or anything else.
#[derive(Clone, Copy, Debug, PartialEq, Eq, Structural)]
pub enum Event {
    Exited(i32),
    OpenTrap,
    Other,
}

/// What the loop driver must do next: exit with the tracee's code, handle a
/// trapped open, or just continue the tracee.
#[derive(Clone, Copy, Debug, PartialEq, Eq, Structural)]
pub enum Step {
    Exit(i32),
    Handle,
    Ignore,
}

/// Dispatches one wait event: the tracee's exit code is propagated exactly,
/// a trap is handled and counted, anything else is ignored.
pub fn dispatch_event(event: &Event, handled: u64) -> (r: (Step, u64))
    ensures
        (*event matches Event::Exited(c) ==> r.0 == Step::Exit(c) && r.1 == handled),
        (*event == Event::OpenTrap ==> r.0 == Step::Handle && r.1 == (if handled == u64::MAX {
            handled
        } else {
            (handled + 1) as u64
        })),
        (*event == Event::Other ==> r.0 == Step::Ignore && r.1 == handled),
{
    match event {
        Event::Exited(c) => (Step::Exit(*c), handled),
        Event::OpenTrap => (
            Step::Handle,
            if handled == u64::MAX {
                handled
            } else {
                handled + 1
            },
        ),
        Event::Other => (Step::Ignore, handled),
    }
}

/// Where a substituted pathname of `qlen` bytes (plus its terminating zero)
/// is placed: below the stack pointer, past the red zone, wrapping as the
/// machine would.
pub open spec fn spec_replace_addr(rsp: u64, qlen: nat) -> u64 {
    rsp.wrapping_sub(RED_ZONE).wrapping_sub((qlen + 1) as u64)
}

/// The register snapshot as it is flushed back after judging one trapped
/// open against the rule found for its path: the syscall number is poisoned
/// when the open is not allowed, the pathname pointer is moved to the
/// substituted path when the rule replaces, and nothing else changes.
pub open spec fn spec_regs_after(regs: Regs, rule: Option<ActionModel>, m: OpenType) -> Regs {
    let sys = spec_syscall_from(regs.orig_rax).unwrap();
    if !spec_check_open(m, rule) {
        Regs { orig_rax: SYS_INVALID, ..regs }
    } else {
        match rule {
            Some(ActionModel::Replace(q)) => sys.spec_with_path(
                regs,
                spec_replace_addr(regs.rsp, q.len()),
            ),
            _ => regs,
        }
    }
}

/// Blocking law: the snapshot flushed back carries the poisoned syscall
/// number — so that the kernel rejects the call — exactly when the rule for
/// the path does not allow the mode of the open.
pub proof fn lemma_poison_iff_blocked(regs: Regs, rule: Option<ActionModel>, m: OpenType)
    requires
        spec_syscall_from(regs.orig_rax) is Some,
    ensures
        (spec_regs_after(regs, rule, m).orig_rax == SYS_INVALID) == !spec_check_open(m, rule),
{
    if spec_check_open(m, rule) {
        match rule {
            Some(ActionModel::Replace(q)) => {
                let sys = spec_syscall_from(regs.orig_rax).unwrap();
                assert(sys.spec_with_path(
                    regs,
                    spec_replace_addr(regs.rsp, q.len()),
                ).orig_rax == regs.orig_rax);
            },
            _ => {},
        }
    }
}

/// Substitution law: when the rule replaces, the snapshot flushed back
/// points the call's pathname register at the address where the
/// NUL-terminated substitute is placed, below the red zone, and the
/// syscall number and stack pointer are kept.
pub proof fn lemma_replace_redirects(regs: Regs, rule: Option<ActionModel>, m: OpenType)
    requires
        spec_syscall_from(regs.orig_rax) is Some,
        rule matches Some(ActionModel::Replace(_)),
    ensures
        (rule matches Some(ActionModel::Replace(q)) ==> {
            let sys = spec_syscall_from(regs.orig_rax).unwrap();
            let after = spec_regs_after(regs, rule, m);
            &&& sys.spec_path(after) == spec_replace_addr(regs.rsp, q.len())
            &&& after.orig_rax == regs.orig_rax
            &&& after.rsp == regs.rsp
        }),
{
}

/// Everything decided about one trapped open call: the descriptor, the mode
/// asked for, whether the open is allowed, the substituted path when the
/// rule replaces (for the log), and the buffer to place into the tracee
/// with the address to place it at.
pub struct OpenPlan {
    pub sys: Syscall,
    pub mode: OpenType,
    pub allowed: bool,
    pub target: Option<Vec<u8>>,
    pub write: Option<(u64, Vec<u8>)>,
}

/// Judges one trapped open call against the policy and rewrites the
/// register snapshot, without touching the tracee: the open is allowed
/// exactly when the rule for its canonical path allows its mode; a blocked
/// call has its syscall number poisoned so the kernel rejects it; a replaced
/// call has its pathname pointer moved below the red zone, where the
/// NUL-terminated substitute (the plan's `write`) is to be placed.
pub fn plan_open(policy: &Policy, regs: &mut Regs, path: &Vec<u8>) -> (r: OpenPlan)
    requires
        spec_syscall_from(old(regs).orig_rax) is Some,
    ensures
        (spec_syscall_from(old(regs).orig_rax) matches Some(sys) ==> r.sys == sys && r.mode
            == spec_open_type(sys.spec_flag(*old(regs)))),
        r.allowed == spec_check_open(r.mode, spec_lookup(policy@, path@)),
        *final(regs) == spec_regs_after(*old(regs), spec_lookup(policy@, path@), r.mode),
        (match spec_lookup(policy@, path@) {
            Some(ActionModel::Replace(q)) => (r.write matches Some(w) && w.0 == spec_replace_addr(
                old(regs).rsp,
                q.len(),
            ) && w.1@ == q.push(0u8)) && (r.target matches Some(t) && t@ == q),
            _ => r.write is None && r.target is None,
        }),
{
    let sys = Syscall::from(regs.orig_rax).unwrap();
    let mode = OpenType::from_flags(sys.flag(regs));
    let action = policy.get(path);
    let allowed = check_open(&mode, action);
    let mut target: Option<Vec<u8>> = None;
    let mut write: Option<(u64, Vec<u8>)> = None;
    if let Some(Action::Replace(q)) = action {
        let mut data = clone_bytes(q);
        data.push(0);
        let addr = regs.rsp.wrapping_sub(RED_ZONE).wrapping_sub(data.len() as u64);
        sys.set_path(regs, addr);
        target = Some(clone_bytes(q));
        write = Some((addr, data));
    }
    if !allowed {
        regs.orig_rax = SYS_INVALID;
    }
    OpenPlan { sys, mode, allowed, target, write }
}

/// What the loop driver reports about one handled open: the descriptor, the
/// mode, whether the call goes through, and the substituted path if any.
pub struct OpenVerdict {
    pub sys: Syscall,
    pub mode: OpenType,
    pub allowed: bool,
    pub target: Option<Vec<u8>>,
}

/// Reads the pathname of the trapped open call out of the stopped tracee,
/// from the address in the call's pathname register, up to its terminating
/// zero (which is not included).
pub fn read_open_path(pid: i32, regs: &Regs) -> (r: Result<Vec<u8>, Error>)
    requires
        spec_syscall_from(regs.orig_rax) is Some,
    ensures
        (r matches Ok(v) ==> forall|i: int| 0 <= i < v@.len() ==> v@[i] != 0),
        (r matches Err(e) ==> e matches Error::OS { .. }),
{
    let sys = Syscall::from(regs.orig_rax).unwrap();
    read_data(pid, sys.path(regs), None)
}

/// Handles one trapped open call: judges it against the rule for its
/// canonical `path` as `plan_open` does, and places the substituted
/// pathname into the stopped tracee when the rule replaces. The caller
/// flushes the rewritten snapshot back and logs the verdict. The snapshot
/// is rewritten whatever happens; only a failed poke of the tracee's
/// memory fails, so the call succeeds whenever the rule is not a
/// replacement.
pub fn handle_open(pid: i32, policy: &Policy, regs: &mut Regs, path: &Vec<u8>) -> (r: Result<
    OpenVerdict,
    Error,
>)
    requires
        spec_syscall_from(old(regs).orig_rax) is Some,
    ensures
        *final(regs) == (spec_regs_after(
            *old(regs),
            spec_lookup(policy@, path@),
            spec_open_type(
                spec_syscall_from(old(regs).orig_rax).unwrap().spec_flag(*old(regs)),
            ),
        )),
        !(spec_lookup(policy@, path@) matches Some(ActionModel::Replace(_))) ==> r is Ok,
        (r matches Ok(v) ==> {
            &&& (spec_syscall_from(old(regs).orig_rax) matches Some(sys) ==> v.sys == sys && v.mode
                == spec_open_type(sys.spec_flag(*old(regs))))
            &&& v.allowed == spec_check_open(v.mode, spec_lookup(policy@, path@))
            &&& (match spec_lookup(policy@, path@) {
                Some(ActionModel::Replace(q)) => v.target matches Some(t) && t@ == q,
                _ => v.target is None,
            })
        }),
        (r matches Err(e) ==> e matches Error::OS { .. }),
{
    let plan = plan_open(policy, regs, path);
    if let Some(w) = &plan.write {
        match write_data(pid, w.0, &w.1) {
            Ok(()) => {},
            Err(e) => {
                return Err(e);
            },
        }
    }
    Ok(
        OpenVerdict {
            sys: plan.sys,
            mode: plan.mode,
            allowed: plan.allowed,
            target: plan.target,
        },
    )
}

/// The log label of a mode: `R`, `W`, or `RW`.
pub open spec fn mode_bytes(m: OpenType) -> Seq<u8> {
    match m {
        OpenType::Read => seq![82u8],
        OpenType::Write => seq![87u8],
        OpenType::All => seq![82u8, 87u8],
    }
}

/// The log label of a mode, as bytes.
pub fn mode_to_bytes(m: OpenType) -> (r: Vec<u8>)
    ensures
        r@ == mode_bytes(m),
{
    let mut r: Vec<u8> = Vec::new();
    match m {
        OpenType::Read => r.push(82u8),
        OpenType::Write => r.push(87u8),
        OpenType::All => {
            r.push(82u8);
            r.push(87u8);
        },
    }
    proof {
        assert(r@ =~= mode_bytes(m));
    }
    r
}

/// The display name of an intercepted call, as bytes.
pub open spec fn name_bytes(s: Syscall) -> Seq<u8> {
    match s {
        Syscall::Open => seq![111u8, 112u8, 101u8, 110u8],
        Syscall::OpenAt => seq![111u8, 112u8, 101u8, 110u8, 97u8, 116u8],
        Syscall::OpenByHandleAt => seq![
            111u8, 112u8, 101u8, 110u8, 95u8, 98u8, 121u8, 95u8, 104u8, 97u8, 110u8, 100u8, 108u8, 101u8,
            95u8, 97u8, 116u8,
        ],
    }
}

/// The display name of an intercepted call, as bytes.
pub fn name_to_bytes(s: Syscall) -> (r: Vec<u8>)
    ensures
        r@ == name_bytes(s),
{
    let mut r: Vec<u8> = Vec::new();
    match s {
        Syscall::Open => {
            r.push(111u8);
            r.push(112u8);
            r.push(101u8);
            r.push(110u8);
        },
        Syscall::OpenAt => {
            r.push(111u8);
            r.push(112u8);
            r.push(101u8);
            r.push(110u8);
            r.push(97u8);
            r.push(116u8);
        },
        Syscall::OpenByHandleAt => {
            r.push(111u8);
            r.push(112u8);
            r.push(101u8);
            r.push(110u8);
            r.push(95u8);
            r.push(98u8);
            r.push(121u8);
            r.push(95u8);
            r.push(104u8);
            r.push(97u8);
            r.push(110u8);
            r.push(100u8);
            r.push(108u8);
            r.push(101u8);
            r.push(95u8);
            r.push(97u8);
            r.push(116u8);
        },
    }
    proof {
        assert(r@ =~= name_bytes(s));
    }
    r
}

/// One log line about a handled open: `name("path", MODE)`, with
/// ` BLOCKED` appended when the call is not allowed, or ` => target` when
/// the rule substitutes `target`.
pub open spec fn spec_log_line(
    sys: Syscall,
    path: Seq<u8>,
    m: OpenType,
    allowed: bool,
    target: Option<Seq<u8>>,
) -> Seq<u8> {
    let head = name_bytes(sys) + seq![40u8, 34u8] + path + seq![34u8, 44u8, 32u8] + mode_bytes(m)
        + seq![41u8];
    if !allowed {
        head + seq![32u8, 66u8, 76u8, 79u8, 67u8, 75u8, 69u8, 68u8]
    } else {
        match target {
            Some(t) => head + seq![32u8, 61u8, 62u8, 32u8] + t,
            None => head,
        }
    }
}

/// Builds one log line about a handled open, exactly as `spec_log_line`
/// lays it out.
pub fn log_line(
    sys: Syscall,
    path: &Vec<u8>,
    m: OpenType,
    allowed: bool,
    target: Option<&Vec<u8>>,
) -> (r: Vec<u8>)
    ensures
        r@ == spec_log_line(sys, path@, m, allowed, match target {
            Some(t) => Some(t@),
            None => None,
        }),
{
    let mut out = name_to_bytes(sys);
    out.push(40u8);
    out.push(34u8);
    append_bytes(&mut out, path);
    out.push(34u8);
    out.push(44u8);
    out.push(32u8);
    let mb = mode_to_bytes(m);
    append_bytes(&mut out, &mb);
    out.push(41u8);
    proof {
        assert(out@ =~= name_bytes(sys) + seq![40u8, 34u8] + path@ + seq![34u8, 44u8, 32u8]
            + mode_bytes(m) + seq![41u8]);
    }
    if !allowed {
        out.push(32u8);
        out.push(66u8);
        out.push(76u8);
        out.push(79u8);
        out.push(67u8);
        out.push(75u8);
        out.push(69u8);
        out.push(68u8);
    } else if let Some(t) = target {
        out.push(32u8);
        out.push(61u8);
        out.push(62u8);
        out.push(32u8);
        append_bytes(&mut out, t);
    }
    proof {
        assert(out@ =~= spec_log_line(sys, path@, m, allowed, match target {
            Some(t) => Some(t@),
            None => None,
        }));
    }
    out
}

} // verus!
