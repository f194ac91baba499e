//! The syscall descriptors: which kernel numbers are intercepted, which
//! general-purpose register of the trapped call holds the pathname pointer,
//! which holds the flags word, and the display name of each call.

use vstd::prelude::*;

verus! {

/// Kernel number of `open` on x86_64.
pub const SYS_OPEN: u64 = 2;

/// Kernel number of `openat` on x86_64.
pub const SYS_OPENAT: u64 = 257;

/// Kernel number of `open_by_handle_at` on x86_64.
pub const SYS_OPEN_BY_HANDLE_AT: u64 = 304;

/// The number the syscall register is poisoned with so that the kernel
/// rejects the call: no syscall has this number.
pub const SYS_INVALID: u64 = 0xffff_ffff_ffff_ffff;

/// The part of the tracee's register snapshot that the open handler reads
/// and rewrites. The caller keeps the full snapshot and copies these fields
/// in and out around each trap.
#[derive(Clone, Copy, Debug, PartialEq, Eq, Structural)]
pub struct Regs {
    /// The syscall number as the kernel recorded it at the trap.
    pub orig_rax: u64,
    pub rdi: u64,
    pub rsi: u64,
    pub rdx: u64,
    pub r8: u64,
    /// The tracee's stack pointer at the trap.
    pub rsp: u64,
}

/// One intercepted open-family syscall.
#[derive(Clone, Copy, Debug, PartialEq, Eq, Structural)]
pub enum Syscall {
    Open,
    OpenAt,
    OpenByHandleAt,
}

/// The descriptor for a raw syscall number, or nothing when the number is
/// not an intercepted call.
pub open spec fn spec_syscall_from(n: u64) -> Option<Syscall> {
    if n == SYS_OPEN {
        Some(Syscall::Open)
    } else if n == SYS_OPENAT {
        Some(Syscall::OpenAt)
    } else if n == SYS_OPEN_BY_HANDLE_AT {
        Some(Syscall::OpenByHandleAt)
    } else {
        None
    }
}

/// The kernel-interface name of an intercepted call.
pub open spec fn spec_sys_name(s: Syscall) -> Seq<char> {
    match s {
        Syscall::Open => seq!['o', 'p', 'e', 'n'],
        Syscall::OpenAt => seq!['o', 'p', 'e', 'n', 'a', 't'],
        Syscall::OpenByHandleAt => seq![
            'o', 'p', 'e', 'n', '_', 'b', 'y', '_', 'h', 'a', 'n', 'd', 'l', 'e', '_', 'a', 't',
        ],
    }
}

/// Converts a raw syscall number to the display name of the intercepted
/// call, or nothing when the number is not intercepted.
pub fn sys_to_name(sys: u64) -> (r: Option<&'static str>)
    ensures
        match r {
            Some(nm) => spec_syscall_from(sys) matches Some(s) && nm@ == spec_sys_name(s),
            None => spec_syscall_from(sys) is None,
        },
{
    proof {
        reveal_strlit("open");
        reveal_strlit("openat");
        reveal_strlit("open_by_handle_at");
    }
    if sys == SYS_OPEN {
        Some("open")
    } else if sys == SYS_OPENAT {
        Some("openat")
    } else if sys == SYS_OPEN_BY_HANDLE_AT {
        Some("open_by_handle_at")
    } else {
        None
    }
}

impl Syscall {
    /// The descriptor for a raw syscall number; fails when the number is not
    /// an intercepted call.
    pub fn from(n: u64) -> (r: Option<Syscall>)
        ensures
            r == spec_syscall_from(n),
    {
        if n == SYS_OPEN {
            Some(Syscall::Open)
        } else if n == SYS_OPENAT {
            Some(Syscall::OpenAt)
        } else if n == SYS_OPEN_BY_HANDLE_AT {
            Some(Syscall::OpenByHandleAt)
        } else {
            None
        }
    }

    /// The kernel number of this call.
    pub fn number(&self) -> (r: u64)
        ensures
            spec_syscall_from(r) == Some(*self),
    {
        match self {
            Syscall::Open => SYS_OPEN,
            Syscall::OpenAt => SYS_OPENAT,
            Syscall::OpenByHandleAt => SYS_OPEN_BY_HANDLE_AT,
        }
    }

    /// The display name of this call.
    pub fn name(&self) -> (r: &'static str)
        ensures
            r@ == spec_sys_name(*self),
    {
        proof {
            reveal_strlit("open");
            reveal_strlit("openat");
            reveal_strlit("open_by_handle_at");
        }
        match self {
            Syscall::Open => "open",
            Syscall::OpenAt => "openat",
            Syscall::OpenByHandleAt => "open_by_handle_at",
        }
    }

    /// The value of the register that holds this call's pathname pointer.
    pub open spec fn spec_path(&self, regs: Regs) -> u64 {
        match *self {
            Syscall::Open => regs.rdi,
            Syscall::OpenAt => regs.rsi,
            Syscall::OpenByHandleAt => regs.rsi,
        }
    }

    /// Reads the register that holds this call's pathname pointer.
    pub fn path(&self, regs: &Regs) -> (r: u64)
        ensures
            r == self.spec_path(*regs),
    {
        match self {
            Syscall::Open => regs.rdi,
            Syscall::OpenAt => regs.rsi,
            Syscall::OpenByHandleAt => regs.rsi,
        }
    }

    /// The snapshot with this call's pathname pointer register set to `addr`
    /// and every other register kept.
    pub open spec fn spec_with_path(&self, regs: Regs, addr: u64) -> Regs {
        match *self {
            Syscall::Open => Regs { rdi: addr, ..regs },
            Syscall::OpenAt => Regs { rsi: addr, ..regs },
            Syscall::OpenByHandleAt => Regs { rsi: addr, ..regs },
        }
    }

    /// Points this call's pathname pointer register at `addr`.
    pub fn set_path(&self, regs: &mut Regs, addr: u64)
        ensures
            *final(regs) == self.spec_with_path(*old(regs), addr),
    {
        match self {
            Syscall::Open => regs.rdi = addr,
            Syscall::OpenAt => regs.rsi = addr,
            Syscall::OpenByHandleAt => regs.rsi = addr,
        }
    }

    /// The value of the register that holds this call's flags word.
    pub open spec fn spec_flag(&self, regs: Regs) -> u64 {
        match *self {
            Syscall::Open => regs.rsi,
            Syscall::OpenAt => regs.rdx,
            Syscall::OpenByHandleAt => regs.r8,
        }
    }

    /// Reads the register that holds this call's flags word.
    pub fn flag(&self, regs: &Regs) -> (r: u64)
        ensures
            r == self.spec_flag(*regs),
    {
        match self {
            Syscall::Open => regs.rsi,
            Syscall::OpenAt => regs.rdx,
            Syscall::OpenByHandleAt => regs.r8,
        }
    }
}

} // verus!
