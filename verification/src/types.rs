//! The open-mode model: which kind of access an `open` call asks for, and
//! what a policy rule does with such a request.

use vstd::prelude::*;

verus! {

/// Low bit of the flags word of an open call: write-only access.
pub const FLAG_WRONLY: u64 = 1;

/// Second bit of the flags word of an open call: read-write access.
pub const FLAG_RDWR: u64 = 2;

/// The access mode an open call asks for. `All` means read-write; it is
/// stronger than either `Read` or `Write` alone.
#[derive(Clone, Copy, Debug, PartialEq, Eq, Structural)]
pub enum OpenType {
    Read,
    Write,
    All,
}

/// The mode encoded by a flags word: write-only wins over read-write, and
/// read (whose flag bits are zero) is the default. All other bits of the
/// flags word (create, truncate, append, close-on-exec, ...) are ignored.
pub open spec fn spec_open_type(flags: u64) -> OpenType {
    if flags & FLAG_WRONLY == FLAG_WRONLY {
        OpenType::Write
    } else if flags & FLAG_RDWR == FLAG_RDWR {
        OpenType::All
    } else {
        OpenType::Read
    }
}

impl OpenType {
    /// Derive the mode from a flags word as the kernel hands it over.
    pub fn from_flags(flags: u64) -> (r: OpenType)
        ensures
            r == spec_open_type(flags),
    {
        if flags & FLAG_WRONLY == FLAG_WRONLY {
            OpenType::Write
        } else if flags & FLAG_RDWR == FLAG_RDWR {
            OpenType::All
        } else {
            OpenType::Read
        }
    }
}

impl From<u64> for OpenType {
    fn from(flags: u64) -> (r: OpenType)
        ensures
            r == spec_open_type(flags),
    {
        OpenType::from_flags(flags)
    }
}

impl vstd::std_specs::convert::FromSpecImpl<u64> for OpenType {
    open spec fn obeys_from_spec() -> bool {
        true
    }

    open spec fn from_spec(flags: u64) -> OpenType {
        spec_open_type(flags)
    }
}

impl From<i32> for OpenType {
    fn from(flags: i32) -> (r: OpenType)
        ensures
            r == spec_open_type(flags as u32 as u64),
    {
        OpenType::from_flags(flags as u32 as u64)
    }
}

impl vstd::std_specs::convert::FromSpecImpl<i32> for OpenType {
    open spec fn obeys_from_spec() -> bool {
        true
    }

    open spec fn from_spec(flags: i32) -> OpenType {
        spec_open_type(flags as u32 as u64)
    }
}

/// The mode depends on the two low flag bits alone: any further bits may be
/// set or cleared without changing it.
pub proof fn lemma_open_type_ignores_extra_flags(flags: u64, extra: u64)
    requires
        extra & (FLAG_WRONLY | FLAG_RDWR) == 0,
    ensures
        spec_open_type(flags | extra) == spec_open_type(flags),
{
    assert(((flags | extra) & FLAG_WRONLY == FLAG_WRONLY) == (flags & FLAG_WRONLY
        == FLAG_WRONLY) && ((flags | extra) & FLAG_RDWR == FLAG_RDWR) == (flags & FLAG_RDWR
        == FLAG_RDWR)) by (bit_vector)
        requires
            extra & (FLAG_WRONLY | FLAG_RDWR) == 0,
    ;
}

/// The create bit of the flags word.
pub const FLAG_CREAT: u64 = 0x40;

/// The truncate bit of the flags word.
pub const FLAG_TRUNC: u64 = 0x200;

/// The close-on-exec bit of the flags word.
pub const FLAG_CLOEXEC: u64 = 0x80000;

/// Setting the close-on-exec, truncate and create bits never changes the
/// mode an open call asks for.
pub proof fn lemma_open_type_extra_bits(flags: u64)
    ensures
        spec_open_type(flags | (FLAG_CLOEXEC | FLAG_TRUNC | FLAG_CREAT)) == spec_open_type(flags),
{
    assert((FLAG_CLOEXEC | FLAG_TRUNC | FLAG_CREAT) & (FLAG_WRONLY | FLAG_RDWR) == 0)
        by (bit_vector);
    lemma_open_type_ignores_extra_flags(flags, FLAG_CLOEXEC | FLAG_TRUNC | FLAG_CREAT);
}

/// What a policy rule does to opens of the path it names: block those of a
/// given mode, or substitute another path.
#[derive(Clone, Debug, PartialEq, Eq)]
pub enum Action {
    Block(OpenType),
    Replace(Vec<u8>),
}

/// An action as contracts see it: the replacement path as a byte sequence.
pub enum ActionModel {
    Block(OpenType),
    Replace(Seq<u8>),
}

impl View for Action {
    type V = ActionModel;

    open spec fn view(&self) -> ActionModel {
        match self {
            Action::Block(t) => ActionModel::Block(*t),
            Action::Replace(p) => ActionModel::Replace(p@),
        }
    }
}

/// Whether an action lets an open of mode `m` through. Blocking `All` vetoes
/// everything; blocking `Read` or `Write` vetoes that mode and `All` (an
/// `All` open would also read or write); a replacement never blocks.
pub open spec fn spec_allows(a: ActionModel, m: OpenType) -> bool {
    match a {
        ActionModel::Block(t) => {
            if t == OpenType::All {
                false
            } else {
                m != OpenType::All && m != t
            }
        },
        ActionModel::Replace(_) => true,
    }
}

impl Action {
    /// Checks if an open of mode `mode` is allowed under this action.
    pub fn allows(&self, mode: &OpenType) -> (r: bool)
        ensures
            r == spec_allows(self@, *mode),
    {
        match self {
            Action::Block(t) => {
                if *t == OpenType::All {
                    false
                } else {
                    *mode != OpenType::All && *mode != *t
                }
            },
            Action::Replace(_) => true,
        }
    }
}

/// Whether an open of mode `m` is allowed under an optional rule: no rule
/// means no restriction.
pub open spec fn spec_check_open(m: OpenType, rule: Option<ActionModel>) -> bool {
    match rule {
        Some(a) => spec_allows(a, m),
        None => true,
    }
}

/// Checks if an open of mode `mode` is allowed under the rule found for its
/// path, if any.
pub fn check_open(mode: &OpenType, rule: Option<&Action>) -> (r: bool)
    ensures
        r == spec_check_open(*mode, match rule {
            Some(a) => Some(a@),
            None => None,
        }),
{
    match rule {
        Some(a) => a.allows(mode),
        None => true,
    }
}

} // verus!
