//! Protection levels: the closed set of access-right combinations a caller can
//! apply to an allocation's data pages. The mapping onto a platform's native
//! flag encoding belongs to the platform adapter; no raw flag value appears in
//! this crate's contracts.

use vstd::prelude::*;

verus! {

/// An access level for a byte range.
#[derive(Clone, Copy, PartialEq, Eq, Structural, Debug)]
pub enum Prot {
    NoAccess,
    ReadOnly,
    WriteOnly,
    ReadWrite,
    Execute,
    ReadExec,
    WriteExec,
    ReadWriteExec,
}

/// Whether a range under this level may be read.
pub open spec fn prot_readable(p: Prot) -> bool {
    match p {
        Prot::ReadOnly | Prot::ReadWrite | Prot::ReadExec | Prot::ReadWriteExec => true,
        _ => false,
    }
}

/// Whether a range under this level may be written.
pub open spec fn prot_writable(p: Prot) -> bool {
    match p {
        Prot::WriteOnly | Prot::ReadWrite | Prot::WriteExec | Prot::ReadWriteExec => true,
        _ => false,
    }
}

/// Executable test for `prot_readable`.
pub fn allows_read(p: Prot) -> (r: bool)
    ensures
        r == prot_readable(p),
{
    match p {
        Prot::ReadOnly | Prot::ReadWrite | Prot::ReadExec | Prot::ReadWriteExec => true,
        _ => false,
    }
}

/// Executable test for `prot_writable`.
pub fn allows_write(p: Prot) -> (r: bool)
    ensures
        r == prot_writable(p),
{
    match p {
        Prot::WriteOnly | Prot::ReadWrite | Prot::WriteExec | Prot::ReadWriteExec => true,
        _ => false,
    }
}

/// Access-control law: a no-access range can be neither read nor written; a
/// read-write range allows both again; read-only permits reads and refuses
/// writes. In this crate's model, `read` and `write` on a guarded region
/// require these predicates, so access through a no-access region is ruled out
/// at verification time.
pub proof fn lemma_access_levels()
    ensures
        !prot_readable(Prot::NoAccess),
        !prot_writable(Prot::NoAccess),
        prot_readable(Prot::ReadWrite),
        prot_writable(Prot::ReadWrite),
        prot_readable(Prot::ReadOnly),
        !prot_writable(Prot::ReadOnly),
{
}

} // verus!
