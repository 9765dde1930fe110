use vstd::prelude::*;

verus! {

/// The installer's commands.
#[derive(Debug, Clone, Copy, PartialEq, Eq, Structural)]
pub enum Cli {
    /// Command to run in chroot, right after the disc layout.
    Chroot,
    /// Command to run on first boot.
    User,
}

} // verus!
