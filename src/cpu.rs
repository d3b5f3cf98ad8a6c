//! Processor entry: which core boots, and where its stack starts.
use vstd::prelude::*;

verus! {

/// The only core that runs past the entry point.
pub const BOOT_CORE_ID: u64 = 0;
/// Initial stack pointer of the boot core; the stack grows down from here.
pub const BOOT_CORE_STACK_START: u64 = 0x80_000;
/// Bits of the multiprocessor affinity register that identify the core.
pub const CORE_MASK: u64 = 0b11;

/// What a core does right after reset.
#[derive(Clone, Copy, Debug, PartialEq, Eq, Structural)]
pub enum EntryAction {
    /// Set the stack pointer to `stack_pointer`, then run the runtime bootstrap.
    Boot { stack_pointer: u64 },
    /// Wait for events forever, never touching the stack or any static.
    Park,
}

pub open spec fn entry_action_spec(core_id: u64) -> EntryAction {
    if core_id == BOOT_CORE_ID {
        EntryAction::Boot { stack_pointer: BOOT_CORE_STACK_START }
    } else {
        EntryAction::Park
    }
}

/// The core identifier held in a multiprocessor affinity register value.
pub fn core_id(mpidr: u64) -> (r: u64)
    ensures
        r == mpidr & CORE_MASK,
        r <= CORE_MASK,
{
    let r = mpidr & CORE_MASK;
    assert(mpidr & 0b11u64 <= 0b11u64) by (bit_vector);
    r
}

/// What the core with identifier `core_id` does after reset: the boot core
/// sets up its stack and goes on to the runtime bootstrap; every other core
/// parks.
pub fn entry_action(core_id: u64) -> (r: EntryAction)
    ensures
        r == entry_action_spec(core_id),
{
    if core_id == BOOT_CORE_ID {
        EntryAction::Boot { stack_pointer: BOOT_CORE_STACK_START }
    } else {
        EntryAction::Park
    }
}

/// A core other than the boot core never sets a stack pointer and never runs
/// the runtime bootstrap: it parks.
pub proof fn lemma_non_boot_core_parks(core_id: u64)
    requires
        core_id != BOOT_CORE_ID,
    ensures
        entry_action_spec(core_id) == EntryAction::Park,
        !(entry_action_spec(core_id) is Boot),
{
}

} // verus!
