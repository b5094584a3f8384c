//! QEMU `virt` machine, AArch64: CPUs are started through PSCI and their
//! hardware IDs are their logical IDs.
use vstd::prelude::*;
use super::PsciCpuOn;

verus! {

/// Starts the given secondary CPU with its boot stack: the PSCI request that
/// powers up CPU `cpu_id` at the secondary entry point `entry_paddr` (a
/// physical address), passing the physical top of its boot stack.
pub fn start_secondary_cpu(cpu_id: usize, entry_paddr: usize, stack_top: usize) -> (r: PsciCpuOn)
    ensures
        r == (PsciCpuOn { target_cpu: cpu_id, entry_point: entry_paddr, context_id: stack_top }),
{
    PsciCpuOn { target_cpu: cpu_id, entry_point: entry_paddr, context_id: stack_top }
}

/// Converts the given CPU hardware ID to its logical ID.
pub fn cpu_hard_id_to_logic_id(hard_id: usize) -> (r: usize)
    ensures
        r == hard_id,
{
    hard_id
}

} // verus!
