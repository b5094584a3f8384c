//! QEMU `virt` machine, RISC-V 64: harts are started through the SBI HSM
//! extension and their hardware IDs are their logical IDs.
use vstd::prelude::*;
use super::SbiHartStart;

verus! {

/// Starts the given secondary CPU with its boot stack: when the SBI
/// implementation offers the HSM extension (`hsm_available`), the request that
/// starts hart `hartid` at the secondary entry point `entry_paddr` (a physical
/// address) with the physical top of its boot stack; otherwise nothing is
/// started (the caller warns that HSM is not supported).
pub fn start_secondary_cpu(hartid: usize, entry_paddr: usize, stack_top: usize, hsm_available: bool)
    -> (r: Option<SbiHartStart>)
    ensures
        !hsm_available ==> r is None,
        hsm_available ==> r == Some(
            SbiHartStart { hartid: hartid, start_addr: entry_paddr, opaque: stack_top },
        ),
{
    if !hsm_available {
        return None;
    }
    Some(SbiHartStart { hartid, start_addr: entry_paddr, opaque: stack_top })
}

/// Converts the given CPU hardware ID to its logical ID.
pub fn cpu_hard_id_to_logic_id(hard_id: usize) -> (r: usize)
    ensures
        r == hard_id,
{
    hard_id
}

} // verus!
