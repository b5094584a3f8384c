//! Secondary-CPU bring-up on the supported platforms: the mapping from a
//! CPU's hardware ID to its logical ID, and the firmware request that starts a
//! secondary CPU at the kernel's secondary entry point with its boot stack.
use vstd::prelude::*;

pub mod aarch64_phytium_pi;
pub mod aarch64_qemu_virt;
pub mod riscv64_qemu_virt;

verus! {

/// A PSCI `CPU_ON` request: power up `target_cpu`, which starts executing at
/// the physical address `entry_point` with `context_id` as its argument.
#[derive(Debug, Clone, Copy, PartialEq, Eq, Structural)]
pub struct PsciCpuOn {
    pub target_cpu: usize,
    pub entry_point: usize,
    pub context_id: usize,
}

/// An SBI HSM `HART_START` request: start hart `hartid` at the physical
/// address `start_addr` with `opaque` as its argument.
#[derive(Debug, Clone, Copy, PartialEq, Eq, Structural)]
pub struct SbiHartStart {
    pub hartid: usize,
    pub start_addr: usize,
    pub opaque: usize,
}

} // verus!
