//! Phytium Pi, AArch64: CPUs are started through PSCI; the platform's CPU ID
//! list gives, at each logical ID, the hardware ID of that CPU (an empty list
//! means hardware IDs are logical IDs).
use vstd::prelude::*;
use super::PsciCpuOn;

verus! {

/// Whether `logic_id` is the logical ID of the CPU with hardware ID `hard_id`
/// under the CPU ID list `cpu_id_list`: its position in the list (the first
/// one, should it occur twice), or `hard_id` itself when the list is empty.
pub open spec fn is_logic_id(cpu_id_list: Seq<usize>, hard_id: usize, logic_id: int) -> bool {
    if cpu_id_list.len() == 0 {
        logic_id == hard_id
    } else {
        &&& 0 <= logic_id < cpu_id_list.len()
        &&& cpu_id_list[logic_id] == hard_id
        &&& forall|k: int| 0 <= k < logic_id ==> cpu_id_list[k] != hard_id
    }
}

/// Converts the given CPU hardware ID to its logical ID. A hardware ID that a
/// non-empty list does not hold has no logical ID.
pub fn cpu_hard_id_to_logic_id(cpu_id_list: &[usize], hard_id: usize) -> (r: usize)
    requires
        cpu_id_list@.len() == 0 || cpu_id_list@.contains(hard_id),
    ensures
        is_logic_id(cpu_id_list@, hard_id, r as int),
        cpu_id_list@.len() == 0 ==> r == hard_id,
        cpu_id_list@.len() > 0 ==> r < cpu_id_list@.len() && cpu_id_list@[r as int] == hard_id,
        forall|k: int| 0 <= k < r && k < cpu_id_list@.len() ==> cpu_id_list@[k] != hard_id,
{
    if cpu_id_list.len() == 0 {
        return hard_id;
    }
    let mut i: usize = 0;
    while i < cpu_id_list.len()
        invariant
            0 <= i <= cpu_id_list@.len(),
            cpu_id_list@.contains(hard_id),
            forall|k: int| 0 <= k < i ==> cpu_id_list@[k] != hard_id,
        decreases cpu_id_list@.len() - i,
    {
        if cpu_id_list[i] == hard_id {
            return i;
        }
        i = i + 1;
    }
    proof {
        let k = choose|k: int| 0 <= k < cpu_id_list@.len() && cpu_id_list@[k] == hard_id;
        assert(cpu_id_list@[k] != hard_id);
    }
    0
}

/// Starts the given secondary CPU with its boot stack: the PSCI request that
/// powers up the CPU whose logical ID is `cpu_id` (its hardware ID is at that
/// position of the CPU ID list) at the secondary entry point `entry_paddr` (a
/// physical address), passing the physical top of its boot stack.
pub fn start_secondary_cpu(cpu_id_list: &[usize], cpu_id: usize, entry_paddr: usize, stack_top: usize)
    -> (r: PsciCpuOn)
    requires
        cpu_id < cpu_id_list@.len(),
    ensures
        r == (PsciCpuOn {
            target_cpu: cpu_id_list@[cpu_id as int],
            entry_point: entry_paddr,
            context_id: stack_top,
        }),
{
    PsciCpuOn { target_cpu: cpu_id_list[cpu_id], entry_point: entry_paddr, context_id: stack_top }
}

/// With an empty CPU ID list every CPU's logical ID is its hardware ID, and
/// only that.
pub proof fn lemma_empty_list_is_identity(hard_id: usize, logic_id: int)
    ensures
        is_logic_id(Seq::<usize>::empty(), hard_id, logic_id) <==> logic_id == hard_id as int,
{
}

/// A logical ID is the first position of the hardware ID in a non-empty list:
/// at that position the list holds the hardware ID, and no earlier position
/// does.
pub proof fn lemma_logic_id_is_first_position(cpu_id_list: Seq<usize>, hard_id: usize, logic_id: int)
    requires
        cpu_id_list.len() > 0,
    ensures
        is_logic_id(cpu_id_list, hard_id, logic_id) <==> (0 <= logic_id < cpu_id_list.len()
            && cpu_id_list[logic_id] == hard_id && forall|k: int|
            0 <= k < logic_id ==> cpu_id_list[k] != hard_id),
{
}

/// The CPU that [`start_secondary_cpu`] powers up for the logical ID of a
/// listed hardware ID is the CPU with that hardware ID.
pub proof fn lemma_started_cpu_has_requested_id(cpu_id_list: Seq<usize>, hard_id: usize, logic_id: int)
    requires
        cpu_id_list.len() > 0,
        is_logic_id(cpu_id_list, hard_id, logic_id),
    ensures
        0 <= logic_id < cpu_id_list.len(),
        cpu_id_list[logic_id] == hard_id,
{
}

/// When the CPU ID list holds no ID twice, the logical ID of the hardware ID
/// at position `i` of the list is `i` and nothing else.
pub proof fn lemma_logic_id_is_list_position(cpu_id_list: Seq<usize>, i: int, logic_id: int)
    requires
        cpu_id_list.no_duplicates(),
        0 <= i < cpu_id_list.len(),
    ensures
        is_logic_id(cpu_id_list, cpu_id_list[i], logic_id) <==> logic_id == i,
{
    if is_logic_id(cpu_id_list, cpu_id_list[i], logic_id) {
        assert(cpu_id_list[logic_id] == cpu_id_list[i]);
    }
}

} // verus!
