# igb_driver

Verified core of an Intel 82576 (igb) network driver for ArceOS, together with
the hardware-abstraction helpers it relies on.

- `src/` (verified with Verus)
  - `constants.rs`: the NIC register map; per-queue register offsets with
    exact contracts and proofs that register blocks never alias.
  - `net.rs`: error and device-type codes, the raw packet-buffer handle, and
    the driver state: its first-in first-out queue of received buffers and the
    answer to each outcome of the device layer.
  - `cache.rs`: the cache-line range that a data-cache invalidate or clean of
    an address range touches, from the line size in CTR_EL0.
  - `mp.rs`, `mp/`: hardware-to-logical CPU IDs and the firmware requests that
    start secondary CPUs (PSCI on AArch64, SBI HSM on RISC-V).
- `app/`: the hardware-facing glue: the `NetDriverOps` implementation over an
  igb device layer, cache maintenance instructions, SBI/PSCI calls.
- `tests/`: tests of the library on concrete values.
