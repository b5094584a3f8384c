use igb_driver::constants::{
    IGB_DCA_RXCTRL, IGB_RAH, IGB_RAL, IGB_RDBAH, IGB_RDBAL, IGB_RDH, IGB_RDLEN, IGB_RDT,
    IGB_RXDCTL, IGB_SRRCTL, IGB_TDBAH, IGB_TDBAL, IGB_TDH, IGB_TDLEN, IGB_TDT, IGB_TDWBAH,
    IGB_TDWBAL, IGB_TXDCTL, IXGBE_BY_MAC, IGB_CTRL_RST_MASK,
};

#[test]
fn by_mac_is_always_zero() {
    assert_eq!(IXGBE_BY_MAC(0, 0), 0);
    assert_eq!(IXGBE_BY_MAC(7, 0x1234), 0);
}

#[test]
fn rdbal_in_each_bank() {
    assert_eq!(IGB_RDBAL(0), 0x0C000);
    assert_eq!(IGB_RDBAL(1), 0x0C040);
    assert_eq!(IGB_RDBAL(3), 0x0C0C0);
    assert_eq!(IGB_RDBAL(4), 0x0C100);
    assert_eq!(IGB_RDBAL(7), 0x0C1C0);
}

#[test]
fn srrctl_in_each_bank() {
    assert_eq!(IGB_SRRCTL(0), 0x0C00C);
    assert_eq!(IGB_SRRCTL(2), 0x0C08C);
    assert_eq!(IGB_SRRCTL(4), 0x0C10C);
    assert_eq!(IGB_SRRCTL(9), 0x0C24C);
}

#[test]
fn rx_queue_register_block() {
    for i in 0..16u32 {
        let base = IGB_RDBAL(i);
        assert_eq!(base, 0x0C000 + 0x40 * i);
        assert_eq!(IGB_RDBAH(i), base + 0x04);
        assert_eq!(IGB_RDLEN(i), base + 0x08);
        assert_eq!(IGB_SRRCTL(i), base + 0x0C);
        assert_eq!(IGB_RDH(i), base + 0x10);
        assert_eq!(IGB_DCA_RXCTRL(i), base + 0x14);
        assert_eq!(IGB_RDT(i), base + 0x18);
        assert_eq!(IGB_RXDCTL(i), base + 0x28);
    }
}

#[test]
fn tx_queue_register_block() {
    for i in 0..16u32 {
        let base = IGB_TDBAL(i);
        assert_eq!(base, 0x0E000 + 0x40 * i);
        assert_eq!(IGB_TDBAH(i), base + 0x04);
        assert_eq!(IGB_TDLEN(i), base + 0x08);
        assert_eq!(IGB_TDH(i), base + 0x10);
        assert_eq!(IGB_TDT(i), base + 0x18);
        assert_eq!(IGB_TXDCTL(i), base + 0x28);
        assert_eq!(IGB_TDWBAL(i), base + 0x38);
        assert_eq!(IGB_TDWBAH(i), base + 0x3C);
    }
}

#[test]
fn queue_registers_never_alias() {
    let mut seen = std::collections::HashSet::new();
    for i in 0..64u32 {
        for r in [
            IGB_RDBAL(i), IGB_RDBAH(i), IGB_RDLEN(i), IGB_SRRCTL(i), IGB_RDH(i),
            IGB_DCA_RXCTRL(i), IGB_RDT(i), IGB_RXDCTL(i), IGB_TDBAL(i), IGB_TDBAH(i),
            IGB_TDLEN(i), IGB_TDH(i), IGB_TDT(i), IGB_TXDCTL(i), IGB_TDWBAL(i), IGB_TDWBAH(i),
        ] {
            assert!(seen.insert(r), "register offset {:#x} used twice", r);
        }
    }
}

#[test]
fn receive_address_entries() {
    assert_eq!(IGB_RAL(0), 0x05400);
    assert_eq!(IGB_RAH(0), 0x05404);
    assert_eq!(IGB_RAL(15), 0x05478);
    assert_eq!(IGB_RAH(15), 0x0547C);
    assert_eq!(IGB_RAL(16), 0x054E0);
    assert_eq!(IGB_RAH(16), 0x054E4);
    assert_eq!(IGB_RAL(23), 0x05518);
    let mut seen = std::collections::HashSet::new();
    for i in 0..24u32 {
        assert_eq!(IGB_RAH(i), IGB_RAL(i) + 4);
        assert!(seen.insert(IGB_RAL(i)));
        assert!(seen.insert(IGB_RAH(i)));
    }
}

#[test]
fn largest_addressable_queue() {
    let i = (u32::MAX - 0x0C000) / 0x40;
    assert_eq!(IGB_RDBAL(i) as u64, 0x0C000 + 0x40 * i as u64);
    let j = (u32::MAX - 0x0E03C) / 0x40;
    assert_eq!(IGB_TDWBAH(j) as u64, 0x0E03C + 0x40 * j as u64);
}

#[test]
fn reset_mask_combines_link_and_software_reset() {
    assert_eq!(IGB_CTRL_RST_MASK, 0x04000008);
}
