//! Register map of the igb NIC: fixed register offsets, bit masks, and the
//! per-queue register offset functions.

/*******************************************************************************

Copyright (c) 2001-2020, Intel Corporation
All rights reserved.

Redistribution and use in source and binary forms, with or without
modification, are permitted provided that the following conditions are met:

 1. Redistributions of source code must retain the above copyright notice,
    this list of conditions and the following disclaimer.

 2. Redistributions in binary form must reproduce the above copyright
    notice, this list of conditions and the following disclaimer in the
    documentation and/or other materials provided with the distribution.

 3. Neither the name of the Intel Corporation nor the names of its
    contributors may be used to endorse or promote products derived from
    this software without specific prior written permission.

THIS SOFTWARE IS PROVIDED BY THE COPYRIGHT HOLDERS AND CONTRIBUTORS "AS IS"
AND ANY EXPRESS OR IMPLIED WARRANTIES, INCLUDING, BUT NOT LIMITED TO, THE
IMPLIED WARRANTIES OF MERCHANTABILITY AND FITNESS FOR A PARTICULAR PURPOSE
ARE DISCLAIMED. IN NO EVENT SHALL THE COPYRIGHT OWNER OR CONTRIBUTORS BE
LIABLE FOR ANY DIRECT, INDIRECT, INCIDENTAL, SPECIAL, EXEMPLARY, OR
CONSEQUENTIAL DAMAGES (INCLUDING, BUT NOT LIMITED TO, PROCUREMENT OF
SUBSTITUTE GOODS OR SERVICES; LOSS OF USE, DATA, OR PROFITS; OR BUSINESS
INTERRUPTION) HOWEVER CAUSED AND ON ANY THEORY OF LIABILITY, WHETHER IN
CONTRACT, STRICT LIABILITY, OR TORT (INCLUDING NEGLIGENCE OR OTHERWISE)
ARISING IN ANY WAY OUT OF THE USE OF THIS SOFTWARE, EVEN IF ADVISED OF THE
POSSIBILITY OF SUCH DAMAGE.

***************************************************************************/

use vstd::prelude::*;

verus! {

/* Vendor ID */
pub const IGB_INTEL_VENDOR_ID: u32 = 0x8086;

/* Device IDs */
pub const IGB_DEV_ID_82576: u32 = 0x10C9;

/// Register lookup by MAC type; the igb driver has no such table and the
/// offset is always zero.
pub fn IXGBE_BY_MAC(_hw: u32, _r: u32) -> (r: u32)
    ensures
        r == 0,
{
    0
}

/* General Registers */
pub const IGB_CTRL: u32 = 0x00000;
pub const IGB_STATUS: u32 = 0x00008;
pub const IGB_CTRL_EXT: u32 = 0x00018;
pub const IGB_MDIC: u32 = 0x00020;

pub const IGB_RCTL: u32 = 0x00000100;
pub const IGB_TCTL: u32 = 0x00000400;

pub const IGB_TXDCTL_WTHRESH: u32 = 0x10000;
pub const IGB_TXDCTL_EN: u32 = 0x2000000;
pub const IGB_TCTL_EN: u32 = 0x2;

/* Interrupt Registers */
pub const IGB_EICR: u32 = 0x01580;
pub const IGB_EICS: u32 = 0x01520;
pub const IGB_EIMS: u32 = 0x01524;
pub const IGB_EIMC: u32 = 0x01528;
pub const IGB_EIAC: u32 = 0x0152C;
pub const IGB_EIAM: u32 = 0x01530;

pub const IGB_IRQ_CLEAR_MASK: u32 = 0xFFFFFFFF;

/// Start of the receive-queue register area: queue `i` owns the 0x40-byte
/// block starting at `0xC000 + 0x40 * i`.
pub open spec fn rx_queue_reg(i: int, offset: int) -> int {
    0x0C000 + 0x40 * i + offset
}

/// Start of the transmit-queue register area: queue `i` owns the 0x40-byte
/// block starting at `0xE000 + 0x40 * i`.
pub open spec fn tx_queue_reg(i: int, offset: int) -> int {
    0x0E000 + 0x40 * i + offset
}

/// Whether the register at `offset` of queue `i`'s 0x40-byte block is
/// addressable with a `u32`.
pub open spec fn rx_reg_fits(i: u32, offset: int) -> bool {
    rx_queue_reg(i as int, offset) <= u32::MAX
}

/// See [`rx_reg_fits`], for the transmit-queue area.
pub open spec fn tx_reg_fits(i: u32, offset: int) -> bool {
    tx_queue_reg(i as int, offset) <= u32::MAX
}

/* Receive DMA Registers */

/// Receive descriptor base address low, queue `i`.
pub fn IGB_RDBAL(i: u32) -> (r: u32)
    requires
        rx_reg_fits(i, 0x00),
    ensures
        r == rx_queue_reg(i as int, 0x00),
        r == 0x0C000 + 0x40 * i + 0x00,
{
    if i == 0 {
        0x0C000
    } else if i <= 3 {
        0x0C040 + ((i - 1) * 0x40)
    } else {
        0xC100 + (i - 4) * 0x40
    }
}

/// Receive descriptor base address high, queue `i`.
pub fn IGB_RDBAH(i: u32) -> (r: u32)
    requires
        rx_reg_fits(i, 0x04),
    ensures
        r == rx_queue_reg(i as int, 0x04),
        r == 0x0C000 + 0x40 * i + 0x04,
{
    0x0C004 + i * 0x40
}

/// Receive descriptor ring length, queue `i`.
pub fn IGB_RDLEN(i: u32) -> (r: u32)
    requires
        rx_reg_fits(i, 0x08),
    ensures
        r == rx_queue_reg(i as int, 0x08),
        r == 0x0C000 + 0x40 * i + 0x08,
{
    0x0C008 + i * 0x40
}

/// Receive descriptor head, queue `i`.
pub fn IGB_RDH(i: u32) -> (r: u32)
    requires
        rx_reg_fits(i, 0x10),
    ensures
        r == rx_queue_reg(i as int, 0x10),
        r == 0x0C000 + 0x40 * i + 0x10,
{
    0x0C010 + i * 0x40
}

/// Receive descriptor tail, queue `i`.
pub fn IGB_RDT(i: u32) -> (r: u32)
    requires
        rx_reg_fits(i, 0x18),
    ensures
        r == rx_queue_reg(i as int, 0x18),
        r == 0x0C000 + 0x40 * i + 0x18,
{
    0x0C018 + (i * 0x40)
}

/// Receive descriptor control, queue `i`.
pub fn IGB_RXDCTL(i: u32) -> (r: u32)
    requires
        rx_reg_fits(i, 0x28),
    ensures
        r == rx_queue_reg(i as int, 0x28),
        r == 0x0C000 + 0x40 * i + 0x28,
{
    0x0C028 + i * 0x40
}

/// Split and replication receive control, queue `i`.
pub fn IGB_SRRCTL(i: u32) -> (r: u32)
    requires
        rx_reg_fits(i, 0x0C),
    ensures
        r == rx_queue_reg(i as int, 0x0C),
        r == 0x0C000 + 0x40 * i + 0x0C,
{
    if i == 0 {
        0x0C00C
    } else if i <= 3 {
        0x0C04C + (i - 1) * 0x40
    } else {
        0xC10C + ((i - 4) * 0x40)
    }
}

/// Receive DCA control, queue `i`.
pub fn IGB_DCA_RXCTRL(i: u32) -> (r: u32)
    requires
        rx_reg_fits(i, 0x14),
    ensures
        r == rx_queue_reg(i as int, 0x14),
        r == 0x0C000 + 0x40 * i + 0x14,
{
    0x0C014 + i * 0x40
}

/* Transmit DMA registers */

/// Transmit descriptor base address low, queue `i`.
pub fn IGB_TDBAL(i: u32) -> (r: u32)
    requires
        tx_reg_fits(i, 0x00),
    ensures
        r == tx_queue_reg(i as int, 0x00),
        r == 0x0E000 + 0x40 * i + 0x00,
{
    0x0E000 + i * 0x40
}

/// Transmit descriptor base address high, queue `i`.
pub fn IGB_TDBAH(i: u32) -> (r: u32)
    requires
        tx_reg_fits(i, 0x04),
    ensures
        r == tx_queue_reg(i as int, 0x04),
        r == 0x0E000 + 0x40 * i + 0x04,
{
    0x0E004 + i * 0x40
}

/// Transmit descriptor ring length, queue `i`.
pub fn IGB_TDLEN(i: u32) -> (r: u32)
    requires
        tx_reg_fits(i, 0x08),
    ensures
        r == tx_queue_reg(i as int, 0x08),
        r == 0x0E000 + 0x40 * i + 0x08,
{
    0x0E008 + i * 0x40
}

/// Transmit descriptor head, queue `i`.
pub fn IGB_TDH(i: u32) -> (r: u32)
    requires
        tx_reg_fits(i, 0x10),
    ensures
        r == tx_queue_reg(i as int, 0x10),
        r == 0x0E000 + 0x40 * i + 0x10,
{
    0x0E010 + i * 0x40
}

/// Transmit descriptor tail, queue `i`.
pub fn IGB_TDT(i: u32) -> (r: u32)
    requires
        tx_reg_fits(i, 0x18),
    ensures
        r == tx_queue_reg(i as int, 0x18),
        r == 0x0E000 + 0x40 * i + 0x18,
{
    0x0E018 + i * 0x40
}

/// Transmit descriptor control, queue `i`.
pub fn IGB_TXDCTL(i: u32) -> (r: u32)
    requires
        tx_reg_fits(i, 0x28),
    ensures
        r == tx_queue_reg(i as int, 0x28),
        r == 0x0E000 + 0x40 * i + 0x28,
{
    0x0E028 + i * 0x40
}

/// Transmit descriptor write-back address low, queue `i`.
pub fn IGB_TDWBAL(i: u32) -> (r: u32)
    requires
        tx_reg_fits(i, 0x38),
    ensures
        r == tx_queue_reg(i as int, 0x38),
        r == 0x0E000 + 0x40 * i + 0x38,
{
    0x0E038 + i * 0x40
}

/// Transmit descriptor write-back address high, queue `i`.
pub fn IGB_TDWBAH(i: u32) -> (r: u32)
    requires
        tx_reg_fits(i, 0x3C),
    ensures
        r == tx_queue_reg(i as int, 0x3C),
        r == 0x0E000 + 0x40 * i + 0x3C,
{
    0x0E03C + i * 0x40
}

pub const IGB_DMATXCTL: u32 = 0x03590;

pub const IGB_TXPBSIZE: u32 = 0x3404;

/*statistic register*/
pub const IGB_GPRC: u32 = 0x04074;
pub const IGB_BPRC: u32 = 0x04078;
pub const IGB_MPRC: u32 = 0x0407C;
pub const IGB_GPTC: u32 = 0x04080;
pub const IGB_GORCL: u32 = 0x04088;
pub const IGB_GORCH: u32 = 0x0408C;
pub const IGB_GOTCL: u32 = 0x04090;
pub const IGB_GOTCH: u32 = 0x04094;

/* CTRL Bit Masks */
pub const IGB_CTRL_FD: u32 = 0x00000001; /* Full-Duplex */
pub const IGB_CTRL_LNK_RST: u32 = 0x00000008; /* Link Reset. Resets everything. */
pub const IGB_CTRL_SLU: u32 = 0x00000040; /* set link up. */
pub const IGB_CTRL_SPEED: u32 = 0x00000300; /* SPEED. */
pub const IGB_CTRL_RST: u32 = 0x04000000; /* Reset (SW) */
pub const IGB_CTRL_RFCE: u32 = 0x08000000; /* Receive Flow Control Enable. */
pub const IGB_CTRL_TFCE: u32 = 0x10000000; /* Transmit Flow Control Enable. */
pub const IGB_CTRL_PHY_RST: u32 = 0x80000000; /* PHY Reset. */
pub const IGB_CTRL_RST_MASK: u32 = IGB_CTRL_LNK_RST | IGB_CTRL_RST;

/* STATUS register bit mask*/
pub const IGB_STATUS_FD: u32 = 0x00000001;
pub const IGB_STATUS_LU: u32 = 0x00000002;
pub const IGB_STATUS_TXOFF: u32 = 0x00000010;

/*RX control bit mask */
pub const IGB_RCTL_EN: u32 = 0x00000002;

pub const IGB_CTRL_EXT_NS_DIS: u32 = 0x00010000; /* No Snoop disable */

pub const IGB_TXPBSIZE_40KB: u32 = 0x28; /* 40KB Packet Buffer */

/* Packet buffer allocation strategies */
pub const PBA_STRATEGY_EQUAL: u32 = 0; /* Distribute PB space equally */
pub const PBA_STRATEGY_WEIGHTED: u32 = 1; /* Weight front half of TCs */

pub const IGB_SRRCTL_DESCTYPE_ADV_ONEBUF: u32 = 0x02000000;
pub const IGB_SRRCTL_DESCTYPE_MASK: u32 = 0x0E000000;

pub const IGB_LINKS_UP: u32 = 0x2;
pub const IGB_LINKS_SPEED_82576: u32 = 0xC0;
pub const IGB_LINKS_SPEED_10_82576: u32 = 0x0;
pub const IGB_LINKS_SPEED_100_82576: u32 = 0x1;
pub const IGB_LINKS_SPEED_1000_82576: u32 = 0x2;

/// Offset of the receive-address-low register of entry `i`: entries 0..=15
/// live at `0x5400 + 8 * i`, the later ones at `0x54E0 + 8 * (i - 16)`.
pub open spec fn ral_offset(i: int) -> int {
    if i <= 15 {
        0x05400 + 8 * i
    } else {
        0x054E0 + 8 * (i - 16)
    }
}

/// Receive address low, entry `i`.
pub fn IGB_RAL(i: u32) -> (r: u32)
    requires
        ral_offset(i as int) <= u32::MAX,
    ensures
        r == ral_offset(i as int),
        i <= 15 ==> r == 0x05400 + 8 * i,
        i >= 16 ==> r == 0x054E0 + 8 * (i - 16),
{
    if i <= 15 {
        0x05400 + i * 8
    } else {
        0x054E0 + (i - 16) * 8
    }
}

/// Receive address high, entry `i`.
pub fn IGB_RAH(i: u32) -> (r: u32)
    requires
        ral_offset(i as int) + 4 <= u32::MAX,
    ensures
        r == ral_offset(i as int) + 4,
        i <= 15 ==> r == 0x05404 + 8 * i,
        i >= 16 ==> r == 0x054E4 + 8 * (i - 16),
{
    if i <= 15 {
        0x05404 + i * 8
    } else {
        0x054E4 + (i - 16) * 8
    }
}

/// Register blocks of the receive (or transmit) queues never alias: two
/// registers at offsets `a` and `b` (each below the 0x40-byte block size) of
/// queues `i` and `j` share an address only when they are the same register of
/// the same queue.
pub proof fn lemma_queue_registers_never_alias(i: u32, j: u32, a: int, b: int)
    requires
        0 <= a < 0x40,
        0 <= b < 0x40,
    ensures
        rx_queue_reg(i as int, a) == rx_queue_reg(j as int, b) ==> i == j && a == b,
        tx_queue_reg(i as int, a) == tx_queue_reg(j as int, b) ==> i == j && a == b,
{
    if i < j {
        assert(0x40 * (j as int) >= 0x40 * (i as int) + 0x40) by (nonlinear_arith)
            requires
                i < j,
        ;
    } else if j < i {
        assert(0x40 * (i as int) >= 0x40 * (j as int) + 0x40) by (nonlinear_arith)
            requires
                j < i,
        ;
    }
}

/// The register blocks of the first 128 receive queues lie below the transmit
/// register area, so no receive-queue register of those queues is also a
/// transmit-queue register.
pub proof fn lemma_rx_tx_areas_disjoint(i: u32, j: u32, a: int, b: int)
    requires
        i < 128,
        0 <= a < 0x40,
        0 <= b < 0x40,
    ensures
        rx_queue_reg(i as int, a) < 0x0E000 <= tx_queue_reg(j as int, b),
        rx_queue_reg(i as int, a) != tx_queue_reg(j as int, b),
{
}

/// Receive-address entries are laid out in entry order: entry 0 at 0x5400,
/// each next entry 8 bytes further within a bank, and the second bank from
/// entry 16 at 0x54E0.
pub proof fn lemma_receive_address_entries_in_order(i: int)
    requires
        i >= 0,
    ensures
        ral_offset(0) == 0x05400,
        ral_offset(16) == 0x054E0,
        i != 15 ==> ral_offset(i + 1) == ral_offset(i) + 8,
        i <= 15 ==> ral_offset(i) == 0x05400 + 8 * i,
        i >= 16 ==> ral_offset(i) == 0x054E0 + 8 * (i - 16),
{
}

/// Receive queue registers lie at `0xC000 + 0x40 * i` plus the register's
/// offset, transmit queue registers at `0xE000 + 0x40 * i` plus the offset:
/// consecutive queues are 0x40 bytes apart.
pub proof fn lemma_queue_register_layout(i: int, offset: int)
    ensures
        rx_queue_reg(i, offset) == 0x0C000 + 0x40 * i + offset,
        tx_queue_reg(i, offset) == 0x0E000 + 0x40 * i + offset,
        rx_queue_reg(i + 1, offset) == rx_queue_reg(i, offset) + 0x40,
        tx_queue_reg(i + 1, offset) == tx_queue_reg(i, offset) + 0x40,
{
}

/// Receive-address entries never alias: the low and high registers of distinct
/// entries `i` and `j` are four distinct offsets, and each entry's high register
/// follows its low register.
pub proof fn lemma_receive_address_entries_disjoint(i: u32, j: u32)
    requires
        i != j,
    ensures
        ral_offset(i as int) != ral_offset(j as int),
        ral_offset(i as int) + 4 != ral_offset(j as int),
        ral_offset(i as int) != ral_offset(j as int) + 4,
        ral_offset(i as int) + 4 != ral_offset(j as int) + 4,
{
}

pub const IGB_ADVTXD_STAT_DD: u32 = 0x1;
pub const IGB_SRRCTL_DROP_EN: u32 = 0x80000000;
pub const IGB_RXDCTL_ENABLE: u32 = 0x02000000; /* Ena specific Rx Queue */

pub const IGB_PHY_CTRL: u32 = 0;
pub const IGB_PHY_STATUS: u32 = 0;

pub const IGB_PHY_AUTONE: u32 = 0x1000;
pub const IGB_PHY_RESTART: u32 = 0x0200;

} // verus!
