//! Verified core of an Intel 82576 (igb) NIC driver and of the ArceOS
//! hardware-abstraction helpers it relies on: the register map, the receive
//! buffer queue of the network driver, data-cache maintenance ranges and
//! secondary-CPU start-up decisions.
#![allow(non_snake_case)]
#![allow(non_upper_case_globals)]

pub mod constants;
pub mod net;
pub mod cache;
pub mod mp;
