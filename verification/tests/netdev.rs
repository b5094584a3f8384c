use igb_driver::net::{
    igb_ptr_to_buf, DevError, DeviceType, IgbError, IgbNic, IgbSetup, NetBufPtr, RxAction,
    DEVICE_QUEUE,
    RECV_BATCH_SIZE, RX_BUFFER_SIZE,
};

type Nic = IgbNic<1024, 1>;

fn buf(n: usize) -> NetBufPtr {
    NetBufPtr::new(0x1000 * n, 0x1000 * n + 0x40, 60 + n)
}

fn ready_nic() -> Nic {
    match Nic::init(true, true) {
        Ok(nic) => nic,
        Err(e) => panic!("init failed: {:?}", e),
    }
}

#[test]
fn try_new_rejects_null_addresses() {
    assert!(NetBufPtr::try_new(0, 0x40, 10).is_none());
    assert!(NetBufPtr::try_new(0x40, 0, 10).is_none());
    assert_eq!(NetBufPtr::try_new(0x40, 0x80, 10), Some(NetBufPtr::new(0x40, 0x80, 10)));
}

#[test]
fn device_arguments() {
    let setup = IgbNic::<512, 4>::setup();
    assert_eq!(
        setup,
        IgbSetup { pool_entries: 4096, pool_entry_size: 2048, rx_queues: 4, tx_queues: 4 }
    );
    let mut nic = ready_nic();
    assert_eq!(DEVICE_QUEUE, 0);
    assert_eq!(nic.tx_queue(), 0);
    assert_eq!(nic.tx_buffer_request(1514), 1514);
    assert_eq!(nic.receive_readiness_query(), Some(0));
    let _ = nic.finish_receive(vec![buf(1), buf(2)], Ok(2));
    assert_eq!(nic.receive_readiness_query(), None);
}

#[test]
fn net_buf_ptr_fields() {
    let b = NetBufPtr::new(0x8000, 0x8040, 1514);
    assert_eq!(b.raw_addr(), 0x8000);
    assert_eq!(b.buf_addr(), 0x8040);
    assert_eq!(b.packet_len(), 1514);
    assert_eq!(igb_ptr_to_buf(b), (0x8000, 1514));
}

#[test]
fn init_outcomes() {
    assert!(matches!(Nic::init(false, true), Err(DevError::NoMemory)));
    assert!(matches!(Nic::init(false, false), Err(DevError::NoMemory)));
    assert!(matches!(Nic::init(true, false), Err(DevError::BadState)));
    let nic = ready_nic();
    assert_eq!(nic.queued_packets(), 0);
    assert_eq!(RX_BUFFER_SIZE, 1024);
    assert_eq!(RECV_BATCH_SIZE, 64);
}

#[test]
fn device_properties() {
    let nic = ready_nic();
    assert_eq!(nic.device_type(), DeviceType::Net);
    assert_eq!(nic.rx_queue_size(), 1024);
    assert_eq!(nic.tx_queue_size(), 1024);
    assert_eq!(nic.mac_address([0x52, 0x54, 0, 0x12, 0x34, 0x56]).0, [0x52, 0x54, 0, 0x12, 0x34, 0x56]);
    assert!(nic.can_transmit(true));
    assert!(!nic.can_transmit(false));
}

#[test]
fn empty_queue_and_idle_device_gives_again() {
    let mut nic = ready_nic();
    assert!(!nic.can_receive(false));
    assert_eq!(nic.receive(false), RxAction::Fail(DevError::Again));
}

#[test]
fn empty_queue_and_ready_device_polls() {
    let mut nic = ready_nic();
    assert!(nic.can_receive(true));
    assert_eq!(nic.receive(true), RxAction::PollDevice { queue: 0, max_packets: 64 });
    assert_eq!(nic.queued_packets(), 0);
}

#[test]
fn batch_comes_out_in_arrival_order() {
    let mut nic = ready_nic();
    assert_eq!(nic.receive(true), RxAction::PollDevice { queue: 0, max_packets: 64 });
    let r = nic.finish_receive(vec![buf(1), buf(2), buf(3)], Ok(3));
    assert_eq!(r, Ok(buf(1)));
    assert_eq!(nic.queued_packets(), 2);
    assert!(nic.can_receive(false));
    assert_eq!(nic.receive(false), RxAction::Deliver(buf(2)));
    assert_eq!(nic.receive(true), RxAction::Deliver(buf(3)));
    assert_eq!(nic.receive(false), RxAction::Fail(DevError::Again));
}

#[test]
fn refill_goes_behind_queued_buffers() {
    let mut nic = ready_nic();
    assert_eq!(nic.finish_receive(vec![buf(1), buf(2)], Ok(2)), Ok(buf(1)));
    assert_eq!(nic.finish_receive(vec![buf(3)], Ok(1)), Ok(buf(2)));
    assert_eq!(nic.receive(false), RxAction::Deliver(buf(3)));
    assert_eq!(nic.queued_packets(), 0);
}

#[test]
fn device_failures_while_receiving() {
    let mut nic = ready_nic();
    assert_eq!(nic.finish_receive(vec![], Err(IgbError::NotReady)), Err(DevError::Again));
    assert_eq!(nic.finish_receive(vec![], Err(IgbError::QueueFull)), Err(DevError::BadState));
    assert_eq!(nic.finish_receive(vec![], Err(IgbError::Other)), Err(DevError::BadState));
    assert_eq!(nic.queued_packets(), 0);
}

#[test]
fn no_incoming_packet_gives_again() {
    let mut nic = ready_nic();
    assert_eq!(nic.receive(true), RxAction::PollDevice { queue: 0, max_packets: 64 });
    assert_eq!(nic.finish_receive(vec![], Ok(0)), Err(DevError::Again));
    assert_eq!(nic.queued_packets(), 0);
}

#[test]
fn buffers_delivered_before_a_failure_stay_queued() {
    let mut nic = ready_nic();
    assert_eq!(nic.finish_receive(vec![buf(1), buf(2)], Err(IgbError::Other)), Err(DevError::BadState));
    assert_eq!(nic.queued_packets(), 2);
    assert_eq!(nic.finish_receive(vec![buf(3)], Err(IgbError::NotReady)), Err(DevError::Again));
    assert_eq!(nic.queued_packets(), 3);
    assert_eq!(nic.receive(false), RxAction::Deliver(buf(1)));
    assert_eq!(nic.receive(false), RxAction::Deliver(buf(2)));
    assert_eq!(nic.receive(false), RxAction::Deliver(buf(3)));
    assert_eq!(nic.receive(false), RxAction::Fail(DevError::Again));
}

#[test]
fn run_of_receives_loses_and_reorders_nothing() {
    let mut nic = ready_nic();
    let mut handed = Vec::new();
    if let Ok(b) = nic.finish_receive(vec![buf(1), buf(2)], Ok(2)) {
        handed.push(b);
    }
    if let RxAction::Deliver(b) = nic.receive(true) {
        handed.push(b);
    }
    let _ = nic.finish_receive(vec![buf(3)], Err(IgbError::Other));
    if let Ok(b) = nic.finish_receive(vec![buf(4), buf(5)], Ok(2)) {
        handed.push(b);
    }
    while let RxAction::Deliver(b) = nic.receive(false) {
        handed.push(b);
    }
    let expected: Vec<NetBufPtr> = (1..=5).map(buf).collect();
    assert_eq!(handed, expected);
}

#[test]
fn transmit_outcomes() {
    let mut nic = ready_nic();
    assert_eq!(nic.transmit(false, Ok(())), Err(DevError::BadState));
    assert_eq!(nic.transmit(true, Ok(())), Ok(()));
    assert_eq!(nic.transmit(true, Err(IgbError::QueueFull)), Err(DevError::Again));
    assert_eq!(nic.transmit(true, Err(IgbError::NotReady)), Err(DevError::BadState));
    assert_eq!(nic.transmit(true, Err(IgbError::Other)), Err(DevError::BadState));
}

#[test]
fn recycling_and_allocation() {
    let mut nic = ready_nic();
    assert_eq!(nic.recycle_rx_buffer(true), Ok(()));
    assert_eq!(nic.recycle_rx_buffer(false), Err(DevError::BadState));
    assert_eq!(nic.recycle_tx_buffers(Ok(())), Ok(()));
    assert_eq!(nic.recycle_tx_buffers(Err(IgbError::Other)), Err(DevError::BadState));
    assert_eq!(nic.alloc_tx_buffer(Some(buf(9))), Ok(buf(9)));
    assert_eq!(nic.alloc_tx_buffer(None), Err(DevError::NoMemory));
}
