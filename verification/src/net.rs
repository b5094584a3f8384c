//! The network-driver side of the igb NIC: the device-independent error and
//! device-type codes, the raw packet-buffer handle, and the state and decisions
//! of the driver (its queue of received buffers and how each device outcome is
//! answered).
use vstd::prelude::*;

verus! {

/// The ethernet address of the NIC (MAC address).
#[derive(Debug, Clone, Copy)]
pub struct EthernetAddress(pub [u8; 6]);

/// All supported device types.
#[derive(Debug, Clone, Copy, PartialEq, Eq, Structural)]
pub enum DeviceType {
    /// Block storage device (e.g., disk).
    Block,
    /// Character device (e.g., serial port).
    Char,
    /// Network device (e.g., ethernet card).
    Net,
    /// Graphic display device (e.g., GPU)
    Display,
}

/// The error type for device operation failures.
#[derive(Debug, Clone, Copy, PartialEq, Eq, Structural)]
pub enum DevError {
    /// An entity already exists.
    AlreadyExists,
    /// Try again, for non-blocking APIs.
    Again,
    /// Bad internal state.
    BadState,
    /// Invalid parameter/argument.
    InvalidParam,
    /// Input/output error.
    Io,
    /// Not enough space/cannot allocate memory (DMA).
    NoMemory,
    /// Device or resource is busy.
    ResourceBusy,
    /// This operation is unsupported or unimplemented.
    Unsupported,
}

/// The failures of the igb device layer that the driver tells apart.
#[derive(Debug, Clone, Copy, PartialEq, Eq, Structural)]
pub enum IgbError {
    /// No packet is ready in the receive ring.
    NotReady,
    /// The transmit ring has no free descriptor.
    QueueFull,
    /// Any other failure of the device layer.
    Other,
}

/// A raw buffer handle for the network device: the address of the memory-pool
/// entry that owns the buffer, the address of the packet data, and the packet
/// length. Both addresses are non-null.
#[derive(Debug, PartialEq, Eq, Structural)]
pub struct NetBufPtr {
    // The address of the original object.
    raw_addr: usize,
    // The address of the net buffer.
    buf_addr: usize,
    len: usize,
}

impl NetBufPtr {
    #[verifier::type_invariant]
    spec fn non_null(self) -> bool {
        self.raw_addr != 0 && self.buf_addr != 0
    }

    /// The address of the pool entry that owns the buffer.
    pub closed spec fn entry_addr(self) -> usize {
        self.raw_addr
    }

    /// The address of the packet data.
    pub closed spec fn data_addr(self) -> usize {
        self.buf_addr
    }

    /// The packet length.
    pub closed spec fn len(self) -> usize {
        self.len
    }

    /// Create a new [`NetBufPtr`].
    pub fn new(raw_addr: usize, buf_addr: usize, len: usize) -> (r: Self)
        requires
            raw_addr != 0,
            buf_addr != 0,
        ensures
            r.entry_addr() == raw_addr,
            r.data_addr() == buf_addr,
            r.len() == len,
    {
        Self { raw_addr, buf_addr, len }
    }

    /// Create a new [`NetBufPtr`] from addresses that may be null: `None`
    /// when either address is null.
    pub fn try_new(raw_addr: usize, buf_addr: usize, len: usize) -> (r: Option<Self>)
        ensures
            (raw_addr == 0 || buf_addr == 0) <==> r is None,
            r matches Some(b) ==> b.entry_addr() == raw_addr && b.data_addr() == buf_addr
                && b.len() == len,
    {
        if raw_addr == 0 || buf_addr == 0 {
            None
        } else {
            Some(Self::new(raw_addr, buf_addr, len))
        }
    }

    /// Return the address of the original object.
    pub fn raw_addr(&self) -> (r: usize)
        ensures
            r == self.entry_addr(),
            r != 0,
    {
        proof {
            use_type_invariant(self);
        }
        self.raw_addr
    }

    /// Return the address of the packet data.
    pub fn buf_addr(&self) -> (r: usize)
        ensures
            r == self.data_addr(),
            r != 0,
    {
        proof {
            use_type_invariant(self);
        }
        self.buf_addr
    }

    /// Return [`NetBufPtr`] buffer len.
    pub fn packet_len(&self) -> (r: usize)
        ensures
            r == self.len(),
    {
        self.len
    }
}

/// What the igb buffer layer is handed to rebuild the buffer behind `ptr`:
/// the address of its pool entry and its packet length.
pub fn igb_ptr_to_buf(ptr: NetBufPtr) -> (r: (usize, usize))
    ensures
        r == (ptr.entry_addr(), ptr.len()),
{
    (ptr.raw_addr(), ptr.packet_len())
}

/// The device queue the driver receives on, sends on, asks for readiness and
/// recycles transmit buffers of.
pub const DEVICE_QUEUE: u16 = 0;
/// Number of packets the driver asks the device for in one receive batch.
pub const RECV_BATCH_SIZE: usize = 64;
/// Initial capacity of the queue of received buffers.
pub const RX_BUFFER_SIZE: usize = 1024;
/// Number of entries in the driver's memory pool.
pub const MEM_POOL: usize = 4096;
/// Size of each entry of the driver's memory pool.
pub const MEM_POOL_ENTRY_SIZE: usize = 2048;

/// The igb NIC device driver state.
///
/// `QS` is the igb queue size, `QN` is the igb queue num. The driver keeps the
/// buffers that the device delivered but that were not yet handed out, oldest
/// first.
pub struct IgbNic<const QS: usize, const QN: u16> {
    rx_buffer_queue: std::collections::VecDeque<NetBufPtr>,
}

/// What the driver is set up with: a memory pool of `pool_entries` entries of
/// `pool_entry_size` bytes, and a device with `rx_queues` receive and
/// `tx_queues` transmit queues.
#[derive(Debug, Clone, Copy, PartialEq, Eq, Structural)]
pub struct IgbSetup {
    pub pool_entries: usize,
    pub pool_entry_size: usize,
    pub rx_queues: u16,
    pub tx_queues: u16,
}

/// The next step of a receive, decided from the driver's state.
#[derive(Debug, PartialEq, Eq, Structural)]
pub enum RxAction {
    /// A queued buffer is handed out.
    Deliver(NetBufPtr),
    /// Nothing to receive now.
    Fail(DevError),
    /// The queue is empty and the device has packets: fetch a batch of up to
    /// `max_packets` packets from device queue `queue` and pass what came back
    /// to [`IgbNic::finish_receive`].
    PollDevice { queue: u16, max_packets: usize },
}

impl<const QS: usize, const QN: u16> View for IgbNic<QS, QN> {
    type V = Seq<NetBufPtr>;

    closed spec fn view(&self) -> Seq<NetBufPtr> {
        self.rx_buffer_queue@
    }
}

impl<const QS: usize, const QN: u16> IgbNic<QS, QN> {
    /// The memory pool and device setup that [`IgbNic::init`] expects:
    /// [`MEM_POOL`] entries of [`MEM_POOL_ENTRY_SIZE`] bytes, and `QN` receive
    /// and `QN` transmit queues.
    pub fn setup() -> (r: IgbSetup)
        ensures
            r == (IgbSetup {
                pool_entries: MEM_POOL,
                pool_entry_size: MEM_POOL_ENTRY_SIZE,
                rx_queues: QN,
                tx_queues: QN,
            }),
    {
        IgbSetup {
            pool_entries: MEM_POOL,
            pool_entry_size: MEM_POOL_ENTRY_SIZE,
            rx_queues: QN,
            tx_queues: QN,
        }
    }

    /// Creates the driver state once its memory pool and device are set up
    /// as [`IgbNic::setup`] gives:
    /// a failed pool allocation is reported as `NoMemory` (the device is then
    /// not initialized, and `device_initialized` is not consulted), a failed
    /// device initialization as `BadState`.
    pub fn init(mem_pool_allocated: bool, device_initialized: bool) -> (r: Result<Self, DevError>)
        ensures
            !mem_pool_allocated ==> r == Err::<Self, DevError>(DevError::NoMemory),
            mem_pool_allocated && !device_initialized ==> r == Err::<Self, DevError>(
                DevError::BadState,
            ),
            mem_pool_allocated && device_initialized ==> (r matches Ok(nic) && nic@ == Seq::<
                NetBufPtr,
            >::empty()),
    {
        if !mem_pool_allocated {
            return Err(DevError::NoMemory);
        }
        if !device_initialized {
            return Err(DevError::BadState);
        }
        Ok(Self { rx_buffer_queue: std::collections::VecDeque::with_capacity(RX_BUFFER_SIZE) })
    }

    /// The type of the device.
    pub fn device_type(&self) -> (r: DeviceType)
        ensures
            r == DeviceType::Net,
    {
        DeviceType::Net
    }

    /// The ethernet address of the NIC, as read from the device.
    pub fn mac_address(&self, device_mac: [u8; 6]) -> (r: EthernetAddress)
        ensures
            r == EthernetAddress(device_mac),
    {
        EthernetAddress(device_mac)
    }

    /// Size of the receive queue.
    pub fn rx_queue_size(&self) -> (r: usize)
        ensures
            r == QS,
    {
        QS
    }

    /// Size of the transmit queue.
    pub fn tx_queue_size(&self) -> (r: usize)
        ensures
            r == QS,
    {
        QS
    }

    /// Number of received buffers waiting to be handed out.
    pub fn queued_packets(&self) -> (r: usize)
        ensures
            r == self@.len(),
    {
        self.rx_buffer_queue.len()
    }

    /// The device queue whose readiness [`IgbNic::can_receive`] and
    /// [`IgbNic::receive`] need: queue [`DEVICE_QUEUE`] when no buffer is
    /// queued, none otherwise.
    pub fn receive_readiness_query(&self) -> (r: Option<u16>)
        ensures
            self@.len() == 0 ==> r == Some(DEVICE_QUEUE),
            self@.len() > 0 ==> r is None,
    {
        if self.rx_buffer_queue.len() == 0 {
            Some(DEVICE_QUEUE)
        } else {
            None
        }
    }

    /// The device queue that sending, send-readiness queries and transmit
    /// buffer recycling go to: [`DEVICE_QUEUE`].
    pub fn tx_queue(&self) -> (r: u16)
        ensures
            r == DEVICE_QUEUE,
    {
        DEVICE_QUEUE
    }

    /// The size of the buffer to take from the memory pool for a transmit
    /// buffer of `size` bytes: `size` itself.
    pub fn tx_buffer_request(&self, size: usize) -> (r: usize)
        ensures
            r == size,
    {
        size
    }

    /// Whether a packet can be received: some buffer is queued, or the device
    /// reports a ready packet (the device needs asking only when the queue is
    /// empty).
    pub fn can_receive(&self, device_can_receive: bool) -> (r: bool)
        ensures
            r == (self@.len() > 0 || device_can_receive),
    {
        self.rx_buffer_queue.len() != 0 || device_can_receive
    }

    /// Whether a packet can be transmitted: exactly what the device reports
    /// for queue [`IgbNic::tx_queue`].
    pub fn can_transmit(&self, device_can_send: bool) -> (r: bool)
        ensures
            r == device_can_send,
    {
        device_can_send
    }

    /// Gives back a received buffer: the buffer layer rebuilt it from
    /// [`igb_ptr_to_buf`] (and dropped it, returning it to the pool) or refused.
    pub fn recycle_rx_buffer(&mut self, buffer_rebuilt: bool) -> (r: Result<(), DevError>)
        ensures
            final(self)@ == old(self)@,
            buffer_rebuilt ==> r == Ok::<(), DevError>(()),
            !buffer_rebuilt ==> r == Err::<(), DevError>(DevError::BadState),
    {
        if buffer_rebuilt {
            Ok(())
        } else {
            Err(DevError::BadState)
        }
    }

    /// Answer to the device's recycling of the finished transmit buffers of
    /// queue [`IgbNic::tx_queue`].
    pub fn recycle_tx_buffers(&mut self, device_result: Result<(), IgbError>) -> (r: Result<
        (),
        DevError,
    >)
        ensures
            final(self)@ == old(self)@,
            device_result is Ok ==> r == Ok::<(), DevError>(()),
            device_result is Err ==> r == Err::<(), DevError>(DevError::BadState),
    {
        match device_result {
            Ok(()) => Ok(()),
            Err(_) => Err(DevError::BadState),
        }
    }

    /// First step of receiving a packet. With buffers queued, the oldest is
    /// handed out; with none, the device is asked whether a packet is ready
    /// (`device_can_receive`): if not, the receive fails with `Again`,
    /// otherwise a batch must be fetched from the device.
    pub fn receive(&mut self, device_can_receive: bool) -> (r: RxAction)
        ensures
            old(self)@.len() > 0 ==> r == RxAction::Deliver(old(self)@[0]) && final(self)@
                == old(self)@.drop_first(),
            old(self)@.len() == 0 && !device_can_receive ==> r == RxAction::Fail(DevError::Again)
                && final(self)@ == old(self)@,
            old(self)@.len() == 0 && device_can_receive ==> r == (RxAction::PollDevice {
                queue: DEVICE_QUEUE,
                max_packets: RECV_BATCH_SIZE,
            })
                && final(self)@ == old(self)@,
            receive_step(old(self)@, Seq::empty(), rx_action_buffer(r), final(self)@),
    {
        let ghost before = self@;
        assert(before + Seq::<NetBufPtr>::empty() =~= Seq::<NetBufPtr>::empty() + before);
        if !self.can_receive(device_can_receive) {
            return RxAction::Fail(DevError::Again);
        }
        match self.rx_buffer_queue.pop_front() {
            Some(buf) => {
                assert(before + Seq::<NetBufPtr>::empty() =~= seq![buf] + self@);
                RxAction::Deliver(buf)
            },
            None => RxAction::PollDevice { queue: DEVICE_QUEUE, max_packets: RECV_BATCH_SIZE },
        }
    }

    /// Second step of receiving a packet: the device was asked for a batch of
    /// up to [`RECV_BATCH_SIZE`] packets. `delivered` holds the buffers it
    /// filled, in arrival order (also those handed over before a failure), and
    /// `device_result` its answer: the number of packets received, or a
    /// failure. The delivered buffers all join the back of the queue. After a
    /// successful batch the oldest queued buffer is handed out; when no packet
    /// came in, the receive fails with `Again`; a not-ready device gives
    /// `Again`, any other failure `BadState`.
    pub fn finish_receive(
        &mut self,
        delivered: Vec<NetBufPtr>,
        device_result: Result<usize, IgbError>,
    ) -> (r: Result<NetBufPtr, DevError>)
        ensures
            ({
                let all = old(self)@ + delivered@;
                &&& (device_result matches Ok(n) && n > 0 && all.len() > 0) ==> r == Ok::<
                    NetBufPtr,
                    DevError,
                >(all[0]) && final(self)@ == all.drop_first()
                &&& (device_result matches Ok(n) && (n == 0 || all.len() == 0)) ==> r == Err::<
                    NetBufPtr,
                    DevError,
                >(DevError::Again) && final(self)@ == all
                &&& device_result == Err::<usize, IgbError>(IgbError::NotReady) ==> r == Err::<
                    NetBufPtr,
                    DevError,
                >(DevError::Again) && final(self)@ == all
                &&& (device_result matches Err(e) && e != IgbError::NotReady) ==> r == Err::<
                    NetBufPtr,
                    DevError,
                >(DevError::BadState) && final(self)@ == all
            }),
            receive_step(old(self)@, delivered@, receive_result_buffer(r), final(self)@),
    {
        let mut batch = delivered;
        let ghost all = self@ + batch@;
        while batch.len() > 0
            invariant
                self@ + batch@ == all,
            decreases batch.len(),
        {
            let buf = batch.remove(0);
            self.rx_buffer_queue.push_back(buf);
            assert(self@ + batch@ =~= all);
        }
        assert(self@ =~= all);
        match device_result {
            Ok(recv_nums) => {
                if recv_nums == 0 {
                    return Err(DevError::Again);
                }
                match self.rx_buffer_queue.pop_front() {
                    Some(buf) => {
                        assert(seq![buf] + self@ =~= all);
                        Ok(buf)
                    },
                    None => Err(DevError::Again),
                }
            },
            Err(IgbError::NotReady) => Err(DevError::Again),
            Err(_) => Err(DevError::BadState),
        }
    }

    /// Transmits a packet: the buffer layer rebuilt the buffer from
    /// [`igb_ptr_to_buf`] (or refused, giving `BadState`), then the device
    /// queued it for sending on queue [`IgbNic::tx_queue`], found its ring
    /// full (`Again`), or failed otherwise (`BadState`).
    pub fn transmit(&mut self, buffer_rebuilt: bool, device_result: Result<(), IgbError>) -> (r:
        Result<(), DevError>)
        ensures
            final(self)@ == old(self)@,
            !buffer_rebuilt ==> r == Err::<(), DevError>(DevError::BadState),
            buffer_rebuilt && device_result is Ok ==> r == Ok::<(), DevError>(()),
            buffer_rebuilt && device_result == Err::<(), IgbError>(IgbError::QueueFull) ==> r
                == Err::<(), DevError>(DevError::Again),
            buffer_rebuilt && (device_result matches Err(e) && e != IgbError::QueueFull) ==> r
                == Err::<(), DevError>(DevError::BadState),
    {
        if !buffer_rebuilt {
            return Err(DevError::BadState);
        }
        match device_result {
            Ok(()) => Ok(()),
            Err(IgbError::QueueFull) => Err(DevError::Again),
            Err(_) => Err(DevError::BadState),
        }
    }

    /// Allocate a buffer for transmission: the buffer the pool handed out for
    /// [`IgbNic::tx_buffer_request`], or
    /// `NoMemory` when it had none.
    pub fn alloc_tx_buffer(&mut self, allocated: Option<NetBufPtr>) -> (r: Result<
        NetBufPtr,
        DevError,
    >)
        ensures
            final(self)@ == old(self)@,
            allocated matches Some(buf) ==> r == Ok::<NetBufPtr, DevError>(buf),
            allocated is None ==> r == Err::<NetBufPtr, DevError>(DevError::NoMemory),
    {
        match allocated {
            Some(buf) => Ok(buf),
            None => Err(DevError::NoMemory),
        }
    }
}

/// The buffer a receive step handed out, if any.
pub open spec fn rx_action_buffer(r: RxAction) -> Option<NetBufPtr> {
    match r {
        RxAction::Deliver(buf) => Some(buf),
        _ => None,
    }
}

/// The buffer a completed receive handed out, if any.
pub open spec fn receive_result_buffer(r: Result<NetBufPtr, DevError>) -> Option<NetBufPtr> {
    match r {
        Ok(buf) => Some(buf),
        Err(_) => None,
    }
}

/// The buffers handed out, as a sequence of zero or one buffer.
pub open spec fn buffers_of(out: Option<NetBufPtr>) -> Seq<NetBufPtr> {
    match out {
        Some(buf) => seq![buf],
        None => Seq::empty(),
    }
}

/// One step of the receive path, seen from outside: from the queue `before`,
/// the device delivered `delivered`, the step handed out `out`, and left the
/// queue `after`. Nothing is lost, duplicated or reordered: what was queued,
/// followed by what arrived, is what was handed out followed by what stays.
pub open spec fn receive_step(
    before: Seq<NetBufPtr>,
    delivered: Seq<NetBufPtr>,
    out: Option<NetBufPtr>,
    after: Seq<NetBufPtr>,
) -> bool {
    before + delivered == buffers_of(out) + after
}

/// The queue after the first `k` steps of a run that starts with the queue
/// `start`; each step is (delivered, handed out, queue after).
pub open spec fn queue_after(
    start: Seq<NetBufPtr>,
    steps: Seq<(Seq<NetBufPtr>, Option<NetBufPtr>, Seq<NetBufPtr>)>,
    k: int,
) -> Seq<NetBufPtr> {
    if k <= 0 {
        start
    } else {
        steps[k - 1].2
    }
}

/// All buffers the device delivered during the steps of a run, in order.
pub open spec fn delivered_in(steps: Seq<(Seq<NetBufPtr>, Option<NetBufPtr>, Seq<NetBufPtr>)>) -> Seq<
    NetBufPtr,
>
    decreases steps.len(),
{
    if steps.len() == 0 {
        Seq::empty()
    } else {
        delivered_in(steps.drop_last()) + steps.last().0
    }
}

/// All buffers handed out during the steps of a run, in order.
pub open spec fn handed_out_in(steps: Seq<(Seq<NetBufPtr>, Option<NetBufPtr>, Seq<NetBufPtr>)>) -> Seq<
    NetBufPtr,
>
    decreases steps.len(),
{
    if steps.len() == 0 {
        Seq::empty()
    } else {
        handed_out_in(steps.drop_last()) + buffers_of(steps.last().1)
    }
}

/// Whether `steps` is a run of receive steps (each as [`IgbNic::receive`]
/// and [`IgbNic::finish_receive`] guarantee) from the queue `start`.
pub open spec fn is_receive_run(
    start: Seq<NetBufPtr>,
    steps: Seq<(Seq<NetBufPtr>, Option<NetBufPtr>, Seq<NetBufPtr>)>,
) -> bool {
    forall|k: int|
        0 <= k < steps.len() ==> receive_step(
            queue_after(start, steps, k),
            #[trigger] steps[k].0,
            steps[k].1,
            steps[k].2,
        )
}

/// Receive order over any run of receives, refills and failures: the buffers
/// handed out so far, followed by the queue, are exactly the starting queue
/// followed by every buffer the device delivered, in delivery order. From an
/// empty queue: no received packet is lost, duplicated or reordered, and every
/// buffer handed out came from the device.
pub proof fn lemma_receive_run_conserves(
    start: Seq<NetBufPtr>,
    steps: Seq<(Seq<NetBufPtr>, Option<NetBufPtr>, Seq<NetBufPtr>)>,
)
    requires
        is_receive_run(start, steps),
    ensures
        handed_out_in(steps) + queue_after(start, steps, steps.len() as int) == start
            + delivered_in(steps),
    decreases steps.len(),
{
    if steps.len() == 0 {
        assert(handed_out_in(steps) + start =~= start + delivered_in(steps));
    } else {
        let n = steps.len() - 1;
        let prefix = steps.drop_last();
        assert forall|k: int| 0 <= k < prefix.len() implies receive_step(
            queue_after(start, prefix, k),
            #[trigger] prefix[k].0,
            prefix[k].1,
            prefix[k].2,
        ) by {
            assert(prefix[k] == steps[k]);
            assert(receive_step(queue_after(start, steps, k), steps[k].0, steps[k].1, steps[k].2));
            if k > 0 {
                assert(prefix[k - 1] == steps[k - 1]);
            }
        }
        lemma_receive_run_conserves(start, prefix);
        let before = queue_after(start, prefix, prefix.len() as int);
        assert(before == queue_after(start, steps, n as int)) by {
            if n > 0 {
                assert(prefix[n - 1] == steps[n - 1]);
            }
        }
        assert(receive_step(before, steps[n as int].0, steps[n as int].1, steps[n as int].2));
        let h = handed_out_in(prefix);
        let d = delivered_in(prefix);
        let last = steps[n as int];
        assert(handed_out_in(steps) == h + buffers_of(last.1));
        assert(delivered_in(steps) == d + last.0);
        assert(h + before == start + d);
        assert(before + last.0 == buffers_of(last.1) + last.2);
        assert((h + buffers_of(last.1)) + last.2 =~= h + (buffers_of(last.1) + last.2));
        assert(h + (before + last.0) =~= (h + before) + last.0);
        assert((start + d) + last.0 =~= start + (d + last.0));
    }
}

} // verus!
