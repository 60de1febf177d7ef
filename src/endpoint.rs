//! USB endpoints: addresses, the allocation table and endpoint configuration
use vstd::prelude::*;
use crate::buffer::{disjoint, Allocator, Buffer, RX_POOL, RX_SIZE, TX_POOL, TX_SIZE};
use crate::qh::{config, CONFIG, QH};

verus! {

/// Number of endpoint indices per direction.
pub const NUMBER_OF_ENDPOINTS: usize = 8;
/// Number of queue heads: one per endpoint index and direction.
pub const NUMBER_OF_QUEUE_HEADS: usize = 16;
/// Position of the receive transfer-type field in an endpoint control register.
pub const RXT_SHIFT: u32 = 2;
/// Position of the transmit transfer-type field in an endpoint control register.
pub const TXT_SHIFT: u32 = 18;

/// Direction of USB traffic, seen from the host.
#[derive(Clone, Copy, Debug, PartialEq, Eq, Structural)]
pub enum UsbDirection {
    Out,
    In,
}

/// USB transfer type.
#[derive(Clone, Copy, Debug, PartialEq, Eq, Structural)]
pub enum EndpointType {
    Control,
    Isochronous,
    Bulk,
    Interrupt,
}

/// The two-bit code of a transfer type, as the hardware and USB descriptors use it.
pub open spec fn type_code(t: EndpointType) -> u32 {
    match t {
        EndpointType::Control => 0,
        EndpointType::Isochronous => 1,
        EndpointType::Bulk => 2,
        EndpointType::Interrupt => 3,
    }
}

impl EndpointType {
    pub fn bits(&self) -> (r: u8)
        ensures
            r as u32 == type_code(*self),
    {
        match self {
            EndpointType::Control => 0,
            EndpointType::Isochronous => 1,
            EndpointType::Bulk => 2,
            EndpointType::Interrupt => 3,
        }
    }
}

/// An endpoint address: an index and a direction.
#[derive(Clone, Copy, Debug, PartialEq, Eq, Structural)]
pub struct EndpointAddress {
    pub index: u8,
    pub direction: UsbDirection,
}

impl EndpointAddress {
    pub fn from_parts(index: u8, direction: UsbDirection) -> (r: EndpointAddress)
        ensures
            r.index == index,
            r.direction == direction,
    {
        EndpointAddress { index, direction }
    }

    pub fn index(&self) -> (r: usize)
        ensures
            r == self.index,
    {
        self.index as usize
    }

    pub fn direction(&self) -> (r: UsbDirection)
        ensures
            r == self.direction,
    {
        self.direction
    }
}

/// What is asked of an endpoint allocation.
#[derive(Clone, Copy, Debug, PartialEq, Eq, Structural)]
pub struct EndpointDefinition {
    pub addr: EndpointAddress,
    pub max_packet_size: u16,
    pub ep_type: EndpointType,
}

/// Why an endpoint could not be allocated.
#[derive(Clone, Copy, Debug, PartialEq, Eq, Structural)]
pub enum AllocationError {
    /// Index 0 takes only control transfers.
    ControlOnly,
    /// The index is past the last endpoint.
    OutOfBounds,
    /// The direction's buffer pool has no room for the buffer.
    OutOfMemory,
    /// The endpoint is allocated already.
    AlreadyAllocated,
}

/// The errors that the bus reports to the protocol layer.
#[derive(Clone, Copy, Debug, PartialEq, Eq, Structural)]
pub enum UsbError {
    /// The endpoint address is invalid or already used.
    InvalidEndpoint,
    /// No endpoint or no buffer memory is left.
    EndpointOverflow,
}

/// How an allocation error is reported at the bus.
pub open spec fn usb_error_of(e: AllocationError) -> UsbError {
    match e {
        AllocationError::ControlOnly => UsbError::InvalidEndpoint,
        AllocationError::OutOfBounds => UsbError::EndpointOverflow,
        AllocationError::OutOfMemory => UsbError::EndpointOverflow,
        AllocationError::AlreadyAllocated => UsbError::InvalidEndpoint,
    }
}

impl From<AllocationError> for UsbError {
    fn from(ae: AllocationError) -> (r: UsbError)
        ensures
            r == usb_error_of(ae),
    {
        match ae {
            AllocationError::ControlOnly | AllocationError::AlreadyAllocated => UsbError::InvalidEndpoint,
            AllocationError::OutOfBounds | AllocationError::OutOfMemory => UsbError::EndpointOverflow,
        }
    }
}

impl vstd::std_specs::convert::FromSpecImpl<AllocationError> for UsbError {
    open spec fn obeys_from_spec() -> bool {
        true
    }

    open spec fn from_spec(ae: AllocationError) -> UsbError {
        usb_error_of(ae)
    }
}

/// Bit of the allocation mask for an endpoint: IN channels take the low byte, OUT the high.
pub open spec fn mask_offset_of(index: nat, dir: UsbDirection) -> nat {
    match dir {
        UsbDirection::In => index,
        UsbDirection::Out => index + 8,
    }
}

/// Queue head of an endpoint: OUT at even positions, IN at odd ones.
pub open spec fn qh_index_of(index: nat, dir: UsbDirection) -> nat {
    match dir {
        UsbDirection::Out => 2 * index,
        UsbDirection::In => 2 * index + 1,
    }
}

/// Whether bit `bit` of the mask is set.
pub open spec fn mask_has(mask: u16, bit: nat) -> bool {
    bit < 16 && mask & (1u16 << (bit as u16)) != 0
}

/// Whether the table with allocation mask `mask` holds the endpoint.
pub open spec fn allocated_in(mask: u16, addr: EndpointAddress) -> bool {
    addr.index < 8 && mask_has(mask, mask_offset_of(addr.index as nat, addr.direction))
}

/// The transmit (IN) transfer-type field of an endpoint control word: bits 18 and 19.
pub open spec fn txt_of(word: u32) -> u32 {
    (word >> 18u32) & 3u32
}

/// The receive (OUT) transfer-type field of an endpoint control word: bits 2 and 3.
pub open spec fn rxt_of(word: u32) -> u32 {
    (word >> 2u32) & 3u32
}

/// An endpoint control word with the transfer-type field of direction `dir` set to `t`
/// and every other bit kept.
pub open spec fn endptctrl_with(word: u32, dir: UsbDirection, t: EndpointType) -> u32 {
    match dir {
        UsbDirection::In => (word & !(3u32 << 18u32)) | (type_code(t) << 18u32),
        UsbDirection::Out => (word & !(3u32 << 2u32)) | (type_code(t) << 2u32),
    }
}

/// A queue head whose configuration word is replaced by `word`.
pub open spec fn with_config(qh: QH, word: u32) -> QH {
    QH { config: CONFIG { bits: word }, ..qh }
}

/// The queue-head configuration word written for an endpoint, all else at reset.
pub open spec fn qh_config_word(max_packet_size: u16, interrupt_on_setup: bool) -> u32 {
    (config::clamp_packet_length(max_packet_size) << 16u32) | (if interrupt_on_setup { 0x8000u32 } else { 0u32 })
}

/// Whether setup packets raise an interrupt on the endpoint: control OUT endpoints only.
pub open spec fn wants_setup_interrupt(addr: EndpointAddress, t: EndpointType) -> bool {
    addr.direction == UsbDirection::Out && t == EndpointType::Control
}

/// No bit of an empty mask is set.
pub proof fn lemma_mask_empty(bit: nat)
    ensures
        !mask_has(0u16, bit),
{
    if bit < 16 {
        let b = bit as u16;
        assert(0u16 & (1u16 << b) == 0u16) by (bit_vector);
    }
}

/// Setting one bit of the mask adds that bit and keeps the others.
pub proof fn lemma_mask_set(mask: u16, bit: u16, other: u16)
    requires
        bit < 16,
        other < 16,
    ensures
        mask_has(mask | (1u16 << bit), other as nat) == (other == bit || mask_has(mask, other as nat)),
{
    assert(((mask | (1u16 << bit)) & (1u16 << other) != 0) == (other == bit || mask & (1u16 << other) != 0))
        by (bit_vector)
        requires
            bit < 16,
            other < 16,
    ;
}

/// The endpoint control registers of the controller, as register images.
pub struct UsbRegisters {
    endptctrl: Vec<u32>,
    deviceaddr: u32,
}

impl UsbRegisters {
    /// ENDPTCTRL0 to ENDPTCTRL7, by endpoint index.
    pub closed spec fn view(&self) -> Seq<u32> {
        self.endptctrl@
    }

    pub open spec fn wf(&self) -> bool {
        self@.len() == NUMBER_OF_ENDPOINTS
    }

    /// Registers at their reset values.
    pub fn new() -> (r: UsbRegisters)
        ensures
            r.wf(),
            forall|i: int| 0 <= i < NUMBER_OF_ENDPOINTS ==> r@[i] == 0,
            r.spec_deviceaddr() == 0,
    {
        let mut endptctrl: Vec<u32> = Vec::new();
        let mut i: usize = 0;
        while i < NUMBER_OF_ENDPOINTS
            invariant
                i <= NUMBER_OF_ENDPOINTS,
                endptctrl@.len() == i,
                forall|k: int| 0 <= k < i ==> endptctrl@[k] == 0,
            decreases NUMBER_OF_ENDPOINTS - i,
        {
            endptctrl.push(0u32);
            i = i + 1;
        }
        UsbRegisters { endptctrl, deviceaddr: 0 }
    }

    /// The DEVICEADDR register.
    pub closed spec fn spec_deviceaddr(&self) -> u32 {
        self.deviceaddr
    }

    pub fn deviceaddr(&self) -> (r: u32)
        ensures
            r == self.spec_deviceaddr(),
    {
        self.deviceaddr
    }

    /// Stores a word in the DEVICEADDR register.
    pub fn write_deviceaddr(&mut self, word: u32)
        ensures
            final(self)@ == old(self)@,
            final(self).spec_deviceaddr() == word,
    {
        self.deviceaddr = word;
    }

    /// The endpoint control register of endpoint `index`.
    pub fn endptctrl(&self, index: usize) -> (r: u32)
        requires
            self.wf(),
            index < NUMBER_OF_ENDPOINTS,
        ensures
            r == self@[index as int],
    {
        self.endptctrl[index]
    }
}

/// Computes the position of an endpoint's queue head.
pub fn ep_to_qh(addr: &EndpointAddress) -> (r: usize)
    requires
        addr.index < NUMBER_OF_ENDPOINTS,
    ensures
        r == qh_index_of(addr.index as nat, addr.direction),
        r < NUMBER_OF_QUEUE_HEADS,
{
    let offset: usize = match addr.direction {
        UsbDirection::Out => 0,
        UsbDirection::In => 1,
    };
    (addr.index as usize) * 2 + offset
}

/// The abstract state of an endpoint table: its allocation mask and the free bytes of
/// its two buffer pools.
pub struct TableState {
    pub mask: u16,
    pub tx_free: nat,
    pub rx_free: nat,
}

/// The state of a table that nothing has been allocated from.
pub open spec fn fresh_state() -> TableState {
    TableState { mask: 0, tx_free: TX_POOL as nat, rx_free: RX_POOL as nat }
}

/// Rounds `n` down to a multiple of `align`.
pub open spec fn round_down(n: nat, align: nat) -> nat {
    (n - n % align) as nat
}

/// The free bytes of the pool that serves direction `dir`.
pub open spec fn pool_free(s: TableState, dir: UsbDirection) -> nat {
    match dir {
        UsbDirection::In => s.tx_free,
        UsbDirection::Out => s.rx_free,
    }
}

/// What `Endpoints::allocate` returns and leaves, over the table state.
pub open spec fn allocate_outcome(s: TableState, ep: EndpointDefinition) -> (Result<(), AllocationError>, TableState) {
    let index = ep.addr.index as nat;
    let dir = ep.addr.direction;
    let size = ep.max_packet_size as nat;
    if index == 0 && ep.ep_type != EndpointType::Control {
        (Err(AllocationError::ControlOnly), s)
    } else if index >= 8 {
        (Err(AllocationError::OutOfBounds), s)
    } else if allocated_in(s.mask, ep.addr) {
        (Err(AllocationError::AlreadyAllocated), s)
    } else if size > pool_free(s, dir) {
        (Err(AllocationError::OutOfMemory), s)
    } else {
        let mask = s.mask | (1u16 << (mask_offset_of(index, dir) as u16));
        match dir {
            UsbDirection::In => (Ok(()), TableState { mask, tx_free: round_down((s.tx_free - size) as nat, TX_SIZE as nat), ..s }),
            UsbDirection::Out => (Ok(()), TableState { mask, rx_free: round_down((s.rx_free - size) as nat, RX_SIZE as nat), ..s }),
        }
    }
}

/// The table of endpoints: which channels are allocated, their buffers, their queue heads.
pub struct Endpoints {
    /// Bit `index` is set for an allocated IN endpoint, bit `8 + index` for an OUT one.
    mask: u16,
    /// An endpoint's buffer, by queue-head position.
    buffers: Vec<Option<Buffer>>,
    /// The queue heads, by queue-head position.
    qhs: Vec<QH>,
    /// Allocator of the transfer pool (IN endpoints).
    tx_alloc: Allocator,
    /// Allocator of the receive pool (OUT endpoints).
    rx_alloc: Allocator,
}

impl Endpoints {
    /// The abstract state of the table.
    pub closed spec fn state(&self) -> TableState {
        TableState { mask: self.mask, tx_free: self.tx_alloc.spec_offset(), rx_free: self.rx_alloc.spec_offset() }
    }

    pub closed spec fn buffer_view(&self) -> Seq<Option<Buffer>> {
        self.buffers@
    }

    pub closed spec fn qh_view(&self) -> Seq<QH> {
        self.qhs@
    }

    /// Place and size of the buffer in slot `q`.
    pub open spec fn slot_range(&self, q: int) -> (nat, nat) {
        (self.buffer_view()[q].unwrap().spec_start(), self.buffer_view()[q].unwrap()@.len())
    }

    /// A slot holds a buffer exactly when its endpoint is allocated.
    pub open spec fn slots_match_mask(&self) -> bool {
        forall|a: EndpointAddress| a.index < 8 ==> (#[trigger] allocated_in(self.state().mask, a)
            <==> self.buffer_view()[qh_index_of(a.index as nat, a.direction) as int] is Some)
    }

    /// No two live buffers of one pool (even slots: receive, odd slots: transfer) overlap.
    pub open spec fn buffers_disjoint(&self) -> bool {
        forall|q1: int, q2: int|
            0 <= q1 < NUMBER_OF_QUEUE_HEADS && 0 <= q2 < NUMBER_OF_QUEUE_HEADS && q1 != q2 && q1 % 2 == q2 % 2
            && self.buffer_view()[q1] is Some && self.buffer_view()[q2] is Some
            ==> disjoint(#[trigger] self.slot_range(q1), #[trigger] self.slot_range(q2))
    }

    pub open spec fn wf(&self) -> bool {
        &&& self.buffer_view().len() == NUMBER_OF_QUEUE_HEADS
        &&& self.qh_view().len() == NUMBER_OF_QUEUE_HEADS
        &&& self.slots_match_mask()
        &&& self.buffers_disjoint()
        &&& self.inner_wf()
    }

    /// The allocator that serves slot `q`.
    pub closed spec fn pool_of(&self, q: int) -> Allocator {
        if q % 2 == 1 { self.tx_alloc } else { self.rx_alloc }
    }

    pub closed spec fn inner_wf(&self) -> bool {
        &&& forall|q: int| 0 <= q < NUMBER_OF_QUEUE_HEADS && (#[trigger] self.buffers@[q]) is Some ==> {
            &&& self.pool_of(q).spec_offset() <= self.buffers@[q].unwrap().spec_start()
            &&& self.buffers@[q].unwrap().spec_start() + self.buffers@[q].unwrap()@.len() <= self.pool_of(q).spec_len()
            &&& self.pool_of(q).allocated().contains(
                (self.buffers@[q].unwrap().spec_start(), self.buffers@[q].unwrap()@.len()))
        }
        &&& self.tx_alloc.wf()
        &&& self.rx_alloc.wf()
        &&& self.tx_alloc.spec_align() == TX_SIZE
        &&& self.rx_alloc.spec_align() == RX_SIZE
        &&& self.tx_alloc.spec_len() == TX_POOL
        &&& self.rx_alloc.spec_len() == RX_POOL
    }

    /// Whether the endpoint at `addr` has been allocated.
    pub open spec fn spec_is_allocated(&self, addr: EndpointAddress) -> bool {
        allocated_in(self.state().mask, addr)
    }

    /// An empty table: nothing allocated, both pools whole, queue heads at reset.
    pub fn new() -> (r: Endpoints)
        ensures
            r.wf(),
            r.state() == fresh_state(),
            forall|i: int| 0 <= i < NUMBER_OF_QUEUE_HEADS ==> (#[trigger] r.buffer_view()[i]).is_none(),
            forall|i: int| 0 <= i < NUMBER_OF_QUEUE_HEADS ==> (#[trigger] r.qh_view()[i]).is_reset(),
    {
        let mut buffers: Vec<Option<Buffer>> = Vec::new();
        let mut qhs: Vec<QH> = Vec::new();
        let mut i: usize = 0;
        while i < NUMBER_OF_QUEUE_HEADS
            invariant
                i <= NUMBER_OF_QUEUE_HEADS,
                buffers@.len() == i,
                qhs@.len() == i,
                forall|k: int| 0 <= k < i ==> (#[trigger] buffers@[k]).is_none(),
                forall|k: int| 0 <= k < i ==> (#[trigger] qhs@[k]).is_reset(),
            decreases NUMBER_OF_QUEUE_HEADS - i,
        {
            buffers.push(None);
            qhs.push(QH::new());
            i = i + 1;
        }
        proof {
            assert forall|a: EndpointAddress| !#[trigger] allocated_in(0u16, a) by {
                lemma_mask_empty(mask_offset_of(a.index as nat, a.direction));
            }
        }
        Endpoints { mask: 0, buffers, qhs, tx_alloc: Allocator::tx(), rx_alloc: Allocator::rx() }
    }

    /// The queue heads, by queue-head position.
    pub fn queue_heads(&self) -> (r: &Vec<QH>)
        ensures
            r@ == self.qh_view(),
    {
        &self.qhs
    }

    /// The buffer of the endpoint at queue-head position `qh`, if one was allocated.
    pub fn buffer(&self, qh: usize) -> (r: &Option<Buffer>)
        requires
            self.wf(),
            qh < NUMBER_OF_QUEUE_HEADS,
        ensures
            *r == self.buffer_view()[qh as int],
    {
        &self.buffers[qh]
    }

    fn mask_offset(&self, addr: &EndpointAddress) -> (r: u16)
        requires
            addr.index < NUMBER_OF_ENDPOINTS,
        ensures
            r == mask_offset_of(addr.index as nat, addr.direction),
            r < 16,
    {
        let offset: u16 = match addr.direction {
            UsbDirection::In => 0,
            UsbDirection::Out => 8,
        };
        addr.index as u16 + offset
    }

    /// Whether the endpoint at `addr` has been allocated. Indices past the last endpoint
    /// never are.
    pub fn is_allocated(&self, addr: &EndpointAddress) -> (r: bool)
        ensures
            r == self.spec_is_allocated(*addr),
    {
        if addr.index as usize >= NUMBER_OF_ENDPOINTS {
            return false;
        }
        let offset = self.mask_offset(addr);
        self.mask & (1u16 << offset) != 0
    }

    /// Writes the transfer type of the endpoint into its direction's field of its control
    /// register; the other direction's field and all other bits keep their values.
    fn setup_endpoint(&self, regs: &mut UsbRegisters, ep: &EndpointDefinition)
        requires
            old(regs).wf(),
            1 <= ep.addr.index < NUMBER_OF_ENDPOINTS,
        ensures
            final(regs)@ == old(regs)@.update(
                ep.addr.index as int,
                endptctrl_with(old(regs)@[ep.addr.index as int], ep.addr.direction, ep.ep_type),
            ),
            final(regs).wf(),
            final(regs).spec_deviceaddr() == old(regs).spec_deviceaddr(),
            ep.addr.direction == UsbDirection::In ==> txt_of(final(regs)@[ep.addr.index as int]) == type_code(ep.ep_type)
                && rxt_of(final(regs)@[ep.addr.index as int]) == rxt_of(old(regs)@[ep.addr.index as int]),
            ep.addr.direction == UsbDirection::Out ==> rxt_of(final(regs)@[ep.addr.index as int]) == type_code(ep.ep_type)
                && txt_of(final(regs)@[ep.addr.index as int]) == txt_of(old(regs)@[ep.addr.index as int]),
    {
        let index = ep.addr.index as usize;
        let t = ep.ep_type.bits() as u32;
        let prev = regs.endptctrl[index];
        let word = match ep.addr.direction {
            UsbDirection::In => (prev & !(3u32 << TXT_SHIFT)) | (t << TXT_SHIFT),
            UsbDirection::Out => (prev & !(3u32 << RXT_SHIFT)) | (t << RXT_SHIFT),
        };
        assert(t <= 3 ==> (((prev & !(3u32 << 18u32)) | (t << 18u32)) >> 18u32) & 3u32 == t
            && (((prev & !(3u32 << 18u32)) | (t << 18u32)) >> 2u32) & 3u32 == (prev >> 2u32) & 3u32
            && (((prev & !(3u32 << 2u32)) | (t << 2u32)) >> 2u32) & 3u32 == t
            && (((prev & !(3u32 << 2u32)) | (t << 2u32)) >> 18u32) & 3u32 == (prev >> 18u32) & 3u32) by (bit_vector);
        regs.endptctrl.set(index, word);
    }

    /// Allocates the endpoint `ep`. Refuses index 0 for any type but control, indices
    /// past the last endpoint, and endpoints allocated already, changing nothing. Else
    /// configures its control register (not for index 0, which the hardware configures)
    /// and its queue head, takes a buffer of `ep.max_packet_size` bytes from the pool of
    /// its direction, and marks it allocated. A buffer that does not fit fails the
    /// allocation after the register and the queue head were written.
    pub fn allocate(&mut self, regs: &mut UsbRegisters, ep: &EndpointDefinition) -> (r: Result<(), AllocationError>)
        requires
            old(self).wf(),
            old(regs).wf(),
        ensures
            final(self).wf(),
            final(regs).wf(),
            (r, final(self).state()) == allocate_outcome(old(self).state(), *ep),
            ({
                let i = ep.addr.index as int;
                let q = qh_index_of(ep.addr.index as nat, ep.addr.direction) as int;
                let refused = r == Err::<(), AllocationError>(AllocationError::ControlOnly)
                    || r == Err::<(), AllocationError>(AllocationError::OutOfBounds)
                    || r == Err::<(), AllocationError>(AllocationError::AlreadyAllocated);
                &&& refused ==> *final(self) == *old(self) && *final(regs) == *old(regs)
                &&& !refused ==> {
                    &&& final(regs).spec_deviceaddr() == old(regs).spec_deviceaddr()
                    &&& i == 0 ==> final(regs)@ == old(regs)@
                    &&& i != 0 ==> final(regs)@ == old(regs)@.update(
                        i, endptctrl_with(old(regs)@[i], ep.addr.direction, ep.ep_type))
                    &&& final(self).qh_view() == old(self).qh_view().update(q, with_config(
                        old(self).qh_view()[q],
                        qh_config_word(ep.max_packet_size, wants_setup_interrupt(ep.addr, ep.ep_type)),
                    ))
                    &&& r is Err ==> final(self).buffer_view() == old(self).buffer_view()
                    &&& r is Ok ==> {
                        &&& final(self).buffer_view() == old(self).buffer_view().update(q, final(self).buffer_view()[q])
                        &&& final(self).buffer_view()[q] is Some
                        &&& final(self).buffer_view()[q].unwrap()@.len() == ep.max_packet_size
                    }
                }
            }),
    {
        let index = ep.addr.index as usize;
        if index == 0 {
            if ep.ep_type != EndpointType::Control {
                return Err(AllocationError::ControlOnly);
            }
        } else if index >= NUMBER_OF_ENDPOINTS {
            return Err(AllocationError::OutOfBounds);
        }
        if self.is_allocated(&ep.addr) {
            return Err(AllocationError::AlreadyAllocated);
        }
        if index != 0 {
            self.setup_endpoint(regs, ep);
        }

        let qh_idx = ep_to_qh(&ep.addr);
        let setup_irq = ep.addr.direction == UsbDirection::Out && ep.ep_type == EndpointType::Control;
        let with_length = config::W::reset().max_packet_length().bits(ep.max_packet_size);
        let w = with_length.interrupt_on_setup().bit(setup_irq);
        proof {
            lemma_config_word(with_length.bits, w.bits, ep.max_packet_size, setup_irq);
        }
        let mut q = self.qhs[qh_idx];
        q.config.write(w);
        self.qhs.set(qh_idx, q);
        assert(self.qhs@ =~= old(self).qhs@.update(qh_idx as int, with_config(
            old(self).qhs@[qh_idx as int],
            qh_config_word(ep.max_packet_size, setup_irq),
        )));

        let size = ep.max_packet_size as usize;
        let ghost old_tx = self.tx_alloc;
        let ghost old_rx = self.rx_alloc;
        let buffer = match ep.addr.direction {
            UsbDirection::In => self.tx_alloc.alloc_buffer(size),
            UsbDirection::Out => self.rx_alloc.alloc_buffer(size),
        };
        let b = match buffer {
            None => {
                proof {
                    assert(self.buffer_view() == old(self).buffer_view());
                    assert(self.state() == old(self).state());
                    assert(self.slots_match_mask() == old(self).slots_match_mask());
                    assert forall|q1: int, q2: int| #[trigger] self.slot_range(q1) == old(self).slot_range(q1)
                        && #[trigger] self.slot_range(q2) == old(self).slot_range(q2) by {}
                }
                return Err(AllocationError::OutOfMemory);
            },
            Some(b) => b,
        };
        proof {
            // The new buffer lies below the old cursor, every live buffer of its pool above.
            let ghost pool_before = if qh_idx % 2 == 1 { old_tx } else { old_rx };
            assert(b.spec_start() + b@.len() <= pool_before.spec_offset());
            let ghost pool_after = if qh_idx % 2 == 1 { self.tx_alloc } else { self.rx_alloc };
            assert forall|k: int| 0 <= k < NUMBER_OF_QUEUE_HEADS && k % 2 == qh_idx % 2 && #[trigger] self.buffers@[k] is Some
                implies pool_before.spec_offset() <= self.buffers@[k].unwrap().spec_start()
                && pool_after.allocated().contains(
                    (self.buffers@[k].unwrap().spec_start(), self.buffers@[k].unwrap()@.len())) by {
                assert(old(self).buffers@[k] is Some);
                let x = (self.buffers@[k].unwrap().spec_start(), self.buffers@[k].unwrap()@.len());
                let idx = choose|idx: int| 0 <= idx < pool_before.allocated().len() && pool_before.allocated()[idx] == x;
                assert(pool_after.allocated()[idx] == x);
            }
            assert(pool_after.allocated().last() == (b.spec_start(), b@.len()));
            assert(pool_after.allocated()[pool_after.allocated().len() - 1] == (b.spec_start(), b@.len()));
        }
        self.buffers.set(qh_idx, Some(b));

        let offset = self.mask_offset(&ep.addr);
        let ghost prev_mask = self.mask;
        self.mask = self.mask | (1u16 << offset);
        proof {
            assert forall|a: EndpointAddress| a.index < 8 implies (#[trigger] allocated_in(self.state().mask, a)
                <==> self.buffer_view()[qh_index_of(a.index as nat, a.direction) as int] is Some) by {
                lemma_mask_set(prev_mask, offset, mask_offset_of(a.index as nat, a.direction) as u16);
                if a != ep.addr {
                    assert(old(self).slots_match_mask());
                    assert(allocated_in(old(self).state().mask, a) == allocated_in(prev_mask, a));
                }
            }
            assert forall|q1: int, q2: int|
                0 <= q1 < NUMBER_OF_QUEUE_HEADS && 0 <= q2 < NUMBER_OF_QUEUE_HEADS && q1 != q2 && q1 % 2 == q2 % 2
                && self.buffer_view()[q1] is Some && self.buffer_view()[q2] is Some
                implies disjoint(#[trigger] self.slot_range(q1), #[trigger] self.slot_range(q2)) by {
                if q1 != qh_idx && q2 != qh_idx {
                    assert(old(self).slot_range(q1) == self.slot_range(q1));
                    assert(old(self).slot_range(q2) == self.slot_range(q2));
                } else if q1 == qh_idx {
                    assert(self.buffers@[q2] == old(self).buffers@[q2]);
                } else {
                    assert(self.buffers@[q1] == old(self).buffers@[q1]);
                }
            }
        }
        Ok(())
    }
}

impl Endpoints {
    /// Whether the endpoint's queue head marks it as stalled.
    pub open spec fn spec_is_stalled(&self, addr: EndpointAddress) -> bool {
        addr.index < 8 && crate::generic::bit_of(self.qh_view()[qh_index_of(addr.index as nat, addr.direction) as int].token@, 6)
    }

    /// Sets or clears the halted flag in the token of the endpoint's queue head. Other
    /// bits, queue heads and the allocation state stay as they are; indices past the
    /// last endpoint change nothing.
    pub fn set_stalled(&mut self, addr: &EndpointAddress, stalled: bool)
        requires
            old(self).wf(),
        ensures
            final(self).wf(),
            final(self).state() == old(self).state(),
            final(self).buffer_view() == old(self).buffer_view(),
            addr.index >= 8 ==> final(self).qh_view() == old(self).qh_view(),
            addr.index < 8 ==> ({
                let q = qh_index_of(addr.index as nat, addr.direction) as int;
                &&& crate::generic::bit_of(final(self).qh_view()[q].token@, 6) == stalled
                &&& crate::generic::outside_bit(final(self).qh_view()[q].token@, 6)
                    == crate::generic::outside_bit(old(self).qh_view()[q].token@, 6)
                &&& final(self).qh_view()[q].config == old(self).qh_view()[q].config
                &&& forall|i: int| 0 <= i < NUMBER_OF_QUEUE_HEADS && i != q
                    ==> final(self).qh_view()[i] == old(self).qh_view()[i]
            }),
    {
        if addr.index as usize >= NUMBER_OF_ENDPOINTS {
            return;
        }
        let q = ep_to_qh(addr);
        let mut head = self.qhs[q];
        let bits = crate::generic::set_bit_at(head.token.read().bits, 6, stalled);
        head.token.write(crate::td::token::W::from_bits(bits));
        self.qhs.set(q, head);
        proof {
            assert(self.buffer_view() == old(self).buffer_view());
            assert(self.state() == old(self).state());
            assert(self.slots_match_mask() == old(self).slots_match_mask());
            assert forall|q1: int| #[trigger] self.slot_range(q1) == old(self).slot_range(q1) by {}
        }
    }

    /// Whether the endpoint is stalled; indices past the last endpoint never are.
    pub fn is_stalled(&self, addr: &EndpointAddress) -> (r: bool)
        requires
            self.wf(),
        ensures
            r == self.spec_is_stalled(*addr),
    {
        if addr.index as usize >= NUMBER_OF_ENDPOINTS {
            return false;
        }
        let q = ep_to_qh(addr);
        crate::generic::read_bit_at(self.qhs[q].token.read().bits, 6)
    }

    /// The bytes held for an allocated endpoint.
    pub open spec fn spec_buffer(&self, addr: EndpointAddress) -> Seq<u8> {
        self.buffer_view()[qh_index_of(addr.index as nat, addr.direction) as int].unwrap()@
    }

    /// Stages `data` in the endpoint's buffer; returns how many bytes fit. Fails with
    /// `InvalidEndpoint` for an endpoint that is not allocated.
    pub fn write(&mut self, addr: &EndpointAddress, data: &[u8]) -> (r: Result<usize, UsbError>)
        requires
            old(self).wf(),
        ensures
            final(self).wf(),
            final(self).state() == old(self).state(),
            final(self).qh_view() == old(self).qh_view(),
            !old(self).spec_is_allocated(*addr) ==> r == Err::<usize, UsbError>(UsbError::InvalidEndpoint)
                && final(self).buffer_view() == old(self).buffer_view(),
            forall|i: int| 0 <= i < NUMBER_OF_QUEUE_HEADS && i != qh_index_of(addr.index as nat, addr.direction)
                ==> #[trigger] final(self).buffer_view()[i] == old(self).buffer_view()[i],
            forall|i: int| 0 <= i < NUMBER_OF_QUEUE_HEADS ==> #[trigger] final(self).slot_range(i) == old(self).slot_range(i),
            old(self).spec_is_allocated(*addr) ==> ({
                let old_bytes = old(self).spec_buffer(*addr);
                let n = if data@.len() < old_bytes.len() { data@.len() } else { old_bytes.len() };
                &&& r == Ok::<usize, UsbError>(n as usize)
                &&& final(self).spec_buffer(*addr) == data@.take(n as int) + old_bytes.skip(n as int)
            }),
    {
        if !self.is_allocated(addr) {
            return Err(UsbError::InvalidEndpoint);
        }
        let q = ep_to_qh(addr);
        let mut slot: Option<Buffer> = None;
        std::mem::swap(&mut slot, &mut self.buffers[q]);
        let mut b = slot.unwrap();
        let n = b.write(data);
        self.buffers.set(q, Some(b));
        proof {
            assert(self.state() == old(self).state());
            assert(self.slot_range(q as int) == old(self).slot_range(q as int));
            assert forall|k: int| 0 <= k < NUMBER_OF_QUEUE_HEADS implies
                (#[trigger] self.buffers@[k] is Some) == (old(self).buffers@[k] is Some)
                && self.slot_range(k) == old(self).slot_range(k) by {}
            assert forall|a: EndpointAddress| a.index < 8 implies (#[trigger] allocated_in(self.state().mask, a)
                <==> self.buffer_view()[qh_index_of(a.index as nat, a.direction) as int] is Some) by {
                assert(old(self).slots_match_mask());
                let k = qh_index_of(a.index as nat, a.direction) as int;
                assert((self.buffers@[k] is Some) == (old(self).buffers@[k] is Some));
            }
        }
        Ok(n)
    }

    /// Copies the bytes of the endpoint's buffer into `data`; returns how many were
    /// copied. Fails with `InvalidEndpoint` for an endpoint that is not allocated.
    pub fn read(&self, addr: &EndpointAddress, data: &mut [u8]) -> (r: Result<usize, UsbError>)
        requires
            self.wf(),
        ensures
            !self.spec_is_allocated(*addr) ==> r == Err::<usize, UsbError>(UsbError::InvalidEndpoint)
                && final(data)@ == old(data)@,
            self.spec_is_allocated(*addr) ==> ({
                let bytes = self.spec_buffer(*addr);
                let n = if old(data)@.len() < bytes.len() { old(data)@.len() } else { bytes.len() };
                &&& r == Ok::<usize, UsbError>(n as usize)
                &&& final(data)@ == bytes.take(n as int) + old(data)@.skip(n as int)
            }),
    {
        if !self.is_allocated(addr) {
            return Err(UsbError::InvalidEndpoint);
        }
        let q = ep_to_qh(addr);
        match &self.buffers[q] {
            Some(b) => Ok(b.read(data)),
            None => Err(UsbError::InvalidEndpoint),
        }
    }
}

/// A configuration word built from reset with a max packet length and then the
/// interrupt-on-setup flag is exactly `qh_config_word`.
proof fn lemma_config_word(with_length: u32, bits: u32, mps: u16, ios: bool)
    requires
        config::max_packet_length_of(with_length) == config::clamp_packet_length(mps),
        config::outside_max_packet_length(with_length) == config::outside_max_packet_length(0),
        crate::generic::bit_of(bits, 15) == ios,
        crate::generic::outside_bit(bits, 15) == crate::generic::outside_bit(with_length, 15),
    ensures
        bits == qh_config_word(mps, ios),
{
    let c = config::clamp_packet_length(mps);
    assert(c <= 0x400);
    assert(bits == (c << 16u32) | (if ios { 0x8000u32 } else { 0u32 })) by (bit_vector)
        requires
            c <= 0x400,
            (with_length >> 16u32) & 0x7FFu32 == c,
            with_length & !(0x7FFu32 << 16u32) == 0u32 & !(0x7FFu32 << 16u32),
            (bits & (1u32 << 15u32) != 0) == ios,
            bits & !(1u32 << 15u32) == with_length & !(1u32 << 15u32),
    ;
}

} // verus!
