//! The bus: endpoint allocation as the USB protocol layer asks for it
use vstd::prelude::*;
use crate::endpoint::{
    allocate_outcome, allocated_in, endptctrl_with, fresh_state, lemma_mask_empty, lemma_mask_set, mask_has,
    mask_offset_of, pool_free, qh_config_word, qh_index_of, usb_error_of, wants_setup_interrupt, with_config,
    AllocationError, EndpointAddress, EndpointDefinition, EndpointType, Endpoints, TableState,
    UsbDirection, UsbError, UsbRegisters, NUMBER_OF_ENDPOINTS,
};

verus! {

/// The first index from `i` up to 7 whose endpoint in direction `dir` is free.
pub open spec fn first_free_from(mask: u16, dir: UsbDirection, i: nat) -> Option<nat>
    decreases 8 - i,
{
    if i >= 8 {
        None
    } else if !mask_has(mask, mask_offset_of(i, dir)) {
        Some(i)
    } else {
        first_free_from(mask, dir, i + 1)
    }
}

/// What allocating the endpoint of `ep` returns and leaves, reported as the bus reports it.
pub open spec fn allocate_at(s: TableState, ep: EndpointDefinition) -> (Result<EndpointAddress, UsbError>, TableState) {
    let (r, s2) = allocate_outcome(s, ep);
    match r {
        Ok(_) => (Ok(ep.addr), s2),
        Err(e) => (Err(usb_error_of(e)), s2),
    }
}

/// What `UsbBus::alloc_ep` returns and leaves, over the table state.
pub open spec fn alloc_ep_outcome(
    s: TableState,
    dir: UsbDirection,
    addr: Option<EndpointAddress>,
    t: EndpointType,
    max_packet_size: u16,
) -> (Result<EndpointAddress, UsbError>, TableState) {
    match addr {
        Some(a) => if allocated_in(s.mask, a) {
            (Err(UsbError::InvalidEndpoint), s)
        } else {
            allocate_at(s, EndpointDefinition { addr: a, max_packet_size, ep_type: t })
        },
        None => match first_free_from(s.mask, dir, 1) {
            None => (Err(UsbError::EndpointOverflow), s),
            Some(i) => allocate_at(
                s,
                EndpointDefinition {
                    addr: EndpointAddress { index: i as u8, direction: dir },
                    max_packet_size,
                    ep_type: t,
                },
            ),
        },
    }
}

/// Whether `UsbBus::alloc_ep` refuses a request before it writes anything: the explicit
/// endpoint is allocated already, past the last index, or index 0 with a type other than
/// control; or, without an address, no index from 1 to 7 is free.
pub open spec fn alloc_ep_refused(s: TableState, dir: UsbDirection, addr: Option<EndpointAddress>, t: EndpointType) -> bool {
    match addr {
        Some(a) => allocated_in(s.mask, a) || a.index >= 8 || (a.index == 0 && t != EndpointType::Control),
        None => first_free_from(s.mask, dir, 1) is None,
    }
}

/// The USB bus: the controller's endpoint registers and the endpoint table.
pub struct UsbBus {
    regs: UsbRegisters,
    endpoints: Endpoints,
}

impl UsbBus {
    pub open spec fn wf(&self) -> bool {
        self.spec_regs().wf() && self.spec_endpoints().wf()
    }

    pub closed spec fn spec_regs(&self) -> UsbRegisters {
        self.regs
    }

    pub closed spec fn spec_endpoints(&self) -> Endpoints {
        self.endpoints
    }

    /// The abstract state of the endpoint table.
    pub open spec fn state(&self) -> TableState {
        self.spec_endpoints().state()
    }

    /// A bus with nothing allocated and its registers at reset.
    pub fn new() -> (r: UsbBus)
        ensures
            r.wf(),
            r.state() == fresh_state(),
            forall|i: int| 0 <= i < NUMBER_OF_ENDPOINTS ==> r.spec_regs()@[i] == 0,
    {
        UsbBus { regs: UsbRegisters::new(), endpoints: Endpoints::new() }
    }

    /// The endpoint table.
    pub fn endpoints(&self) -> (r: &Endpoints)
        ensures
            *r == self.spec_endpoints(),
    {
        &self.endpoints
    }

    /// The endpoint control registers.
    pub fn registers(&self) -> (r: &UsbRegisters)
        ensures
            *r == self.spec_regs(),
    {
        &self.regs
    }

    /// Whether the endpoint at `addr` has been allocated.
    pub fn is_allocated(&self, addr: &EndpointAddress) -> (r: bool)
        ensures
            r == allocated_in(self.state().mask, *addr),
    {
        self.endpoints.is_allocated(addr)
    }

    /// Allocates an endpoint. With an address, that endpoint is allocated unless it
    /// already is; without one, the lowest free index from 1 to 7 in direction `ep_dir`.
    pub fn alloc_ep(
        &mut self,
        ep_dir: UsbDirection,
        ep_addr: Option<EndpointAddress>,
        ep_type: EndpointType,
        max_packet_size: u16,
        _interval: u8,
    ) -> (r: Result<EndpointAddress, UsbError>)
        requires
            old(self).wf(),
        ensures
            final(self).wf(),
            (r, final(self).state()) == alloc_ep_outcome(old(self).state(), ep_dir, ep_addr, ep_type, max_packet_size),
            alloc_ep_refused(old(self).state(), ep_dir, ep_addr, ep_type) ==> *final(self) == *old(self),
            ep_addr is Some && ep_addr.unwrap().index == 0 ==> final(self).spec_regs()@ == old(self).spec_regs()@,
            r is Err ==> final(self).spec_endpoints().buffer_view() == old(self).spec_endpoints().buffer_view()
                && final(self).spec_regs().spec_deviceaddr() == old(self).spec_regs().spec_deviceaddr(),
            r is Ok ==> ({
                let a = r.unwrap();
                let q = qh_index_of(a.index as nat, a.direction) as int;
                let old_eps = old(self).spec_endpoints();
                let eps = final(self).spec_endpoints();
                &&& final(self).spec_regs().spec_deviceaddr() == old(self).spec_regs().spec_deviceaddr()
                &&& a.index == 0 ==> final(self).spec_regs()@ == old(self).spec_regs()@
                &&& a.index != 0 ==> final(self).spec_regs()@ == old(self).spec_regs()@.update(
                    a.index as int, endptctrl_with(old(self).spec_regs()@[a.index as int], a.direction, ep_type))
                &&& eps.qh_view() == old_eps.qh_view().update(q, with_config(
                    old_eps.qh_view()[q], qh_config_word(max_packet_size, wants_setup_interrupt(a, ep_type))))
                &&& eps.buffer_view() == old_eps.buffer_view().update(q, eps.buffer_view()[q])
                &&& eps.buffer_view()[q] is Some
                &&& eps.buffer_view()[q].unwrap()@.len() == max_packet_size
            }),
    {
        match ep_addr {
            Some(addr) => {
                if !self.endpoints.is_allocated(&addr) {
                    let ep = EndpointDefinition { addr, max_packet_size, ep_type };
                    match self.endpoints.allocate(&mut self.regs, &ep) {
                        Ok(()) => Ok(addr),
                        Err(e) => Err(UsbError::from(e)),
                    }
                } else {
                    Err(UsbError::InvalidEndpoint)
                }
            },
            None => {
                let mut idx: u8 = 1;
                while idx < 8
                    invariant
                        1 <= idx <= 8,
                        ep_addr is None,
                        self.wf(),
                        *self == *old(self),
                        first_free_from(self.state().mask, ep_dir, 1)
                            == first_free_from(self.state().mask, ep_dir, idx as nat),
                    decreases 8 - idx,
                {
                    let addr = EndpointAddress::from_parts(idx, ep_dir);
                    if !self.endpoints.is_allocated(&addr) {
                        let ep = EndpointDefinition { addr, max_packet_size, ep_type };
                        return match self.endpoints.allocate(&mut self.regs, &ep) {
                            Ok(()) => Ok(addr),
                            Err(e) => Err(UsbError::from(e)),
                        };
                    }
                    idx = idx + 1;
                }
                Err(UsbError::EndpointOverflow)
            },
        }
    }
}

/// The DEVICEADDR word for a USB address: the address in bits 25 to 31, and the
/// advance flag (bit 24), which holds the address back until the status stage of the
/// SET_ADDRESS request has completed.
pub open spec fn deviceaddr_word(addr: u8) -> u32 {
    (((addr as u32) & 0x7Fu32) << 25u32) | 0x0100_0000u32
}

impl UsbBus {
    /// Programs the address that the host assigned; it takes effect once the status
    /// stage of the SET_ADDRESS request has completed.
    pub fn set_device_address(&mut self, addr: u8)
        requires
            old(self).wf(),
        ensures
            final(self).wf(),
            final(self).spec_regs().spec_deviceaddr() == deviceaddr_word(addr),
            final(self).spec_regs()@ == old(self).spec_regs()@,
            final(self).spec_endpoints() == old(self).spec_endpoints(),
    {
        let word = (((addr as u32) & 0x7F) << 25) | 0x0100_0000;
        self.regs.write_deviceaddr(word);
    }

    /// Stalls or unstalls an endpoint: sets or clears the halted flag of its queue head.
    pub fn set_stalled(&mut self, ep_addr: EndpointAddress, stalled: bool)
        requires
            old(self).wf(),
        ensures
            final(self).wf(),
            final(self).state() == old(self).state(),
            final(self).spec_regs() == old(self).spec_regs(),
            ep_addr.index < 8 ==> final(self).spec_endpoints().spec_is_stalled(ep_addr) == stalled,
            final(self).spec_endpoints().buffer_view() == old(self).spec_endpoints().buffer_view(),
            ep_addr.index >= 8 ==> final(self).spec_endpoints().qh_view() == old(self).spec_endpoints().qh_view(),
            ep_addr.index < 8 ==> ({
                let q = qh_index_of(ep_addr.index as nat, ep_addr.direction) as int;
                let before = old(self).spec_endpoints().qh_view();
                let after = final(self).spec_endpoints().qh_view();
                &&& crate::generic::outside_bit(after[q].token@, 6) == crate::generic::outside_bit(before[q].token@, 6)
                &&& after[q].config == before[q].config
                &&& forall|i: int| 0 <= i < crate::endpoint::NUMBER_OF_QUEUE_HEADS && i != q
                    ==> #[trigger] after[i] == before[i]
            }),
            forall|other: EndpointAddress| other != ep_addr ==>
                final(self).spec_endpoints().spec_is_stalled(other) == old(self).spec_endpoints().spec_is_stalled(other),
    {
        self.endpoints.set_stalled(&ep_addr, stalled);
        proof {
            assert forall|other: EndpointAddress| other != ep_addr implies
                #[trigger] self.spec_endpoints().spec_is_stalled(other) == old(self).spec_endpoints().spec_is_stalled(other) by {
                if other.index < 8 && ep_addr.index < 8 {
                    let q = qh_index_of(ep_addr.index as nat, ep_addr.direction) as int;
                    let qo = qh_index_of(other.index as nat, other.direction) as int;
                    assert(qo != q);
                }
            }
        }
    }

    /// Whether an endpoint is stalled.
    pub fn is_stalled(&self, ep_addr: EndpointAddress) -> (r: bool)
        requires
            self.wf(),
        ensures
            r == self.spec_endpoints().spec_is_stalled(ep_addr),
    {
        self.endpoints.is_stalled(&ep_addr)
    }

    /// Stages `buf` for the host in the endpoint's buffer without waiting; returns how
    /// many bytes fit, or `InvalidEndpoint` for an endpoint that is not allocated.
    pub fn write(&mut self, ep_addr: EndpointAddress, buf: &[u8]) -> (r: Result<usize, UsbError>)
        requires
            old(self).wf(),
        ensures
            final(self).wf(),
            final(self).state() == old(self).state(),
            final(self).spec_regs() == old(self).spec_regs(),
            final(self).spec_endpoints().qh_view() == old(self).spec_endpoints().qh_view(),
            !old(self).spec_endpoints().spec_is_allocated(ep_addr) ==> r == Err::<usize, UsbError>(UsbError::InvalidEndpoint)
                && final(self).spec_endpoints().buffer_view() == old(self).spec_endpoints().buffer_view(),
            forall|i: int| 0 <= i < crate::endpoint::NUMBER_OF_QUEUE_HEADS && i != qh_index_of(ep_addr.index as nat, ep_addr.direction)
                ==> #[trigger] final(self).spec_endpoints().buffer_view()[i] == old(self).spec_endpoints().buffer_view()[i],
            old(self).spec_endpoints().spec_is_allocated(ep_addr) ==> ({
                let old_bytes = old(self).spec_endpoints().spec_buffer(ep_addr);
                let n = if buf@.len() < old_bytes.len() { buf@.len() } else { old_bytes.len() };
                &&& r == Ok::<usize, UsbError>(n as usize)
                &&& final(self).spec_endpoints().spec_buffer(ep_addr) == buf@.take(n as int) + old_bytes.skip(n as int)
            }),
    {
        self.endpoints.write(&ep_addr, buf)
    }

    /// Copies what the endpoint's buffer holds into `buf` without waiting; returns how
    /// many bytes were copied, or `InvalidEndpoint` for an endpoint that is not allocated.
    pub fn read(&self, ep_addr: EndpointAddress, buf: &mut [u8]) -> (r: Result<usize, UsbError>)
        requires
            self.wf(),
        ensures
            !self.spec_endpoints().spec_is_allocated(ep_addr) ==> r == Err::<usize, UsbError>(UsbError::InvalidEndpoint)
                && final(buf)@ == old(buf)@,
            self.spec_endpoints().spec_is_allocated(ep_addr) ==> ({
                let bytes = self.spec_endpoints().spec_buffer(ep_addr);
                let n = if old(buf)@.len() < bytes.len() { old(buf)@.len() } else { bytes.len() };
                &&& r == Ok::<usize, UsbError>(n as usize)
                &&& final(buf)@ == bytes.take(n as int) + old(buf)@.skip(n as int)
            }),
    {
        self.endpoints.read(&ep_addr, buf)
    }
}

/// Two endpoints with indices below 8 share a mask bit only if they are the same.
proof fn lemma_mask_offset_injective(a: EndpointAddress, b: EndpointAddress)
    requires
        a.index < 8,
        b.index < 8,
    ensures
        mask_offset_of(a.index as nat, a.direction) < 16,
        (mask_offset_of(a.index as nat, a.direction) == mask_offset_of(b.index as nat, b.direction)) == (a == b),
{
}

/// On a fresh table, no endpoint is allocated.
pub proof fn lemma_fresh_has_nothing(addr: EndpointAddress)
    ensures
        !allocated_in(fresh_state().mask, addr),
{
    lemma_mask_empty(mask_offset_of(addr.index as nat, addr.direction));
}

/// After any allocation request, an endpoint is allocated exactly when it was before,
/// or when the request returned its address.
pub proof fn lemma_allocation_tracks(
    s: TableState,
    dir: UsbDirection,
    addr: Option<EndpointAddress>,
    t: EndpointType,
    max_packet_size: u16,
    other: EndpointAddress,
)
    ensures
        ({
            let (r, s2) = alloc_ep_outcome(s, dir, addr, t, max_packet_size);
            allocated_in(s2.mask, other) == (allocated_in(s.mask, other) || r == Ok::<EndpointAddress, UsbError>(other))
        }),
{
    let (r, s2) = alloc_ep_outcome(s, dir, addr, t, max_packet_size);
    if r is Ok {
        let a = r.unwrap();
        assert(a.index < 8);
        let off = mask_offset_of(a.index as nat, a.direction);
        assert(s2.mask == s.mask | (1u16 << (off as u16)));
        if other.index < 8 {
            lemma_mask_offset_injective(a, other);
            lemma_mask_set(s.mask, off as u16, mask_offset_of(other.index as nat, other.direction) as u16);
        }
    }
}

/// Requesting the same explicit address twice: once the first request succeeds, the
/// second is refused as an invalid endpoint. On a fresh table the first succeeds when the
/// index is 1 to 7 (or 0 for a control endpoint) and the buffer fits the direction's pool.
pub proof fn lemma_explicit_address_twice(
    s: TableState,
    a: EndpointAddress,
    dir1: UsbDirection,
    t1: EndpointType,
    size1: u16,
    dir2: UsbDirection,
    t2: EndpointType,
    size2: u16,
)
    ensures
        ({
            let (r1, s1) = alloc_ep_outcome(s, dir1, Some(a), t1, size1);
            r1 is Ok ==> r1 == Ok::<EndpointAddress, UsbError>(a)
                && alloc_ep_outcome(s1, dir2, Some(a), t2, size2).0 == Err::<EndpointAddress, UsbError>(UsbError::InvalidEndpoint)
        }),
        s == fresh_state() && a.index < 8 && (a.index != 0 || t1 == EndpointType::Control)
            && size1 <= pool_free(s, a.direction) ==> alloc_ep_outcome(s, dir1, Some(a), t1, size1).0
            == Ok::<EndpointAddress, UsbError>(a),
{
    let (r1, s1) = alloc_ep_outcome(s, dir1, Some(a), t1, size1);
    lemma_allocation_tracks(s, dir1, Some(a), t1, size1, a);
    if s == fresh_state() {
        lemma_fresh_has_nothing(a);
    }
}

/// Index 0 takes only control endpoints: any other type is refused as an invalid
/// endpoint and changes nothing; a control endpoint there succeeds on a fresh table
/// when its buffer fits the direction's pool.
pub proof fn lemma_index_zero_control_only(
    s: TableState,
    dir: UsbDirection,
    a: EndpointAddress,
    t: EndpointType,
    max_packet_size: u16,
)
    requires
        a.index == 0,
    ensures
        t != EndpointType::Control ==> alloc_ep_outcome(s, dir, Some(a), t, max_packet_size)
            == (Err::<EndpointAddress, UsbError>(UsbError::InvalidEndpoint), s),
        t == EndpointType::Control && s == fresh_state() && max_packet_size <= pool_free(s, a.direction)
            ==> alloc_ep_outcome(s, dir, Some(a), t, max_packet_size).0 == Ok::<EndpointAddress, UsbError>(a),
{
    if s == fresh_state() {
        lemma_fresh_has_nothing(a);
    }
}

/// The table state after `n` requests without an address, in direction `dir`.
pub open spec fn auto_run(s: TableState, dir: UsbDirection, t: EndpointType, max_packet_size: u16, n: nat) -> TableState
    decreases n,
{
    if n == 0 {
        s
    } else {
        alloc_ep_outcome(auto_run(s, dir, t, max_packet_size, (n - 1) as nat), dir, None, t, max_packet_size).1
    }
}

/// The mask with indices 1 to `n` allocated in direction `dir`, and nothing else.
spec fn auto_mask(n: nat, dir: UsbDirection) -> u16 {
    let low = ((((1u16 << (n as u16)) - 1u16) as u16) << 1u16) as u16;
    match dir {
        UsbDirection::In => low,
        UsbDirection::Out => (low << 8u16) as u16,
    }
}

proof fn lemma_auto_mask_bits(n: u16, j: u16)
    by (bit_vector)
    requires
        n < 8,
        j < 8,
    ensures
        ((((((1u16 << n) - 1u16) as u16) << 1u16) as u16) & (1u16 << j) != 0) == (1 <= j && j <= n),
        (((((((1u16 << n) - 1u16) as u16) << 1u16) as u16) << 8u16) as u16 & (1u16 << (j + 8u16)) != 0) == (1 <= j && j <= n),
{
}

proof fn lemma_auto_mask_grow(n: u16)
    by (bit_vector)
    requires
        n < 7,
    ensures
        (((((1u16 << n) - 1u16) as u16) << 1u16) as u16) | (1u16 << (n + 1u16))
            == (((((1u16 << (n + 1u16)) - 1u16) as u16) << 1u16) as u16),
        ((((((1u16 << n) - 1u16) as u16) << 1u16) as u16) << 8u16) as u16 | (1u16 << (n + 1u16 + 8u16))
            == ((((((1u16 << (n + 1u16)) - 1u16) as u16) << 1u16) as u16) << 8u16) as u16,
{
}

/// In the mask of `auto_mask(n, dir)`, the endpoint of index `j` in direction `dir` is
/// allocated exactly when `1 <= j <= n`.
proof fn lemma_auto_mask_has(n: nat, dir: UsbDirection, j: nat)
    requires
        n < 8,
        j < 8,
    ensures
        mask_has(auto_mask(n, dir), mask_offset_of(j, dir)) == (1 <= j && j <= n),
{
    lemma_auto_mask_bits(n as u16, j as u16);
}

/// The scan for a free index finds `n + 1` when indices up to `n` are taken.
proof fn lemma_first_free(n: nat, dir: UsbDirection, i: nat)
    requires
        n < 8,
        1 <= i <= n + 1,
    ensures
        first_free_from(auto_mask(n, dir), dir, i) == (if n + 1 < 8 { Some(n + 1) } else { None::<nat> }),
    decreases 8 - i,
{
    if i < 8 {
        lemma_auto_mask_has(n, dir, i);
        if i <= n {
            lemma_first_free(n, dir, i + 1);
        }
    }
}

/// The state after `n` requests without an address: indices 1 to `n` taken, and the
/// pool still able to hold the next buffer.
proof fn lemma_auto_run(dir: UsbDirection, t: EndpointType, max_packet_size: u16, n: nat)
    requires
        n <= 7,
        max_packet_size == 0 || (dir == UsbDirection::Out && max_packet_size <= 512),
    ensures
        ({
            let s = auto_run(fresh_state(), dir, t, max_packet_size, n);
            &&& s.mask == auto_mask(n, dir)
            &&& max_packet_size == 0 ==> pool_free(s, dir) == pool_free(fresh_state(), dir)
            &&& max_packet_size > 0 ==> pool_free(s, dir) % 512 == 0 && pool_free(s, dir) + 512 * n >= 4096
        }),
    decreases n,
{
    if n == 0 {
        assert(auto_mask(0, dir) == 0) by {
            assert(((((1u16 << 0u16) - 1u16) as u16) << 1u16) as u16 == 0u16) by (bit_vector);
            assert((0u16 << 8u16) as u16 == 0u16) by (bit_vector);
        }
    } else {
        let m = (n - 1) as nat;
        lemma_auto_run(dir, t, max_packet_size, m);
        let s = auto_run(fresh_state(), dir, t, max_packet_size, m);
        lemma_first_free(m, dir, 1);
        lemma_auto_mask_has(m, dir, n);
        assert(first_free_from(s.mask, dir, 1) == Some(n));
        lemma_auto_mask_grow(m as u16);
        let free = pool_free(s, dir);
        if max_packet_size > 0 {
            let x = (free - max_packet_size) as int;
            assert(x - x % 512 >= free - 512 && (x - x % 512) % 512 == 0) by (nonlinear_arith)
                requires
                    free % 512 == 0,
                    0 < max_packet_size <= 512,
                    free >= 1024,
                    x == free - max_packet_size,
            ;
        } else {
            assert(free % 2048 == 0 || free % 512 == 0);
        }
    }
}

/// Requests without an address in one direction get indices 1 to 7 in ascending order;
/// the eighth is refused as an endpoint overflow. This needs the pool to hold seven
/// buffers, which holds for OUT endpoints of up to 512 bytes and for empty buffers.
pub proof fn lemma_auto_allocation_order(dir: UsbDirection, t: EndpointType, max_packet_size: u16)
    requires
        max_packet_size == 0 || (dir == UsbDirection::Out && max_packet_size <= 512),
    ensures
        forall|k: nat| 1 <= k <= 7 ==> alloc_ep_outcome(
            #[trigger] auto_run(fresh_state(), dir, t, max_packet_size, (k - 1) as nat), dir, None, t, max_packet_size).0
            == Ok::<EndpointAddress, UsbError>(EndpointAddress { index: k as u8, direction: dir }),
        alloc_ep_outcome(auto_run(fresh_state(), dir, t, max_packet_size, 7), dir, None, t, max_packet_size).0
            == Err::<EndpointAddress, UsbError>(UsbError::EndpointOverflow),
{
    assert forall|k: nat| 1 <= k <= 7 implies alloc_ep_outcome(
        #[trigger] auto_run(fresh_state(), dir, t, max_packet_size, (k - 1) as nat), dir, None, t, max_packet_size).0
        == Ok::<EndpointAddress, UsbError>(EndpointAddress { index: k as u8, direction: dir }) by {
        lemma_auto_run(dir, t, max_packet_size, (k - 1) as nat);
        lemma_first_free((k - 1) as nat, dir, 1);
        lemma_auto_mask_has((k - 1) as nat, dir, k);
    }
    lemma_auto_run(dir, t, max_packet_size, 7);
    lemma_first_free(7, dir, 1);
}

} // verus!
