//! Buffers and memory for the USB stack
use vstd::prelude::*;
use crate::td::TD;

verus! {

/// Size of a transfer buffer slot.
pub const TX_SIZE: usize = 2048;
/// Size of a receive buffer slot.
pub const RX_SIZE: usize = 512;
/// Number of transfer buffer slots.
pub const TX_NUM: usize = 4;
/// Number of receive buffer slots.
pub const RX_NUM: usize = 8;
/// Bytes in the transfer pool.
pub const TX_POOL: usize = 8192;
/// Bytes in the receive pool.
pub const RX_POOL: usize = 4096;

/// Builds a pool of `n` transfer descriptors at their reset values.
fn transfer_descriptors(n: usize) -> (r: Vec<TD>)
    ensures
        r.len() == n,
        forall|i: int| 0 <= i < n ==> (#[trigger] r[i]).token@ == 0 && r[i].next_link_pointer@ == 0,
{
    let mut tds: Vec<TD> = Vec::new();
    let mut i: usize = 0;
    while i < n
        invariant
            i <= n,
            tds.len() == i,
            forall|k: int| 0 <= k < i ==> (#[trigger] tds[k]).token@ == 0 && tds[k].next_link_pointer@ == 0,
        decreases n - i,
    {
        tds.push(TD::new());
        i = i + 1;
    }
    tds
}

/// The transfer descriptors for transmit traffic, one per transfer slot, at reset.
pub fn tx_transfer_descriptors() -> (r: Vec<TD>)
    ensures
        r.len() == TX_NUM,
        forall|i: int| 0 <= i < TX_NUM ==> (#[trigger] r[i]).token@ == 0 && r[i].next_link_pointer@ == 0,
{
    transfer_descriptors(TX_NUM)
}

/// The transfer descriptors for receive traffic, one per receive slot, at reset.
pub fn rx_transfer_descriptors() -> (r: Vec<TD>)
    ensures
        r.len() == RX_NUM,
        forall|i: int| 0 <= i < RX_NUM ==> (#[trigger] r[i]).token@ == 0 && r[i].next_link_pointer@ == 0,
{
    transfer_descriptors(RX_NUM)
}

/// A buffer usable for endpoint reads and writes: its place in a pool and its bytes.
pub struct Buffer {
    start: usize,
    data: Vec<u8>,
}

impl Buffer {
    /// The bytes of the buffer.
    pub closed spec fn view(&self) -> Seq<u8> {
        self.data@
    }

    /// Offset of the buffer in its pool.
    pub closed spec fn spec_start(&self) -> nat {
        self.start as nat
    }

    pub fn start(&self) -> (r: usize)
        ensures
            r == self.spec_start(),
    {
        self.start
    }

    pub fn capacity(&self) -> (r: usize)
        ensures
            r == self@.len(),
    {
        self.data.len()
    }

    /// Copies the front of the buffer into `buffer`; returns how many bytes were copied.
    pub fn read(&self, buffer: &mut [u8]) -> (r: usize)
        ensures
            r == if old(buffer)@.len() < self@.len() { old(buffer)@.len() } else { self@.len() },
            final(buffer)@ == self@.take(r as int) + old(buffer)@.skip(r as int),
    {
        let n: usize = if buffer.len() < self.data.len() { buffer.len() } else { self.data.len() };
        let mut i: usize = 0;
        while i < n
            invariant
                n <= buffer.len(),
                n <= self.data@.len(),
                i <= n,
                buffer@.len() == old(buffer)@.len(),
                forall|k: int| 0 <= k < i ==> buffer@[k] == self.data@[k],
                forall|k: int| i <= k < buffer@.len() ==> buffer@[k] == old(buffer)@[k],
            decreases n - i,
        {
            buffer[i] = self.data[i];
            i = i + 1;
        }
        assert(buffer@ =~= self.data@.take(n as int) + old(buffer)@.skip(n as int));
        n
    }

    /// Copies `buffer` into the front of the buffer; returns how many bytes were copied.
    pub fn write(&mut self, buffer: &[u8]) -> (r: usize)
        ensures
            r == if buffer@.len() < old(self)@.len() { buffer@.len() } else { old(self)@.len() },
            final(self)@ == buffer@.take(r as int) + old(self)@.skip(r as int),
            final(self).spec_start() == old(self).spec_start(),
    {
        let n: usize = if buffer.len() < self.data.len() { buffer.len() } else { self.data.len() };
        let mut i: usize = 0;
        while i < n
            invariant
                n <= buffer@.len(),
                n <= self.data@.len(),
                i <= n,
                self.data@.len() == old(self).data@.len(),
                self.start == old(self).start,
                forall|k: int| 0 <= k < i ==> self.data@[k] == buffer@[k],
                forall|k: int| i <= k < self.data@.len() ==> self.data@[k] == old(self).data@[k],
            decreases n - i,
        {
            self.data.set(i, buffer[i]);
            i = i + 1;
        }
        assert(self.data@ =~= buffer@.take(n as int) + old(self).data@.skip(n as int));
        n
    }
}

/// The total size of a list of handed-out ranges.
pub open spec fn total_size(ranges: Seq<(nat, nat)>) -> nat
    decreases ranges.len(),
{
    if ranges.len() == 0 {
        0
    } else {
        total_size(ranges.drop_last()) + ranges.last().1
    }
}

/// Whether two ranges `(start, size)` share no byte.
pub open spec fn disjoint(a: (nat, nat), b: (nat, nat)) -> bool {
    a.0 + a.1 <= b.0 || b.0 + b.1 <= a.0
}

/// Whether `n` is a power of two.
pub open spec fn is_power_of_two(n: nat) -> bool
    decreases n,
{
    if n == 0 {
        false
    } else if n == 1 {
        true
    } else {
        n % 2 == 0 && is_power_of_two(n / 2)
    }
}

/// A buffer allocator: carves buffers from the top of a pool downwards, never reclaiming.
pub struct Allocator {
    /// Current cursor into the pool; everything above it is handed out.
    offset: usize,
    /// Size of the pool.
    len: usize,
    /// Alignment of a buffer allocated from this allocator.
    align: usize,
    /// The ranges `(start, size)` handed out so far, oldest first.
    ranges: Ghost<Seq<(nat, nat)>>,
}

impl Allocator {
    pub closed spec fn spec_offset(&self) -> nat {
        self.offset as nat
    }

    pub closed spec fn spec_len(&self) -> nat {
        self.len as nat
    }

    pub closed spec fn spec_align(&self) -> nat {
        self.align as nat
    }

    /// The ranges `(start, size)` handed out so far, oldest first.
    pub closed spec fn allocated(&self) -> Seq<(nat, nat)> {
        self.ranges@
    }

    /// Every range handed out lies in the pool above the cursor, is aligned, and
    /// shares no byte with any other; the cursor has moved by at least their total size.
    pub open spec fn wf(&self) -> bool {
        &&& self.spec_align() > 0
        &&& is_power_of_two(self.spec_align())
        &&& self.spec_offset() <= self.spec_len()
        &&& self.spec_offset() % self.spec_align() == 0
        &&& self.spec_offset() + total_size(self.allocated()) <= self.spec_len()
        &&& forall|i: int| 0 <= i < self.allocated().len() ==> {
            &&& self.spec_offset() <= (#[trigger] self.allocated()[i]).0
            &&& self.allocated()[i].0 + self.allocated()[i].1 <= self.spec_len()
            &&& self.allocated()[i].0 % self.spec_align() == 0
        }
        &&& forall|i: int, j: int| 0 <= i < j < self.allocated().len() ==>
            disjoint(#[trigger] self.allocated()[i], #[trigger] self.allocated()[j])
    }

    fn new(len: usize, align: usize) -> (r: Allocator)
        requires
            is_power_of_two(align as nat),
            len % align == 0,
        ensures
            r.wf(),
            r.spec_offset() == len,
            r.spec_len() == len,
            r.spec_align() == align,
            r.allocated() == Seq::<(nat, nat)>::empty(),
    {
        Allocator { offset: len, len, align, ranges: Ghost(Seq::empty()) }
    }

    /// The allocator of the transfer pool: four slots of 2048 bytes.
    pub fn tx() -> (r: Allocator)
        ensures
            r.wf(),
            r.spec_offset() == TX_POOL,
            r.spec_len() == TX_POOL,
            r.spec_align() == TX_SIZE,
            r.allocated() == Seq::<(nat, nat)>::empty(),
    {
        proof {
            reveal_with_fuel(is_power_of_two, 13);
        }
        Allocator::new(TX_SIZE * TX_NUM, TX_SIZE)
    }

    /// The allocator of the receive pool: eight slots of 512 bytes.
    pub fn rx() -> (r: Allocator)
        ensures
            r.wf(),
            r.spec_offset() == RX_POOL,
            r.spec_len() == RX_POOL,
            r.spec_align() == RX_SIZE,
            r.allocated() == Seq::<(nat, nat)>::empty(),
    {
        proof {
            reveal_with_fuel(is_power_of_two, 11);
        }
        Allocator::new(RX_SIZE * RX_NUM, RX_SIZE)
    }

    /// Bytes still free below the cursor.
    pub fn remaining(&self) -> (r: usize)
        ensures
            r == self.spec_offset(),
    {
        self.offset
    }

    /// Allocates a buffer of `size` bytes: moves the cursor down by `size`, then down to
    /// the pool's alignment. Returns `None` when the cursor would pass the pool's start.
    pub fn alloc_buffer(&mut self, size: usize) -> (r: Option<Buffer>)
        requires
            old(self).wf(),
        ensures
            final(self).wf(),
            final(self).spec_len() == old(self).spec_len(),
            final(self).spec_align() == old(self).spec_align(),
            r.is_some() <==> size <= old(self).spec_offset(),
            r.is_none() ==> *final(self) == *old(self),
            r.is_some() ==> {
                let start = (old(self).spec_offset() - size) as nat;
                let aligned = (start - start % old(self).spec_align()) as nat;
                &&& final(self).spec_offset() == aligned
                &&& r.unwrap().spec_start() == aligned
                &&& r.unwrap()@.len() == size
                &&& final(self).allocated() == old(self).allocated().push((aligned, size as nat))
            },
    {
        if size > self.offset {
            return None;
        }
        let start = self.offset - size;
        let rem = start % self.align;
        proof {
            let a = self.align as int;
            let s = start as int;
            assert(0 <= s % a <= s && (s - s % a) % a == 0) by (nonlinear_arith)
                requires a > 0, s >= 0;
        }
        let aligned = start - rem;
        proof {
            let old_ranges = self.ranges@;
            let item = (aligned as nat, size as nat);
            let new_ranges = old_ranges.push(item);
            assert(new_ranges.drop_last() =~= old_ranges);
            assert forall|i: int, j: int| 0 <= i < j < new_ranges.len() implies
                disjoint(#[trigger] new_ranges[i], #[trigger] new_ranges[j]) by {
                if j == old_ranges.len() {
                    assert(old_ranges[i].0 >= self.offset);
                }
            }
            self.ranges = Ghost(new_ranges);
        }
        self.offset = aligned;
        let mut data: Vec<u8> = Vec::new();
        let mut i: usize = 0;
        while i < size
            invariant
                i <= size,
                data@.len() == i,
            decreases size - i,
        {
            data.push(0u8);
            i = i + 1;
        }
        Some(Buffer { start: aligned, data })
    }
}

/// Once the sizes handed out plus a new request exceed the pool, the request fails, while
/// all that was handed out lies in the pool, aligned, with no two ranges overlapping.
pub proof fn lemma_pool_overflow(a: Allocator, size: nat)
    requires
        a.wf(),
        total_size(a.allocated()) + size > a.spec_len(),
    ensures
        size > a.spec_offset(),
        forall|i: int| 0 <= i < a.allocated().len() ==> {
            &&& (#[trigger] a.allocated()[i]).0 + a.allocated()[i].1 <= a.spec_len()
            &&& a.allocated()[i].0 % a.spec_align() == 0
        },
        forall|i: int, j: int| 0 <= i < a.allocated().len() && 0 <= j < a.allocated().len() && i != j
            ==> disjoint(#[trigger] a.allocated()[i], #[trigger] a.allocated()[j]),
{
    assert forall|i: int, j: int| 0 <= i < a.allocated().len() && 0 <= j < a.allocated().len() && i != j
        implies disjoint(#[trigger] a.allocated()[i], #[trigger] a.allocated()[j]) by {
        if i > j {
            assert(disjoint(a.allocated()[j], a.allocated()[i]));
        }
    }
}

} // verus!
