//! A single direction's staging buffer for one endpoint: a bounded read
//! (host-to-device) buffer, a bounded write (device-to-host) buffer, and
//! the per-endpoint flags a controller keeps (stall, setup pending,
//! completion latch, assigned kind and maximum packet size).

use vstd::prelude::*;

verus! {

/// Capacity of each staging buffer, in bytes. A single control or
/// interrupt transaction never exceeds this in the simulator's intended
/// use, so the buffers are flat rather than rings.
pub const MAX_BUFFER: usize = 1024;

/// The transfer kind an endpoint was allocated for.
#[derive(Debug, PartialEq, Eq, Structural, Clone, Copy)]
pub enum EndpointKind {
    Control,
    Isochronous,
    Bulk,
    Interrupt,
}

/// One direction of one simulated endpoint.
///
/// `read` holds bytes staged by the host and not yet consumed by the
/// device; `write` holds bytes written by the device and not yet drained
/// by the host.
#[derive(Debug)]
pub struct EndpointBuffer {
    /// Kind assigned at allocation; `None` until the slot is allocated.
    pub kind: Option<EndpointKind>,
    /// Whether the endpoint currently rejects transactions.
    pub stall: bool,
    /// Bytes staged for the device to read, oldest first.
    pub read: Vec<u8>,
    /// Set exactly while `read` is non-empty.
    pub read_ready: bool,
    /// Whether the staged bytes are a SETUP packet.
    pub setup: bool,
    /// Bytes written by the device, awaiting the host.
    pub write: Vec<u8>,
    /// Completion latch: set when the host drains `write`, cleared by a
    /// fresh device write and consumed by `poll`.
    pub write_done: bool,
    /// Maximum packet size assigned at allocation; 0 until then.
    pub max_size: usize,
}

/// The allocation data is unchanged.
pub open spec fn same_kind_size(a: EndpointBuffer, b: EndpointBuffer) -> bool {
    &&& a.kind == b.kind
    &&& a.max_size == b.max_size
}

/// The fields untouched by buffer traffic: allocation data and stall.
pub open spec fn same_alloc(a: EndpointBuffer, b: EndpointBuffer) -> bool {
    &&& same_kind_size(a, b)
    &&& a.stall == b.stall
}

/// The host-to-device side is unchanged.
pub open spec fn same_read_side(a: EndpointBuffer, b: EndpointBuffer) -> bool {
    &&& a.read@ == b.read@
    &&& a.read_ready == b.read_ready
    &&& a.setup == b.setup
}

/// The device-to-host side is unchanged.
pub open spec fn same_write_side(a: EndpointBuffer, b: EndpointBuffer) -> bool {
    &&& a.write@ == b.write@
    &&& a.write_done == b.write_done
}

/// Everything but the stall flag is unchanged.
pub open spec fn same_but_stall(a: EndpointBuffer, b: EndpointBuffer) -> bool {
    &&& same_kind_size(a, b)
    &&& same_read_side(a, b)
    &&& same_write_side(a, b)
}

impl EndpointBuffer {
    /// Both buffers fit the capacity and `read_ready` tracks whether
    /// unread bytes remain.
    pub open spec fn wf(self) -> bool {
        &&& self.read@.len() <= MAX_BUFFER
        &&& self.write@.len() <= MAX_BUFFER
        &&& self.read_ready == (self.read@.len() > 0)
    }

    /// A fresh, unallocated endpoint with empty buffers.
    pub fn new() -> (e: Self)
        ensures
            e.kind is None,
            !e.stall,
            e.read@ == Seq::<u8>::empty(),
            !e.read_ready,
            !e.setup,
            e.write@ == Seq::<u8>::empty(),
            !e.write_done,
            e.max_size == 0,
            e.wf(),
    {
        EndpointBuffer {
            kind: None,
            stall: false,
            read: Vec::new(),
            read_ready: false,
            setup: false,
            write: Vec::new(),
            write_done: false,
            max_size: 0,
        }
    }

    /// Overwrite the read buffer wholesale with `data`, marking it as a
    /// SETUP packet when `setup` holds. Empty input is a no-op that
    /// leaves all existing state in place.
    pub fn set_read(&mut self, data: &[u8], setup: bool) -> (n: usize)
        requires
            old(self).wf(),
            data@.len() <= MAX_BUFFER,
        ensures
            final(self).wf(),
            n == data@.len(),
            same_alloc(*old(self), *final(self)),
            same_write_side(*old(self), *final(self)),
            data@.len() > 0 ==> final(self).read@ == data@ && final(self).setup == setup
                && final(self).read_ready,
            data@.len() == 0 ==> same_read_side(*old(self), *final(self)),
    {
        let n = data.len();
        if n > 0 {
            self.read = vstd::slice::slice_to_vec(data);
            self.setup = setup;
            self.read_ready = true;
        }
        n
    }

    /// Append `data` after the existing unread bytes. The caller must
    /// have checked that the result fits the capacity.
    pub fn append_read(&mut self, data: &[u8]) -> (n: usize)
        requires
            old(self).wf(),
            old(self).read@.len() + data@.len() <= MAX_BUFFER,
        ensures
            final(self).wf(),
            n == data@.len(),
            same_alloc(*old(self), *final(self)),
            same_write_side(*old(self), *final(self)),
            final(self).read@ == old(self).read@ + data@,
            final(self).setup == old(self).setup,
    {
        let n = data.len();
        if n > 0 {
            self.read.extend_from_slice(data);
            self.read_ready = true;
        }
        proof {
            if n == 0 {
                assert(final(self).read@ =~= old(self).read@ + data@);
            }
        }
        n
    }

    /// Drain the whole write buffer: return every byte the device has
    /// written and set the completion latch.
    pub fn get_write(&mut self) -> (r: Vec<u8>)
        requires
            old(self).wf(),
        ensures
            final(self).wf(),
            r@ == old(self).write@,
            same_alloc(*old(self), *final(self)),
            same_read_side(*old(self), *final(self)),
            final(self).write@ == Seq::<u8>::empty(),
            final(self).write_done,
    {
        let r = self.write.split_off(0);
        self.write_done = true;
        proof {
            assert(r@ =~= old(self).write@);
            assert(final(self).write@ =~= Seq::<u8>::empty());
        }
        r
    }

    /// Consume up to `limit` bytes from the front of the read buffer,
    /// bounded also by the endpoint's maximum packet size. The staged
    /// bytes keep FIFO order; the SETUP mark is cleared exactly when the
    /// buffer empties.
    pub fn read_packet(&mut self, limit: usize) -> (r: Vec<u8>)
        requires
            old(self).wf(),
        ensures
            final(self).wf(),
            same_alloc(*old(self), *final(self)),
            same_write_side(*old(self), *final(self)),
            r@.len() == vstd::math::min(limit as int, vstd::math::min(
                old(self).read@.len() as int, old(self).max_size as int)),
            r@ == old(self).read@.take(r@.len() as int),
            final(self).read@ == old(self).read@.skip(r@.len() as int),
            final(self).read@.len() == 0 ==> !final(self).setup,
            final(self).read@.len() > 0 ==> final(self).setup == old(self).setup,
    {
        let avail = if self.read.len() < self.max_size {
            self.read.len()
        } else {
            self.max_size
        };
        let n = if limit < avail {
            limit
        } else {
            avail
        };
        let mut r: Vec<u8> = Vec::new();
        let mut k: usize = 0;
        while k < n
            invariant
                k <= n,
                n <= self.read@.len(),
                *self == *old(self),
                r@ == self.read@.take(k as int),
            decreases n - k,
        {
            let b = self.read[k];
            r.push(b);
            k += 1;
            proof {
                assert(self.read@.take(k as int) =~= self.read@.take(k - 1).push(b));
            }
        }
        let tail = self.read.split_off(n);
        self.read = tail;
        if self.read.len() == 0 {
            self.setup = false;
        }
        self.read_ready = self.read.len() > 0;
        r
    }

    /// Append bytes written by the device behind the unsent ones,
    /// truncating silently at the buffer capacity, and clear the
    /// completion latch: a new write obsoletes a prior "done".
    pub fn write_packet(&mut self, buf: &[u8]) -> (n: usize)
        requires
            old(self).wf(),
        ensures
            final(self).wf(),
            n == vstd::math::min(buf@.len() as int, MAX_BUFFER - old(self).write@.len()),
            same_alloc(*old(self), *final(self)),
            same_read_side(*old(self), *final(self)),
            final(self).write@ == old(self).write@ + buf@.take(n as int),
            !final(self).write_done,
    {
        let mut k: usize = 0;
        while k < buf.len() && self.write.len() < MAX_BUFFER
            invariant
                k <= buf@.len(),
                self.write@.len() == old(self).write@.len() + k,
                self.write@ == old(self).write@ + buf@.take(k as int),
                same_alloc(*old(self), *self),
                same_read_side(*old(self), *self),
                self.write_done == old(self).write_done,
                old(self).wf(),
                self.write@.len() <= MAX_BUFFER,
                self.read@.len() <= MAX_BUFFER,
            decreases buf@.len() - k,
        {
            let b = *vstd::slice::slice_index_get(buf, k);
            self.write.push(b);
            k += 1;
            proof {
                assert(self.write@ =~= old(self).write@ + buf@.take(k as int));
            }
        }
        self.write_done = false;
        k
    }
}

} // verus!
