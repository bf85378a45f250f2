//! The bus state: one IN and one OUT endpoint buffer for each endpoint
//! number, with direction-aware lookup and the cross-endpoint queries
//! the adapter and the transaction driver need.

use vstd::prelude::*;

use crate::endpoint::{
    same_alloc, same_kind_size, same_read_side, same_write_side, EndpointBuffer, MAX_BUFFER,
};

verus! {

/// Number of endpoint numbers the simulated controller offers.
pub const NUM_ENDPOINTS: usize = 8;

/// Transfer direction, seen from the host: OUT carries host-to-device
/// traffic, IN device-to-host.
#[derive(Debug, PartialEq, Eq, Structural, Clone, Copy)]
pub enum UsbDirection {
    Out,
    In,
}

/// The opposite direction.
pub open spec fn opposite(d: UsbDirection) -> UsbDirection {
    match d {
        UsbDirection::Out => UsbDirection::In,
        UsbDirection::In => UsbDirection::Out,
    }
}

/// A numbered, directional endpoint slot.
#[derive(Debug, PartialEq, Eq, Structural, Clone, Copy)]
pub struct EndpointAddress {
    pub index: usize,
    pub direction: UsbDirection,
}

impl EndpointAddress {
    /// Build an address from an endpoint number and a direction.
    pub fn from_parts(index: usize, direction: UsbDirection) -> (r: Self)
        ensures
            r == (EndpointAddress { index, direction }),
    {
        EndpointAddress { index, direction }
    }

    /// The OUT address with the same endpoint number.
    pub open spec fn spec_out_side(self) -> EndpointAddress {
        EndpointAddress { index: self.index, direction: UsbDirection::Out }
    }

    /// The IN address with the same endpoint number.
    pub open spec fn spec_in_side(self) -> EndpointAddress {
        EndpointAddress { index: self.index, direction: UsbDirection::In }
    }

    /// The same endpoint number, other direction.
    pub open spec fn spec_opposite(self) -> EndpointAddress {
        EndpointAddress { index: self.index, direction: opposite(self.direction) }
    }
}

/// The OUT address of endpoint number `index`.
pub open spec fn out_addr(index: usize) -> EndpointAddress {
    EndpointAddress { index, direction: UsbDirection::Out }
}

/// The IN address of endpoint number `index`.
pub open spec fn in_addr(index: usize) -> EndpointAddress {
    EndpointAddress { index, direction: UsbDirection::In }
}

/// An endpoint whose both buffers are empty and whose slot was never
/// allocated.
pub open spec fn fresh_endpoint(e: EndpointBuffer) -> bool {
    &&& e.kind is None
    &&& !e.stall
    &&& e.read@.len() == 0
    &&& !e.read_ready
    &&& !e.setup
    &&& e.write@.len() == 0
    &&& !e.write_done
    &&& e.max_size == 0
}

/// The table of endpoint buffers: `ep_i[n]` is the IN side of endpoint
/// `n`, `ep_o[n]` the OUT side.
#[derive(Debug)]
pub struct BusState {
    pub ep_i: Vec<EndpointBuffer>,
    pub ep_o: Vec<EndpointBuffer>,
}

impl BusState {
    /// Both tables hold one well-formed buffer per endpoint number.
    pub open spec fn wf(self) -> bool {
        &&& self.ep_i@.len() == NUM_ENDPOINTS
        &&& self.ep_o@.len() == NUM_ENDPOINTS
        &&& forall|j: int| 0 <= j < NUM_ENDPOINTS ==> (#[trigger] self.ep_i@[j]).wf()
        &&& forall|j: int| 0 <= j < NUM_ENDPOINTS ==> (#[trigger] self.ep_o@[j]).wf()
    }

    /// The buffer table for one direction.
    pub open spec fn dir_seq(self, d: UsbDirection) -> Seq<EndpointBuffer> {
        match d {
            UsbDirection::In => self.ep_i@,
            UsbDirection::Out => self.ep_o@,
        }
    }

    /// The buffer a directional address selects.
    pub open spec fn ep_at(self, addr: EndpointAddress) -> EndpointBuffer {
        self.dir_seq(addr.direction)[addr.index as int]
    }

    /// `post` is `pre` with the buffer at `addr` replaced by `b`.
    pub open spec fn ep_updated(
        pre: Self,
        post: Self,
        addr: EndpointAddress,
        b: EndpointBuffer,
    ) -> bool {
        &&& post.dir_seq(addr.direction) == pre.dir_seq(addr.direction).update(
            addr.index as int,
            b,
        )
        &&& post.dir_seq(opposite(addr.direction)) == pre.dir_seq(opposite(addr.direction))
    }

    /// All endpoint numbers other than `idx` keep their buffers, in both
    /// directions.
    pub open spec fn others_unchanged(pre: Self, post: Self, idx: int) -> bool {
        &&& post.ep_i@.len() == pre.ep_i@.len()
        &&& post.ep_o@.len() == pre.ep_o@.len()
        &&& forall|j: int|
            0 <= j < pre.ep_i@.len() && j != idx ==> #[trigger] post.ep_i@[j] == pre.ep_i@[j]
        &&& forall|j: int|
            0 <= j < pre.ep_o@.len() && j != idx ==> #[trigger] post.ep_o@[j] == pre.ep_o@[j]
    }

    /// Replacing one buffer by a well-formed one keeps the bus
    /// well-formed.
    pub proof fn lemma_wf_after_update(
        pre: Self,
        post: Self,
        addr: EndpointAddress,
        b: EndpointBuffer,
    )
        requires
            pre.wf(),
            addr.index < NUM_ENDPOINTS,
            Self::ep_updated(pre, post, addr, b),
            b.wf(),
        ensures
            post.wf(),
            Self::others_unchanged(pre, post, addr.index as int),
            post.ep_at(addr) == b,
            post.ep_at(EndpointAddress { index: addr.index, direction: opposite(addr.direction) })
                == pre.ep_at(
                EndpointAddress { index: addr.index, direction: opposite(addr.direction) },
            ),
    {
        let idx = addr.index as int;
        if addr.direction is In {
            assert(post.ep_i@ == pre.ep_i@.update(idx, b));
            assert(post.ep_o@ == pre.ep_o@);
        } else {
            assert(post.ep_o@ == pre.ep_o@.update(idx, b));
            assert(post.ep_i@ == pre.ep_i@);
        }
        assert forall|j: int| 0 <= j < NUM_ENDPOINTS implies (#[trigger] post.ep_i@[j]).wf() by {
            if addr.direction is In && j != idx {
                assert(post.ep_i@[j] == pre.ep_i@[j]);
            }
        }
        assert forall|j: int| 0 <= j < NUM_ENDPOINTS implies (#[trigger] post.ep_o@[j]).wf() by {
            if addr.direction is Out && j != idx {
                assert(post.ep_o@[j] == pre.ep_o@[j]);
            }
        }
    }

    /// A fresh bus: every endpoint unallocated, every buffer empty.
    pub fn new() -> (r: Self)
        ensures
            r.wf(),
            forall|j: int| 0 <= j < NUM_ENDPOINTS ==> fresh_endpoint(#[trigger] r.ep_i@[j]),
            forall|j: int| 0 <= j < NUM_ENDPOINTS ==> fresh_endpoint(#[trigger] r.ep_o@[j]),
    {
        let mut ep_i: Vec<EndpointBuffer> = Vec::new();
        let mut ep_o: Vec<EndpointBuffer> = Vec::new();
        let mut k: usize = 0;
        while k < NUM_ENDPOINTS
            invariant
                k <= NUM_ENDPOINTS,
                ep_i@.len() == k,
                ep_o@.len() == k,
                forall|j: int| 0 <= j < k ==> fresh_endpoint(#[trigger] ep_i@[j]),
                forall|j: int| 0 <= j < k ==> fresh_endpoint(#[trigger] ep_o@[j]),
            decreases NUM_ENDPOINTS - k,
        {
            let ghost pre_i = ep_i@;
            let ghost pre_o = ep_o@;
            let e_i = EndpointBuffer::new();
            let e_o = EndpointBuffer::new();
            let ghost gi = e_i;
            let ghost go = e_o;
            ep_i.push(e_i);
            ep_o.push(e_o);
            k += 1;
            proof {
                assert(fresh_endpoint(gi));
                assert(fresh_endpoint(go));
                assert forall|j: int| 0 <= j < k implies fresh_endpoint(#[trigger] ep_i@[j]) by {
                    if j < k - 1 {
                        assert(ep_i@[j] == pre_i[j]);
                    } else {
                        assert(ep_i@[j] == gi);
                    }
                }
                assert forall|j: int| 0 <= j < k implies fresh_endpoint(#[trigger] ep_o@[j]) by {
                    if j < k - 1 {
                        assert(ep_o@[j] == pre_o[j]);
                    } else {
                        assert(ep_o@[j] == go);
                    }
                }
            }
        }
        BusState { ep_i, ep_o }
    }

    /// Shared access to the buffer at `addr`.
    pub fn ep_ref(&self, addr: EndpointAddress) -> (ep: &EndpointBuffer)
        requires
            self.wf(),
            addr.index < NUM_ENDPOINTS,
        ensures
            *ep == self.ep_at(addr),
    {
        match addr.direction {
            UsbDirection::In => &self.ep_i[addr.index],
            UsbDirection::Out => &self.ep_o[addr.index],
        }
    }

    /// Exclusive access to the buffer at `addr`; the rest of the bus is
    /// untouched however the borrow is used.
    pub fn ep_mut(&mut self, addr: EndpointAddress) -> (ep: &mut EndpointBuffer)
        requires
            old(self).wf(),
            addr.index < NUM_ENDPOINTS,
        ensures
            *ep == old(self).ep_at(addr),
            Self::ep_updated(*old(self), *final(self), addr, *final(ep)),
    {
        match addr.direction {
            UsbDirection::In => &mut self.ep_i[addr.index],
            UsbDirection::Out => &mut self.ep_o[addr.index],
        }
    }

    /// Stage `data` at `addr`, overwriting what was unread. A SETUP
    /// packet staged on an OUT endpoint clears stall on both directions
    /// of that endpoint number first: a fresh control transaction always
    /// starts from a non-stalled state.
    pub fn set_read(&mut self, ep_addr: EndpointAddress, data: &[u8], setup: bool) -> (n: usize)
        requires
            old(self).wf(),
            ep_addr.index < NUM_ENDPOINTS,
            data@.len() <= MAX_BUFFER,
        ensures
            final(self).wf(),
            n == data@.len(),
            Self::others_unchanged(*old(self), *final(self), ep_addr.index as int),
            same_kind_size(old(self).ep_at(ep_addr), final(self).ep_at(ep_addr)),
            same_write_side(old(self).ep_at(ep_addr), final(self).ep_at(ep_addr)),
            data@.len() > 0 ==> final(self).ep_at(ep_addr).read@ == data@ && final(self).ep_at(
                ep_addr,
            ).setup == setup && final(self).ep_at(ep_addr).read_ready,
            data@.len() == 0 ==> same_read_side(old(self).ep_at(ep_addr), final(self).ep_at(
                ep_addr,
            )),
            ({
                let cleared = setup && ep_addr.direction is Out;
                let oth_pre = old(self).ep_at(ep_addr.spec_in_side());
                let oth_post = final(self).ep_at(ep_addr.spec_in_side());
                &&& final(self).ep_at(ep_addr).stall == (!cleared && old(self).ep_at(
                    ep_addr,
                ).stall)
                &&& ep_addr.direction is Out ==> {
                    &&& same_kind_size(oth_pre, oth_post)
                    &&& same_read_side(oth_pre, oth_post)
                    &&& same_write_side(oth_pre, oth_post)
                    &&& oth_post.stall == (!cleared && oth_pre.stall)
                }
                &&& ep_addr.direction is In ==> final(self).ep_at(ep_addr.spec_out_side())
                    == old(self).ep_at(ep_addr.spec_out_side())
            }),
    {
        let ghost s0 = *old(self);
        let out_side = EndpointAddress { index: ep_addr.index, direction: UsbDirection::Out };
        let in_side = EndpointAddress { index: ep_addr.index, direction: UsbDirection::In };
        let clears = setup && ep_addr.direction == UsbDirection::Out;
        if clears {
            let ep_out = self.ep_mut(out_side);
            ep_out.stall = false;
            proof {
                Self::lemma_wf_after_update(
                    s0,
                    *self,
                    out_side,
                    EndpointBuffer { stall: false, ..s0.ep_at(out_side) },
                );
            }
            let ghost s1 = *self;
            let ep_in = self.ep_mut(in_side);
            ep_in.stall = false;
            proof {
                Self::lemma_wf_after_update(
                    s1,
                    *self,
                    in_side,
                    EndpointBuffer { stall: false, ..s1.ep_at(in_side) },
                );
            }
        }
        let ghost s2 = *self;
        let ep = self.ep_mut(ep_addr);
        let n = ep.set_read(data, setup);
        proof {
            Self::lemma_wf_after_update(s2, *self, ep_addr, self.ep_at(ep_addr));
        }
        n
    }

    /// Append `data` behind the unread bytes at `addr`. The caller must
    /// have checked the capacity, as a host honouring the packet-size
    /// contract always can.
    pub fn append_read(&mut self, ep_addr: EndpointAddress, data: &[u8]) -> (n: usize)
        requires
            old(self).wf(),
            ep_addr.index < NUM_ENDPOINTS,
            old(self).ep_at(ep_addr).read@.len() + data@.len() <= MAX_BUFFER,
        ensures
            final(self).wf(),
            n == data@.len(),
            Self::others_unchanged(*old(self), *final(self), ep_addr.index as int),
            final(self).ep_at(ep_addr.spec_opposite()) == old(self).ep_at(
                ep_addr.spec_opposite(),
            ),
            same_alloc(old(self).ep_at(ep_addr), final(self).ep_at(ep_addr)),
            same_write_side(old(self).ep_at(ep_addr), final(self).ep_at(ep_addr)),
            final(self).ep_at(ep_addr).read@ == old(self).ep_at(ep_addr).read@ + data@,
            final(self).ep_at(ep_addr).setup == old(self).ep_at(ep_addr).setup,
    {
        let ghost s0 = *old(self);
        let ep = self.ep_mut(ep_addr);
        let n = ep.append_read(data);
        proof {
            Self::lemma_wf_after_update(s0, *self, ep_addr, self.ep_at(ep_addr));
        }
        n
    }

    /// Drain everything the device has written at `addr`, setting the
    /// completion latch.
    pub fn get_write(&mut self, ep_addr: EndpointAddress) -> (r: Vec<u8>)
        requires
            old(self).wf(),
            ep_addr.index < NUM_ENDPOINTS,
        ensures
            final(self).wf(),
            r@ == old(self).ep_at(ep_addr).write@,
            Self::others_unchanged(*old(self), *final(self), ep_addr.index as int),
            final(self).ep_at(ep_addr.spec_opposite()) == old(self).ep_at(
                ep_addr.spec_opposite(),
            ),
            same_alloc(old(self).ep_at(ep_addr), final(self).ep_at(ep_addr)),
            same_read_side(old(self).ep_at(ep_addr), final(self).ep_at(ep_addr)),
            final(self).ep_at(ep_addr).write@.len() == 0,
            final(self).ep_at(ep_addr).write_done,
    {
        let ghost s0 = *old(self);
        let ep = self.ep_mut(ep_addr);
        let r = ep.get_write();
        proof {
            Self::lemma_wf_after_update(s0, *self, ep_addr, self.ep_at(ep_addr));
        }
        r
    }

    /// The maximum packet size the endpoint at `addr` was allocated
    /// with.
    pub fn ep_max_size(&self, ep_addr: EndpointAddress) -> (r: usize)
        requires
            self.wf(),
            ep_addr.index < NUM_ENDPOINTS,
        ensures
            r == self.ep_at(ep_addr).max_size,
    {
        self.ep_ref(ep_addr).max_size
    }

    /// Whether the buffer the address selects has been fully consumed:
    /// for an OUT endpoint, no staged bytes are left unread; for an IN
    /// endpoint, the completion latch is set.
    pub fn ep_is_empty(&self, ep_addr: EndpointAddress) -> (r: bool)
        requires
            self.wf(),
            ep_addr.index < NUM_ENDPOINTS,
        ensures
            r == (match ep_addr.direction {
                UsbDirection::In => self.ep_at(ep_addr).write_done,
                UsbDirection::Out => self.ep_at(ep_addr).read@.len() == 0,
            }),
    {
        let ep = self.ep_ref(ep_addr);
        match ep_addr.direction {
            UsbDirection::In => ep.write_done,
            UsbDirection::Out => ep.read.len() == 0,
        }
    }

    /// How many bytes wait in the buffer the address selects: unread
    /// staged bytes for OUT, undrained written bytes for IN.
    pub fn ep_data_len(&self, ep_addr: EndpointAddress) -> (r: usize)
        requires
            self.wf(),
            ep_addr.index < NUM_ENDPOINTS,
        ensures
            r == (match ep_addr.direction {
                UsbDirection::In => self.ep_at(ep_addr).write@.len(),
                UsbDirection::Out => self.ep_at(ep_addr).read@.len(),
            }),
    {
        let ep = self.ep_ref(ep_addr);
        match ep_addr.direction {
            UsbDirection::In => ep.write.len(),
            UsbDirection::Out => ep.read.len(),
        }
    }

    /// Either direction of endpoint number `index` is stalled.
    pub open spec fn spec_stalled(self, index: int) -> bool {
        self.ep_i@[index].stall || self.ep_o@[index].stall
    }

    /// Whether either direction of endpoint number `index` is stalled.
    pub fn stalled(&self, index: usize) -> (r: bool)
        requires
            self.wf(),
            index < NUM_ENDPOINTS,
        ensures
            r == self.spec_stalled(index as int),
    {
        let addr_in = EndpointAddress { index, direction: UsbDirection::In };
        let addr_out = EndpointAddress { index, direction: UsbDirection::Out };
        if self.ep_ref(addr_in).stall {
            return true;
        }
        if self.ep_ref(addr_out).stall {
            return true;
        }
        false
    }
}

} // verus!
