//! The bus adapter: the controller-facing surface a protocol handler
//! drives. It owns the bus state and adds endpoint allocation policy,
//! the device-address latch, buffered read/write with packet-size
//! enforcement, and the interrupt-style `poll` aggregation.

use vstd::prelude::*;

use crate::bus::{BusState, EndpointAddress, UsbDirection, NUM_ENDPOINTS};
use crate::endpoint::{
    same_alloc, same_but_stall, same_read_side, same_write_side, EndpointBuffer, EndpointKind,
    MAX_BUFFER,
};

verus! {

/// The failures the controller surface reports.
#[derive(Debug, PartialEq, Eq, Structural, Clone, Copy)]
pub enum BusError {
    /// Nothing to read right now; try again after the next poll.
    WouldBlock,
    /// A write longer than the endpoint's maximum packet size.
    BufferOverflow,
    /// A requested endpoint address that cannot be allocated.
    InvalidEndpoint,
    /// No free endpoint slot is left.
    EndpointOverflow,
    /// A bus-level operation the simulator declares out of scope.
    Unsupported,
}

/// What one poll of the controller reports: nothing, or the three
/// per-endpoint event masks of an interrupt-status register. Bit `n` of
/// a mask stands for endpoint number `n`.
#[derive(Debug, PartialEq, Eq, Structural, Clone, Copy)]
pub enum PollResult {
    NoEvent,
    Data { ep_in_complete: u16, ep_out: u16, ep_setup: u16 },
}

/// Bit `j` of `m`.
pub open spec fn nth_bit(m: u16, j: u16) -> bool {
    (m >> j) & 1 == 1
}

/// Endpoint number `j` has something a poll must report: a consumed
/// write latch, pending unread bytes on either side, or a pending SETUP
/// packet.
pub open spec fn ep_event(b: BusState, j: int) -> bool {
    ||| b.ep_i@[j].write_done
    ||| b.ep_o@[j].read_ready
    ||| b.ep_i@[j].read_ready
    ||| b.ep_o@[j].setup
}

/// Some endpoint has something a poll must report.
pub open spec fn poll_pending(b: BusState) -> bool {
    exists|j: int| 0 <= j < NUM_ENDPOINTS && #[trigger] ep_event(b, j)
}

/// The IN-side buffer kept everything but its completion latch, which
/// is now clear: the edge was consumed.
pub open spec fn poll_cleared(pre: EndpointBuffer, post: EndpointBuffer) -> bool {
    &&& same_alloc(pre, post)
    &&& same_read_side(pre, post)
    &&& post.write@ == pre.write@
    &&& !post.write_done
}

/// Setting bit `i` of a mask below 0x100 keeps it below 0x100, sets
/// exactly that bit and leaves the others alone.
proof fn lemma_set_bit(m: u16, i: u16)
    by (bit_vector)
    requires
        i < 8,
        m < 0x100,
    ensures
        m | (1u16 << i) < 0x100,
        m | (1u16 << i) != 0,
        forall|j: u16|
            j < 16 ==> #[trigger] nth_bit(m | (1u16 << i), j) == (nth_bit(m, j) || j == i),
{
}

/// A zero mask has no bit set.
proof fn lemma_zero_bits()
    by (bit_vector)
    ensures
        forall|j: u16| j < 16 ==> !#[trigger] nth_bit(0u16, j),
{
}

/// An endpoint slot accepts an allocation of `kind`: it is unset or
/// already of that kind.
pub open spec fn ep_compatible(ep: EndpointBuffer, kind: EndpointKind) -> bool {
    ep.kind is None || ep.kind == Some(kind)
}

/// The slot at `idx`/`dir` was (re-)allocated for `kind` with packet
/// size `mps`, and nothing else changed.
pub open spec fn allocated_post(
    pre: BusState,
    post: BusState,
    idx: int,
    dir: UsbDirection,
    kind: EndpointKind,
    mps: u16,
) -> bool {
    let addr = EndpointAddress { index: idx as usize, direction: dir };
    &&& BusState::others_unchanged(pre, post, idx)
    &&& post.ep_at(addr.spec_opposite()) == pre.ep_at(addr.spec_opposite())
    &&& post.ep_at(addr).kind == Some(kind)
    &&& !post.ep_at(addr).stall
    &&& post.ep_at(addr).max_size == mps as usize
    &&& same_read_side(pre.ep_at(addr), post.ep_at(addr))
    &&& same_write_side(pre.ep_at(addr), post.ep_at(addr))
}

/// The first endpoint number at or after `from` whose slot in `s`
/// accepts `kind`, or the table length when none does.
pub open spec fn scan_free(s: Seq<EndpointBuffer>, kind: EndpointKind, from: int) -> int
    decreases s.len() - from,
{
    if from < 0 || from >= s.len() {
        s.len() as int
    } else if ep_compatible(s[from], kind) {
        from
    } else {
        scan_free(s, kind, from + 1)
    }
}

/// `scan_free` lands on the first compatible slot: everything before it
/// (from `from` on) is incompatible, and the slot itself, when inside
/// the table, is compatible.
pub proof fn lemma_scan_free(s: Seq<EndpointBuffer>, kind: EndpointKind, from: int)
    requires
        0 <= from <= s.len(),
    ensures
        from <= scan_free(s, kind, from) <= s.len(),
        forall|j: int|
            from <= j < scan_free(s, kind, from) ==> !ep_compatible(#[trigger] s[j], kind),
        scan_free(s, kind, from) < s.len() ==> ep_compatible(s[scan_free(s, kind, from)], kind),
    decreases s.len() - from,
{
    if from < s.len() && !ep_compatible(s[from], kind) {
        lemma_scan_free(s, kind, from + 1);
    }
}

/// The simulated controller: the bus state plus the host-assigned
/// device address.
#[derive(Debug)]
pub struct EmulatedUsbBus {
    /// Address latched by `set_device_address`; 0 until the host
    /// assigns one.
    pub usb_address: u8,
    /// The endpoint buffer table.
    pub bus: BusState,
}

impl EmulatedUsbBus {
    /// The bus state is well-formed.
    pub open spec fn wf(self) -> bool {
        self.bus.wf()
    }

    /// A fresh controller: address 0, every endpoint unallocated.
    pub fn new() -> (r: Self)
        ensures
            r.wf(),
            r.usb_address == 0,
            forall|j: int|
                0 <= j < NUM_ENDPOINTS ==> crate::bus::fresh_endpoint(#[trigger] r.bus.ep_i@[j]),
            forall|j: int|
                0 <= j < NUM_ENDPOINTS ==> crate::bus::fresh_endpoint(#[trigger] r.bus.ep_o@[j]),
    {
        EmulatedUsbBus { usb_address: 0, bus: BusState::new() }
    }

    /// The USB address the host assigned to the device.
    pub fn get_address(&self) -> (r: u8)
        ensures
            r == self.usb_address,
    {
        self.usb_address
    }

    /// Latch a host-assigned device address.
    pub fn set_device_address(&mut self, addr: u8)
        ensures
            final(self).usb_address == addr,
            final(self).bus == old(self).bus,
    {
        self.usb_address = addr;
    }

    /// Whether the endpoint at `ep_addr` is stalled.
    pub fn is_stalled(&self, ep_addr: EndpointAddress) -> (r: bool)
        requires
            self.wf(),
            ep_addr.index < NUM_ENDPOINTS,
        ensures
            r == self.bus.ep_at(ep_addr).stall,
    {
        self.bus.ep_ref(ep_addr).stall
    }

    /// Stall or un-stall the endpoint at `ep_addr`.
    pub fn set_stalled(&mut self, ep_addr: EndpointAddress, stalled: bool)
        requires
            old(self).wf(),
            ep_addr.index < NUM_ENDPOINTS,
        ensures
            final(self).wf(),
            final(self).usb_address == old(self).usb_address,
            BusState::others_unchanged(old(self).bus, final(self).bus, ep_addr.index as int),
            final(self).bus.ep_at(ep_addr.spec_opposite()) == old(self).bus.ep_at(
                ep_addr.spec_opposite(),
            ),
            same_but_stall(old(self).bus.ep_at(ep_addr), final(self).bus.ep_at(ep_addr)),
            final(self).bus.ep_at(ep_addr).stall == stalled,
    {
        let ghost b0 = self.bus;
        let ep = self.bus.ep_mut(ep_addr);
        ep.stall = stalled;
        proof {
            BusState::lemma_wf_after_update(
                b0,
                self.bus,
                ep_addr,
                EndpointBuffer { stall: stalled, ..b0.ep_at(ep_addr) },
            );
        }
    }

    /// Whether the slot at `ep_addr` accepts an allocation of `kind`.
    fn slot_compatible(&self, ep_addr: EndpointAddress, kind: EndpointKind) -> (r: bool)
        requires
            self.wf(),
            ep_addr.index < NUM_ENDPOINTS,
        ensures
            r == ep_compatible(self.bus.ep_at(ep_addr), kind),
    {
        let ep = self.bus.ep_ref(ep_addr);
        match ep.kind {
            None => true,
            Some(t) => t == kind,
        }
    }

    /// Claim the slot at `ep_addr` for `kind` with packet size `mps`:
    /// sets the kind, resets the stall flag and updates the size.
    fn allocate_at(&mut self, ep_addr: EndpointAddress, kind: EndpointKind, mps: u16)
        requires
            old(self).wf(),
            ep_addr.index < NUM_ENDPOINTS,
        ensures
            final(self).wf(),
            final(self).usb_address == old(self).usb_address,
            allocated_post(
                old(self).bus,
                final(self).bus,
                ep_addr.index as int,
                ep_addr.direction,
                kind,
                mps,
            ),
    {
        let ghost b0 = self.bus;
        let ep = self.bus.ep_mut(ep_addr);
        ep.kind = Some(kind);
        ep.stall = false;
        ep.max_size = mps as usize;
        proof {
            BusState::lemma_wf_after_update(b0, self.bus, ep_addr, self.bus.ep_at(ep_addr));
        }
    }

    /// Allocate an endpoint. A requested address must be unused or
    /// already of a matching kind, else the allocation fails with
    /// `InvalidEndpoint`. Without a requested address the numbered
    /// slots above 0 (which is control-reserved) are scanned for the
    /// first unset or matching one; exhaustion fails with
    /// `EndpointOverflow`. Re-allocating a matching slot resets its
    /// stall flag and updates its packet size.
    pub fn alloc_ep(
        &mut self,
        ep_dir: UsbDirection,
        ep_addr: Option<EndpointAddress>,
        ep_type: EndpointKind,
        max_packet_size: u16,
    ) -> (r: Result<EndpointAddress, BusError>)
        requires
            old(self).wf(),
            match ep_addr {
                Some(a) => a.index < NUM_ENDPOINTS,
                None => true,
            },
        ensures
            final(self).wf(),
            final(self).usb_address == old(self).usb_address,
            match ep_addr {
                Some(a) => {
                    let target = EndpointAddress { index: a.index, direction: ep_dir };
                    if ep_compatible(old(self).bus.ep_at(target), ep_type) {
                        &&& r == Result::<EndpointAddress, BusError>::Ok(target)
                        &&& allocated_post(
                            old(self).bus,
                            final(self).bus,
                            a.index as int,
                            ep_dir,
                            ep_type,
                            max_packet_size,
                        )
                    } else {
                        &&& r == Result::<EndpointAddress, BusError>::Err(
                            BusError::InvalidEndpoint,
                        )
                        &&& *final(self) == *old(self)
                    }
                },
                None => {
                    let i0 = scan_free(old(self).bus.dir_seq(ep_dir), ep_type, 1);
                    if i0 < NUM_ENDPOINTS {
                        &&& r == Result::<EndpointAddress, BusError>::Ok(
                            EndpointAddress { index: i0 as usize, direction: ep_dir },
                        )
                        &&& allocated_post(
                            old(self).bus,
                            final(self).bus,
                            i0,
                            ep_dir,
                            ep_type,
                            max_packet_size,
                        )
                    } else {
                        &&& r == Result::<EndpointAddress, BusError>::Err(
                            BusError::EndpointOverflow,
                        )
                        &&& *final(self) == *old(self)
                    }
                },
            },
    {
        match ep_addr {
            Some(a) => {
                let target = EndpointAddress { index: a.index, direction: ep_dir };
                if self.slot_compatible(target, ep_type) {
                    self.allocate_at(target, ep_type, max_packet_size);
                    Ok(target)
                } else {
                    Err(BusError::InvalidEndpoint)
                }
            },
            None => {
                let mut index: usize = 1;
                while index < NUM_ENDPOINTS
                    invariant
                        ep_addr is None,
                        1 <= index <= NUM_ENDPOINTS,
                        old(self).wf(),
                        *self == *old(self),
                        forall|j: int|
                            1 <= j < index ==> !ep_compatible(
                                #[trigger] old(self).bus.dir_seq(ep_dir)[j],
                                ep_type,
                            ),
                    decreases NUM_ENDPOINTS - index,
                {
                    let target = EndpointAddress { index, direction: ep_dir };
                    if self.slot_compatible(target, ep_type) {
                        proof {
                            lemma_scan_free(old(self).bus.dir_seq(ep_dir), ep_type, 1);
                            assert(scan_free(old(self).bus.dir_seq(ep_dir), ep_type, 1)
                                == index as int);
                        }
                        self.allocate_at(target, ep_type, max_packet_size);
                        return Ok(target);
                    }
                    index += 1;
                }
                proof {
                    lemma_scan_free(old(self).bus.dir_seq(ep_dir), ep_type, 1);
                }
                Err(BusError::EndpointOverflow)
            },
        }
    }

    /// One interrupt-style status poll. The three masks report, per
    /// endpoint number, a consumed completion latch, pending unread
    /// bytes on either side, and a pending SETUP packet. The completion
    /// latch is edge-triggered: polling clears it, so the same
    /// completion is reported once. When nothing is pending the poll
    /// reports no event.
    pub fn poll(&mut self) -> (r: PollResult)
        requires
            old(self).wf(),
        ensures
            final(self).wf(),
            final(self).usb_address == old(self).usb_address,
            final(self).bus.ep_o@ == old(self).bus.ep_o@,
            final(self).bus.ep_i@.len() == NUM_ENDPOINTS,
            forall|j: int|
                0 <= j < NUM_ENDPOINTS ==> poll_cleared(
                    old(self).bus.ep_i@[j],
                    #[trigger] final(self).bus.ep_i@[j],
                ),
            (r is NoEvent) <==> !poll_pending(old(self).bus),
            (r matches PollResult::Data { ep_in_complete, ep_out, ep_setup } ==> {
                &&& ep_in_complete < 0x100
                &&& ep_out < 0x100
                &&& ep_setup < 0x100
                &&& forall|j: u16|
                    j < 8 ==> #[trigger] nth_bit(ep_in_complete, j) == old(
                        self,
                    ).bus.ep_i@[j as int].write_done
                &&& forall|j: u16|
                    j < 8 ==> #[trigger] nth_bit(ep_out, j) == (old(
                        self,
                    ).bus.ep_o@[j as int].read_ready || old(self).bus.ep_i@[j as int].read_ready)
                &&& forall|j: u16|
                    j < 8 ==> #[trigger] nth_bit(ep_setup, j) == old(
                        self,
                    ).bus.ep_o@[j as int].setup
            }),
    {
        let mut mask_in_complete: u16 = 0;
        let mut mask_ep_out: u16 = 0;
        let mut mask_ep_setup: u16 = 0;
        proof {
            lemma_zero_bits();
        }
        let mut index: usize = 0;
        while index < NUM_ENDPOINTS
            invariant
                index <= NUM_ENDPOINTS,
                old(self).wf(),
                self.wf(),
                self.usb_address == old(self).usb_address,
                self.bus.ep_o@ == old(self).bus.ep_o@,
                self.bus.ep_i@.len() == NUM_ENDPOINTS,
                forall|j: int|
                    0 <= j < index ==> poll_cleared(
                        old(self).bus.ep_i@[j],
                        #[trigger] self.bus.ep_i@[j],
                    ),
                forall|j: int|
                    index <= j < NUM_ENDPOINTS ==> #[trigger] self.bus.ep_i@[j] == old(
                        self,
                    ).bus.ep_i@[j],
                mask_in_complete < 0x100,
                mask_ep_out < 0x100,
                mask_ep_setup < 0x100,
                forall|j: u16|
                    j < index ==> #[trigger] nth_bit(mask_in_complete, j) == old(
                        self,
                    ).bus.ep_i@[j as int].write_done,
                forall|j: u16| index <= j && j < 8 ==> !#[trigger] nth_bit(mask_in_complete, j),
                forall|j: u16|
                    j < index ==> #[trigger] nth_bit(mask_ep_out, j) == (old(
                        self,
                    ).bus.ep_o@[j as int].read_ready || old(self).bus.ep_i@[j as int].read_ready),
                forall|j: u16| index <= j && j < 8 ==> !#[trigger] nth_bit(mask_ep_out, j),
                forall|j: u16|
                    j < index ==> #[trigger] nth_bit(mask_ep_setup, j) == old(
                        self,
                    ).bus.ep_o@[j as int].setup,
                forall|j: u16| index <= j && j < 8 ==> !#[trigger] nth_bit(mask_ep_setup, j),
                (mask_in_complete != 0 || mask_ep_out != 0 || mask_ep_setup != 0)
                    ==> poll_pending(old(self).bus),
            decreases NUM_ENDPOINTS - index,
        {
            let addr_in = EndpointAddress { index, direction: UsbDirection::In };
            let addr_out = EndpointAddress { index, direction: UsbDirection::Out };
            let wd = self.bus.ep_ref(addr_in).write_done;
            let rri = self.bus.ep_ref(addr_in).read_ready;
            let rro = self.bus.ep_ref(addr_out).read_ready;
            let st = self.bus.ep_ref(addr_out).setup;
            let bit: u16 = 1u16 << (index as u16);
            if wd {
                proof {
                    lemma_set_bit(mask_in_complete, index as u16);
                    assert(ep_event(old(self).bus, index as int));
                }
                mask_in_complete = mask_in_complete | bit;
            }
            if rro || rri {
                proof {
                    lemma_set_bit(mask_ep_out, index as u16);
                    assert(ep_event(old(self).bus, index as int));
                }
                mask_ep_out = mask_ep_out | bit;
            }
            if st {
                proof {
                    lemma_set_bit(mask_ep_setup, index as u16);
                    assert(ep_event(old(self).bus, index as int));
                }
                mask_ep_setup = mask_ep_setup | bit;
            }
            let ghost b0 = self.bus;
            let ep = self.bus.ep_mut(addr_in);
            ep.write_done = false;
            proof {
                BusState::lemma_wf_after_update(b0, self.bus, addr_in, self.bus.ep_at(addr_in));
            }
            index += 1;
        }
        if mask_in_complete != 0 || mask_ep_out != 0 || mask_ep_setup != 0 {
            PollResult::Data {
                ep_in_complete: mask_in_complete,
                ep_out: mask_ep_out,
                ep_setup: mask_ep_setup,
            }
        } else {
            proof {
                lemma_zero_bits();
                assert forall|j: int| 0 <= j < NUM_ENDPOINTS implies !ep_event(
                    old(self).bus,
                    j,
                ) by {
                    assert(!nth_bit(mask_in_complete, j as u16));
                    assert(!nth_bit(mask_ep_out, j as u16));
                    assert(!nth_bit(mask_ep_setup, j as u16));
                }
            }
            PollResult::NoEvent
        }
    }

    /// Law — idempotent poll. The IN-completion edge is consumed
    /// exactly once: after a poll of a bus on which no level-triggered
    /// source was active (no staged unread bytes on either side, no
    /// pending SETUP), a second poll with no intervening state change
    /// reports no event. `pre` is the bus before the first poll and
    /// `mid` the bus it left behind, as `poll`'s contract describes it.
    pub proof fn lemma_poll_idempotent(pre: BusState, mid: BusState)
        requires
            pre.ep_i@.len() == NUM_ENDPOINTS,
            mid.ep_i@.len() == NUM_ENDPOINTS,
            mid.ep_o@ == pre.ep_o@,
            forall|j: int|
                0 <= j < NUM_ENDPOINTS ==> poll_cleared(pre.ep_i@[j], #[trigger] mid.ep_i@[j]),
            forall|j: int|
                0 <= j < NUM_ENDPOINTS ==> !(#[trigger] pre.ep_o@[j]).read_ready
                    && !pre.ep_o@[j].setup,
            forall|j: int| 0 <= j < NUM_ENDPOINTS ==> !(#[trigger] pre.ep_i@[j]).read_ready,
        ensures
            !poll_pending(mid),
    {
        assert forall|j: int| 0 <= j < NUM_ENDPOINTS implies !ep_event(mid, j) by {
            assert(poll_cleared(pre.ep_i@[j], mid.ep_i@[j]));
            assert(!pre.ep_o@[j].read_ready && !pre.ep_o@[j].setup);
            assert(!pre.ep_i@[j].read_ready);
            assert(mid.ep_o@[j] == pre.ep_o@[j]);
        }
    }

    /// Bus reset is a declared non-goal: it always fails.
    pub fn force_reset(&self) -> (r: Result<(), BusError>)
        ensures
            r == Result::<(), BusError>::Err(BusError::Unsupported),
    {
        Err(BusError::Unsupported)
    }

    /// Read up to `limit` bytes from the endpoint at `ep_addr`, bounded
    /// by its maximum packet size, in FIFO order. Zero available bytes
    /// is a would-block condition, never an empty success, and leaves
    /// the controller untouched.
    pub fn read(&mut self, ep_addr: EndpointAddress, limit: usize) -> (r: Result<
        Vec<u8>,
        BusError,
    >)
        requires
            old(self).wf(),
            ep_addr.index < NUM_ENDPOINTS,
        ensures
            final(self).wf(),
            final(self).usb_address == old(self).usb_address,
            ({
                let ep = old(self).bus.ep_at(ep_addr);
                let n = vstd::math::min(
                    limit as int,
                    vstd::math::min(ep.read@.len() as int, ep.max_size as int),
                );
                if n == 0 {
                    r == Result::<Vec<u8>, BusError>::Err(BusError::WouldBlock) && *final(self)
                        == *old(self)
                } else {
                    &&& r is Ok
                    &&& r->Ok_0@ == ep.read@.take(n)
                    &&& BusState::others_unchanged(
                        old(self).bus,
                        final(self).bus,
                        ep_addr.index as int,
                    )
                    &&& final(self).bus.ep_at(ep_addr.spec_opposite()) == old(self).bus.ep_at(
                        ep_addr.spec_opposite(),
                    )
                    &&& same_alloc(ep, final(self).bus.ep_at(ep_addr))
                    &&& same_write_side(ep, final(self).bus.ep_at(ep_addr))
                    &&& final(self).bus.ep_at(ep_addr).read@ == ep.read@.skip(n)
                    &&& (final(self).bus.ep_at(ep_addr).read@.len() == 0
                        ==> !final(self).bus.ep_at(ep_addr).setup)
                    &&& (final(self).bus.ep_at(ep_addr).read@.len() > 0
                        ==> final(self).bus.ep_at(ep_addr).setup == ep.setup)
                }
            }),
    {
        let avail = {
            let ep = self.bus.ep_ref(ep_addr);
            let a = if ep.read.len() < ep.max_size {
                ep.read.len()
            } else {
                ep.max_size
            };
            if limit < a {
                limit
            } else {
                a
            }
        };
        if avail == 0 {
            return Err(BusError::WouldBlock);
        }
        let ghost b0 = self.bus;
        let ep = self.bus.ep_mut(ep_addr);
        let data = ep.read_packet(limit);
        proof {
            BusState::lemma_wf_after_update(b0, self.bus, ep_addr, self.bus.ep_at(ep_addr));
        }
        Ok(data)
    }

    /// Append `buf` to the unsent write buffer of the endpoint at
    /// `ep_addr`. A write longer than the endpoint's maximum packet
    /// size is rejected whole: no bytes are appended and nothing
    /// changes.
    pub fn write(&mut self, ep_addr: EndpointAddress, buf: &[u8]) -> (r: Result<usize, BusError>)
        requires
            old(self).wf(),
            ep_addr.index < NUM_ENDPOINTS,
        ensures
            final(self).wf(),
            final(self).usb_address == old(self).usb_address,
            ({
                let ep = old(self).bus.ep_at(ep_addr);
                if buf@.len() > ep.max_size {
                    r == Result::<usize, BusError>::Err(BusError::BufferOverflow) && *final(self)
                        == *old(self)
                } else {
                    let n = vstd::math::min(buf@.len() as int, MAX_BUFFER - ep.write@.len());
                    &&& r == Result::<usize, BusError>::Ok(n as usize)
                    &&& BusState::others_unchanged(
                        old(self).bus,
                        final(self).bus,
                        ep_addr.index as int,
                    )
                    &&& final(self).bus.ep_at(ep_addr.spec_opposite()) == old(self).bus.ep_at(
                        ep_addr.spec_opposite(),
                    )
                    &&& same_alloc(ep, final(self).bus.ep_at(ep_addr))
                    &&& same_read_side(ep, final(self).bus.ep_at(ep_addr))
                    &&& final(self).bus.ep_at(ep_addr).write@ == ep.write@ + buf@.take(n)
                    &&& !final(self).bus.ep_at(ep_addr).write_done
                }
            }),
    {
        {
            let ep = self.bus.ep_ref(ep_addr);
            if buf.len() > ep.max_size {
                return Err(BusError::BufferOverflow);
            }
        }
        let ghost b0 = self.bus;
        let ep = self.bus.ep_mut(ep_addr);
        let n = ep.write_packet(buf);
        proof {
            BusState::lemma_wf_after_update(b0, self.bus, ep_addr, self.bus.ep_at(ep_addr));
        }
        Ok(n)
    }
}

} // verus!
