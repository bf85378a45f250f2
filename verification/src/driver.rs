//! The host-side transaction driver: the decision core that sequences
//! the SETUP, DATA and STATUS phases of a transfer against the bus
//! state, one poll cycle at a time.
//!
//! The driver is a state machine. `Transaction::start` stages the
//! transfer and every later `Transaction::polled` consumes the outcome
//! of one poll cycle and answers with the next `Step`: poll again with
//! a given tag, finish with a result, or fail with a typed error. The
//! caller owns the loop that runs the polls and the handler under test
//! between steps.

use vstd::prelude::*;

use crate::adapter::EmulatedUsbBus;
use crate::bus::{in_addr, out_addr, BusState, EndpointAddress, UsbDirection, NUM_ENDPOINTS};
use crate::endpoint::{
    same_alloc, same_but_stall, same_kind_size, same_read_side, same_write_side, MAX_BUFFER,
};

verus! {

/// Why the per-poll hook is being invoked.
#[derive(Debug, PartialEq, Eq, Structural, Clone, Copy)]
pub enum HookWhen {
    /// After the idle poll that precedes device setup.
    InitIdle,
    /// After a poll that follows a staged SETUP packet.
    AfterSetup(EndpointAddress),
    /// After a poll while payload bytes sent to the device wait to be
    /// consumed: the host-to-device data phase.
    DataOut(EndpointAddress),
    /// After a poll while the device's response is being received: the
    /// device-to-host data phase.
    DataIn(EndpointAddress),
    /// After an explicitly requested poll.
    ManualPoll,
}

/// What the hook tells the poll loop to do.
#[derive(Debug, PartialEq, Eq, Structural, Clone, Copy, Default)]
pub enum HookAction {
    /// Proceed normally.
    #[default]
    Default,
    /// Poll again before letting the driver inspect the state.
    ForcePoll,
    /// Treat this poll as if it had reported nothing, short-circuiting
    /// the surrounding phase.
    Stop,
}

/// The settled outcome of one poll cycle, after the hook had its say.
#[derive(Debug, PartialEq, Eq, Structural, Clone, Copy)]
pub enum PollVerdict {
    /// The cycle is over; this is the value the driver inspects.
    Settled(bool),
    /// The hook asked for an immediate re-poll.
    PollAgain,
}

/// Interpret a hook's answer for one poll that reported `polled`:
/// proceed with it, poll again, or stop as if nothing was reported.
pub fn resolve_poll(action: HookAction, polled: bool) -> (v: PollVerdict)
    ensures
        v == (match action {
            HookAction::Default => PollVerdict::Settled(polled),
            HookAction::ForcePoll => PollVerdict::PollAgain,
            HookAction::Stop => PollVerdict::Settled(false),
        }),
{
    match action {
        HookAction::Default => PollVerdict::Settled(polled),
        HookAction::ForcePoll => PollVerdict::PollAgain,
        HookAction::Stop => PollVerdict::Settled(false),
    }
}

/// Byte counts of one finished transaction: what the host loaded into
/// the endpoint and what the device wrote back.
#[derive(Debug, Default, PartialEq, Eq, Structural, Clone, Copy)]
pub struct RWRes {
    /// Bytes the device wrote back, when a read phase ran.
    pub read: Option<usize>,
    /// Bytes loaded into the endpoint buffer, when a payload was sent.
    /// The SETUP packet is not counted.
    pub wrote: Option<usize>,
}

impl RWRes {
    /// Pack the two optional byte counts.
    pub fn new(read: Option<usize>, wrote: Option<usize>) -> (r: Self)
        ensures
            r == (RWRes { read, wrote }),
    {
        RWRes { read, wrote }
    }
}

/// Why building the device object can fail: the device-builder
/// validation outcomes, carried as plain data.
#[derive(Debug, PartialEq, Eq, Structural, Clone, Copy)]
pub enum BuildError {
    /// String descriptors in more languages than supported.
    TooManyLanguages,
    /// A control endpoint size other than 8, 16, 32 or 64.
    InvalidPacketSize,
    /// More bus power requested than allowed.
    PowerTooHigh,
}

/// Possible errors or other abnormal conditions of a transaction.
#[derive(Debug, PartialEq)]
pub enum AnyUsbError {
    /// Endpoint stalled after the SETUP packet. Not necessarily a bug:
    /// the device rejected the transaction.
    EP0Stalled,
    /// The OUT buffer still holds bytes after the SETUP packet was
    /// supposedly consumed.
    EP0NotEmptyAfterSetup,
    /// No count of written bytes is available.
    EPWriteError,
    /// No count of read bytes is available.
    EPReadError,
    /// Endpoint stalled during the DATA phases.
    EPStalled,
    /// The DATA-OUT retry bound was exhausted without the device
    /// finishing or standing still.
    EPReadFailed,
    /// A GET_STATUS reply whose length is not 2.
    EP0BadGetStatusSize,
    /// A GET_CONFIGURATION reply whose length is not 1.
    EP0BadGetConfigSize,
    /// A failed data conversion between representations.
    DataConversion,
    /// SET_ADDRESS did not take effect during device setup.
    SetAddressFailed,
    /// A descriptor length marker larger than the data returned.
    InvalidDescriptorLength,
    /// An unexpected descriptor type tag.
    InvalidDescriptorType,
    /// A string descriptor of odd length.
    InvalidStringLength,
    /// The device object could not be built.
    UsbDeviceBuilder(BuildError),
    /// User-defined meaning; passed through, not used by the library.
    UserDefined1,
    /// User-defined meaning; passed through, not used by the library.
    UserDefined2,
    /// User-defined meaning; passed through, not used by the library.
    UserDefinedU64(u64),
    /// User-defined meaning; passed through, not used by the library.
    UserDefinedString(String),
}

/// Result type for the driver's operations.
pub type AnyResult<T> = core::result::Result<T, AnyUsbError>;

/// The phase a transaction is in while it waits for a poll cycle.
#[derive(Debug, PartialEq, Eq, Structural, Clone, Copy)]
pub enum TxPhase {
    /// A SETUP packet was staged; its consumption is being checked.
    AwaitSetup,
    /// Payload bytes were appended; the device is consuming them.
    AwaitData,
    /// The device's response is being drained packet by packet.
    AwaitDrain,
    /// A result or a failure was delivered.
    Finished,
}

/// What the driver asks of its caller next.
#[derive(Debug, PartialEq)]
pub enum Step {
    /// Run one poll cycle — device poll plus hook — and hand the
    /// settled outcome back through `Transaction::polled`.
    Poll(HookWhen),
    /// The transaction finished with these byte counts; the drained
    /// response bytes sit in the transaction's `collected` buffer.
    Done(RWRes),
    /// The transaction failed.
    Fail(AnyUsbError),
}

/// Every packet of the trace except the last filled the endpoint's
/// maximum packet size, which is what made the driver keep pulling.
pub open spec fn drain_trace_wf(chunks: Seq<Seq<u8>>, max: int) -> bool {
    forall|i: int| 0 <= i < chunks.len() - 1 ==> (#[trigger] chunks[i]).len() >= max
}

/// A SETUP packet of `data` was staged at OUT endpoint `index`: the
/// stall flags of both directions were cleared, the bytes replaced the
/// unread ones, and nothing else changed.
pub open spec fn staged_setup(
    pre: EmulatedUsbBus,
    post: EmulatedUsbBus,
    index: usize,
    data: Seq<u8>,
) -> bool {
    let out0 = out_addr(index);
    let in0 = in_addr(index);
    &&& post.usb_address == pre.usb_address
    &&& BusState::others_unchanged(pre.bus, post.bus, index as int)
    &&& same_kind_size(pre.bus.ep_at(out0), post.bus.ep_at(out0))
    &&& same_write_side(pre.bus.ep_at(out0), post.bus.ep_at(out0))
    &&& (data.len() > 0 ==> post.bus.ep_at(out0).read@ == data && post.bus.ep_at(out0).setup
        && post.bus.ep_at(out0).read_ready)
    &&& (data.len() == 0 ==> same_read_side(pre.bus.ep_at(out0), post.bus.ep_at(out0)))
    &&& !post.bus.ep_at(out0).stall
    &&& !post.bus.ep_at(in0).stall
    &&& same_but_stall(pre.bus.ep_at(in0), post.bus.ep_at(in0))
}

/// `data` was appended behind the unread bytes of OUT endpoint
/// `index`, and nothing else changed.
pub open spec fn appended_out(
    pre: EmulatedUsbBus,
    post: EmulatedUsbBus,
    index: usize,
    data: Seq<u8>,
) -> bool {
    let out0 = out_addr(index);
    &&& post.usb_address == pre.usb_address
    &&& BusState::others_unchanged(pre.bus, post.bus, index as int)
    &&& post.bus.ep_at(in_addr(index)) == pre.bus.ep_at(in_addr(index))
    &&& same_alloc(pre.bus.ep_at(out0), post.bus.ep_at(out0))
    &&& same_write_side(pre.bus.ep_at(out0), post.bus.ep_at(out0))
    &&& post.bus.ep_at(out0).read@ == pre.bus.ep_at(out0).read@ + data
    &&& post.bus.ep_at(out0).setup == pre.bus.ep_at(out0).setup
}

/// The IN endpoint `index` was drained once: its write buffer is empty
/// and its completion latch set, and nothing else changed.
pub open spec fn drained_once(pre: EmulatedUsbBus, post: EmulatedUsbBus, index: usize) -> bool {
    let in0 = in_addr(index);
    &&& post.usb_address == pre.usb_address
    &&& BusState::others_unchanged(pre.bus, post.bus, index as int)
    &&& post.bus.ep_at(out_addr(index)) == pre.bus.ep_at(out_addr(index))
    &&& same_alloc(pre.bus.ep_at(in0), post.bus.ep_at(in0))
    &&& same_read_side(pre.bus.ep_at(in0), post.bus.ep_at(in0))
    &&& post.bus.ep_at(in0).write@.len() == 0
    &&& post.bus.ep_at(in0).write_done
}

/// A 16-bit value from its little-endian bytes.
pub open spec fn le16(lo: u8, hi: u8) -> u16 {
    (lo + hi * 256) as u16
}

/// Decode a fixed two-byte little-endian reply, as the status-style
/// standard requests return it. Any other length is a malformed reply.
pub fn decode_status_reply(data: &[u8]) -> (r: Result<u16, AnyUsbError>)
    ensures
        data@.len() == 2 ==> r == Result::<u16, AnyUsbError>::Ok(le16(data@[0], data@[1])),
        data@.len() != 2 ==> r == Result::<u16, AnyUsbError>::Err(AnyUsbError::EP0BadGetStatusSize),
{
    if data.len() != 2 {
        return Err(AnyUsbError::EP0BadGetStatusSize);
    }
    let lo = *vstd::slice::slice_index_get(data, 0);
    let hi = *vstd::slice::slice_index_get(data, 1);
    Ok(lo as u16 + (hi as u16) * 256)
}

/// Decode a fixed one-byte reply, as GET_CONFIGURATION and
/// GET_INTERFACE return it. Any other length is a malformed reply.
pub fn decode_config_reply(data: &[u8]) -> (r: Result<u8, AnyUsbError>)
    ensures
        data@.len() == 1 ==> r == Result::<u8, AnyUsbError>::Ok(data@[0]),
        data@.len() != 1 ==> r == Result::<u8, AnyUsbError>::Err(AnyUsbError::EP0BadGetConfigSize),
{
    if data.len() != 1 {
        return Err(AnyUsbError::EP0BadGetConfigSize);
    }
    Ok(*vstd::slice::slice_index_get(data, 0))
}

/// Validate a string descriptor and decode its UTF-16 code units. The
/// descriptor must carry its own length in its first byte, the string
/// type tag 3 in its second, and an even total length.
pub fn parse_string_descriptor(descr: &[u8]) -> (r: Result<Vec<u16>, AnyUsbError>)
    ensures
        descr@.len() < 2 ==> r == Result::<Vec<u16>, AnyUsbError>::Err(
            AnyUsbError::InvalidDescriptorLength,
        ),
        descr@.len() >= 2 && descr@[0] != descr@.len() ==> r == Result::<Vec<u16>, AnyUsbError>::Err(
            AnyUsbError::InvalidDescriptorLength,
        ),
        descr@.len() >= 2 && descr@[0] == descr@.len() && descr@[1] != 3 ==> r == Result::<
            Vec<u16>,
            AnyUsbError,
        >::Err(AnyUsbError::InvalidDescriptorType),
        descr@.len() >= 2 && descr@[0] == descr@.len() && descr@[1] == 3 && descr@[0] % 2 != 0
            ==> r == Result::<Vec<u16>, AnyUsbError>::Err(AnyUsbError::InvalidStringLength),
        descr@.len() >= 2 && descr@[0] == descr@.len() && descr@[1] == 3 && descr@[0] % 2 == 0
            ==> {
            &&& r is Ok
            &&& r->Ok_0@.len() == (descr@.len() - 2) / 2
            &&& forall|k: int|
                0 <= k < r->Ok_0@.len() ==> #[trigger] r->Ok_0@[k] == le16(
                    descr@[2 + 2 * k],
                    descr@[3 + 2 * k],
                )
        },
{
    if descr.len() < 2 {
        return Err(AnyUsbError::InvalidDescriptorLength);
    }
    let marker = *vstd::slice::slice_index_get(descr, 0);
    if marker as usize != descr.len() {
        return Err(AnyUsbError::InvalidDescriptorLength);
    }
    if *vstd::slice::slice_index_get(descr, 1) != 3 {
        return Err(AnyUsbError::InvalidDescriptorType);
    }
    if marker % 2 != 0 {
        return Err(AnyUsbError::InvalidStringLength);
    }
    let units = (descr.len() - 2) / 2;
    let mut out: Vec<u16> = Vec::new();
    let mut k: usize = 0;
    while k < units
        invariant
            k <= units,
            units == (descr@.len() - 2) / 2,
            descr@.len() % 2 == 0,
            2 <= descr@.len() <= usize::MAX,
            out@.len() == k,
            forall|i: int|
                0 <= i < k ==> #[trigger] out@[i] == le16(descr@[2 + 2 * i], descr@[3 + 2 * i]),
        decreases units - k,
    {
        let lo = *vstd::slice::slice_index_get(descr, 2 + 2 * k);
        let hi = *vstd::slice::slice_index_get(descr, 3 + 2 * k);
        out.push(lo as u16 + (hi as u16) * 256);
        k += 1;
    }
    Ok(out)
}

/// What a drain pass returns over a stream of device packets: it pulls
/// packet after packet and keeps only those up to and including the
/// first one shorter than `max`.
pub open spec fn drain_concat(packets: Seq<Seq<u8>>, max: int) -> Seq<u8>
    decreases packets.len(),
{
    if packets.len() == 0 {
        Seq::empty()
    } else if packets[0].len() < max {
        packets[0]
    } else {
        packets[0] + drain_concat(packets.drop_first(), max)
    }
}

/// How many packets a drain pass consumes from the stream.
pub open spec fn drain_count(packets: Seq<Seq<u8>>, max: int) -> int
    decreases packets.len(),
{
    if packets.len() == 0 {
        0
    } else if packets[0].len() < max {
        1
    } else {
        1 + drain_count(packets.drop_first(), max)
    }
}

/// Law — short-packet termination. For a response produced in packets
/// that each fill the endpoint's maximum packet size — or more — except
/// the last, which is strictly shorter (an empty one included), a drain
/// pass consumes every packet, stops right after the short one, and
/// returns exactly the concatenation of them all. A finished
/// transaction's packet trace has this very shape: its `collected`
/// bytes are the flattened trace, every packet before the last held at
/// least the maximum, and the last fell short.
pub proof fn lemma_short_packet_termination(packets: Seq<Seq<u8>>, max: int)
    requires
        packets.len() >= 1,
        drain_trace_wf(packets, max),
        packets.last().len() < max,
    ensures
        drain_count(packets, max) == packets.len(),
        drain_concat(packets, max) == packets.flatten(),
    decreases packets.len(),
{
    if packets.len() == 1 {
        assert(packets[0] == packets.last());
        packets.lemma_flatten_one_element();
    } else {
        assert((#[trigger] packets[0]).len() >= max);
        let rest = packets.drop_first();
        assert forall|i: int| 0 <= i < rest.len() - 1 implies (#[trigger] rest[i]).len()
            >= max by {
            assert(rest[i] == packets[i + 1]);
        }
        assert(rest.last() == packets.last());
        lemma_short_packet_termination(rest, max);
        assert(packets[0] == packets.first());
    }
}

/// One host-side transaction: the phases run strictly in order — SETUP
/// check, bounded DATA-OUT consumption, then the DATA-IN/STATUS drain
/// with short-packet termination.
pub struct Transaction {
    /// The endpoint number the transaction runs on.
    pub ep_index: usize,
    /// Payload waiting to be appended once the SETUP check passes.
    pub payload: Option<Vec<u8>>,
    /// How many payload bytes were loaded, once they were.
    pub sent: Option<usize>,
    /// Response bytes drained so far, in arrival order.
    pub collected: Vec<u8>,
    /// Length of the packet drained last.
    pub last_chunk: usize,
    /// The IN endpoint's maximum packet size, captured at drain entry.
    pub max_size: usize,
    /// Poll cycles spent so far in the DATA-OUT loop.
    pub iter: u32,
    /// Unconsumed OUT bytes observed before the pending poll.
    pub before: usize,
    /// Current phase.
    pub phase: TxPhase,
    /// The packets drained so far, oldest first; `collected` is their
    /// concatenation.
    pub chunks: Ghost<Seq<Seq<u8>>>,
}

impl Transaction {
    /// The OUT side of the transaction's endpoint.
    pub open spec fn spec_out0(self) -> EndpointAddress {
        out_addr(self.ep_index)
    }

    /// The IN side of the transaction's endpoint.
    pub open spec fn spec_in0(self) -> EndpointAddress {
        in_addr(self.ep_index)
    }

    /// The driver's internal consistency: the endpoint number is valid,
    /// the collected bytes are the concatenation of the drained
    /// packets, payload is only pending before the SETUP check is done,
    /// and while draining, every earlier packet was full — the reason
    /// the drain continued.
    pub open spec fn inv(self) -> bool {
        &&& self.ep_index < NUM_ENDPOINTS
        &&& self.collected@ == self.chunks@.flatten()
        &&& (self.payload matches Some(p) ==> p@.len() <= MAX_BUFFER && self.phase is AwaitSetup)
        &&& ((self.phase is AwaitSetup || self.phase is AwaitData) ==> self.chunks@.len() == 0)
        &&& (self.phase is AwaitDrain ==> {
            &&& self.chunks@.len() >= 1
            &&& self.last_chunk == self.chunks@.last().len()
            &&& drain_trace_wf(self.chunks@, self.max_size as int)
        })
    }

    /// Stage a transaction on endpoint `ep_index`: a SETUP packet, an
    /// optional host-to-device payload, or neither (a bare read). The
    /// returned step tells the caller which poll cycle to run first.
    pub fn start(
        bus: &mut EmulatedUsbBus,
        ep_index: usize,
        setup_bytes: Option<&[u8]>,
        data: Option<&[u8]>,
    ) -> (r: (Transaction, Step))
        requires
            old(bus).wf(),
            ep_index < NUM_ENDPOINTS,
            (setup_bytes matches Some(s) ==> s@.len() <= MAX_BUFFER),
            (data matches Some(d) ==> d@.len() <= MAX_BUFFER),
            (setup_bytes is None && data is Some ==> old(bus).bus.ep_at(
                out_addr(ep_index),
            ).read@.len() + data->0@.len() <= MAX_BUFFER),
        ensures
            final(bus).wf(),
            r.0.inv(),
            r.0.ep_index == ep_index,
            (setup_bytes matches Some(s) ==> {
                &&& staged_setup(*old(bus), *final(bus), ep_index, s@)
                &&& r.0.phase is AwaitSetup
                &&& (data matches Some(d) ==> r.0.payload is Some && r.0.payload->0@ == d@)
                &&& (data is None ==> r.0.payload is None)
                &&& r.0.sent is None
                &&& r.0.collected@ == Seq::<u8>::empty()
                &&& r.1 == Step::Poll(HookWhen::AfterSetup(out_addr(ep_index)))
            }),
            (setup_bytes is None && data is Some ==> {
                let d = data->0@;
                &&& appended_out(*old(bus), *final(bus), ep_index, d)
                &&& r.0.phase is AwaitData
                &&& r.0.payload is None
                &&& r.0.sent == Some(d.len() as usize)
                &&& r.0.iter == 1
                &&& r.0.before == old(bus).bus.ep_at(out_addr(ep_index)).read@.len() + d.len()
                &&& r.0.collected@ == Seq::<u8>::empty()
                &&& r.1 == Step::Poll(HookWhen::DataOut(out_addr(ep_index)))
            }),
            (setup_bytes is None && data is None ==> {
                &&& drained_once(*old(bus), *final(bus), ep_index)
                &&& r.0.phase is AwaitDrain
                &&& r.0.payload is None
                &&& r.0.sent is None
                &&& r.0.max_size == old(bus).bus.ep_at(in_addr(ep_index)).max_size
                &&& r.0.collected@ == old(bus).bus.ep_at(in_addr(ep_index)).write@
                &&& r.0.last_chunk == old(bus).bus.ep_at(in_addr(ep_index)).write@.len()
                &&& r.0.chunks@ == seq![old(bus).bus.ep_at(in_addr(ep_index)).write@]
                &&& r.1 == Step::Poll(HookWhen::DataIn(in_addr(ep_index)))
            }),
    {
        let out0 = EndpointAddress { index: ep_index, direction: UsbDirection::Out };
        let mut tx = Transaction {
            ep_index,
            payload: None,
            sent: None,
            collected: Vec::new(),
            last_chunk: 0,
            max_size: 0,
            iter: 0,
            before: 0,
            phase: TxPhase::AwaitSetup,
            chunks: Ghost(Seq::empty()),
        };
        match setup_bytes {
            Some(s) => {
                let _ = bus.bus.set_read(out0, s, true);
                tx.payload = match data {
                    Some(d) => Some(vstd::slice::slice_to_vec(d)),
                    None => None,
                };
                (tx, Step::Poll(HookWhen::AfterSetup(out0)))
            },
            None => match data {
                Some(d) => {
                    let n = bus.bus.append_read(out0, d);
                    tx.sent = Some(n);
                    tx.iter = 1;
                    tx.before = bus.bus.ep_data_len(out0);
                    tx.phase = TxPhase::AwaitData;
                    (tx, Step::Poll(HookWhen::DataOut(out0)))
                },
                None => {
                    let step = tx.enter_drain(bus);
                    (tx, step)
                },
            },
        }
    }

    /// Pull the first response packet and move to the drain phase.
    fn enter_drain(&mut self, bus: &mut EmulatedUsbBus) -> (step: Step)
        requires
            old(self).ep_index < NUM_ENDPOINTS,
            old(bus).wf(),
            old(self).collected@ == old(self).chunks@.flatten(),
            old(self).chunks@.len() == 0,
            old(self).payload is None,
        ensures
            final(bus).wf(),
            final(self).inv(),
            final(self).ep_index == old(self).ep_index,
            final(self).sent == old(self).sent,
            final(self).payload is None,
            final(self).phase is AwaitDrain,
            drained_once(*old(bus), *final(bus), old(self).ep_index),
            final(self).max_size == old(bus).bus.ep_at(in_addr(old(self).ep_index)).max_size,
            final(self).collected@ == old(self).collected@ + old(bus).bus.ep_at(
                in_addr(old(self).ep_index),
            ).write@,
            final(self).last_chunk == old(bus).bus.ep_at(
                in_addr(old(self).ep_index),
            ).write@.len(),
            final(self).chunks@ == seq![old(bus).bus.ep_at(in_addr(old(self).ep_index)).write@],
            step == Step::Poll(HookWhen::DataIn(in_addr(old(self).ep_index))),
    {
        let in0 = EndpointAddress { index: self.ep_index, direction: UsbDirection::In };
        self.max_size = bus.bus.ep_max_size(in0);
        let mut chunk = bus.bus.get_write(in0);
        let ghost c = chunk@;
        self.last_chunk = chunk.len();
        self.chunks = Ghost(self.chunks@.push(c));
        self.collected.append(&mut chunk);
        self.phase = TxPhase::AwaitDrain;
        proof {
            old(self).chunks@.lemma_flatten_push(c);
            assert(self.chunks@ =~= seq![c]);
        }
        Step::Poll(HookWhen::DataIn(in0))
    }

    /// Consume the settled outcome of the poll cycle the last step
    /// asked for, and decide what happens next: the SETUP check, one
    /// round of the bounded DATA-OUT loop, or one drain round with
    /// short-packet termination.
    pub fn polled(&mut self, bus: &mut EmulatedUsbBus, res: bool) -> (step: Step)
        requires
            old(self).inv(),
            !(old(self).phase is Finished),
            old(bus).wf(),
        ensures
            final(self).inv(),
            final(bus).wf(),
            final(self).ep_index == old(self).ep_index,
            match old(self).phase {
                TxPhase::AwaitSetup => {
                    let stalled = old(bus).bus.spec_stalled(old(self).ep_index as int);
                    let leftover = old(bus).bus.ep_at(old(self).spec_out0()).read@.len();
                    if stalled {
                        &&& step == Step::Fail(AnyUsbError::EP0Stalled)
                        &&& *final(bus) == *old(bus)
                        &&& final(self).phase is Finished
                    } else if leftover != 0 {
                        &&& step == Step::Fail(AnyUsbError::EP0NotEmptyAfterSetup)
                        &&& *final(bus) == *old(bus)
                        &&& final(self).phase is Finished
                    } else if old(self).payload is Some {
                        let p = old(self).payload->0@;
                        &&& appended_out(*old(bus), *final(bus), old(self).ep_index, p)
                        &&& final(self).phase is AwaitData
                        &&& final(self).payload is None
                        &&& final(self).sent == Some(p.len() as usize)
                        &&& final(self).iter == 1
                        &&& final(self).before == p.len()
                        &&& step == Step::Poll(HookWhen::DataOut(old(self).spec_out0()))
                    } else {
                        &&& drained_once(*old(bus), *final(bus), old(self).ep_index)
                        &&& final(self).phase is AwaitDrain
                        &&& final(self).sent == old(self).sent
                        &&& final(self).max_size == old(bus).bus.ep_at(
                            old(self).spec_in0(),
                        ).max_size
                        &&& final(self).collected@ == old(bus).bus.ep_at(
                            old(self).spec_in0(),
                        ).write@
                        &&& final(self).last_chunk == old(bus).bus.ep_at(
                            old(self).spec_in0(),
                        ).write@.len()
                        &&& final(self).chunks@ == seq![
                            old(bus).bus.ep_at(old(self).spec_in0()).write@,
                        ]
                        &&& step == Step::Poll(HookWhen::DataIn(old(self).spec_in0()))
                    }
                },
                TxPhase::AwaitData => {
                    let stalled = old(bus).bus.spec_stalled(old(self).ep_index as int);
                    let after = old(bus).bus.ep_at(old(self).spec_out0()).read@.len();
                    let stop = !res || after == 0 || old(self).before == after;
                    if stop {
                        if stalled {
                            &&& step == Step::Fail(AnyUsbError::EPStalled)
                            &&& *final(bus) == *old(bus)
                            &&& final(self).phase is Finished
                        } else {
                            &&& drained_once(*old(bus), *final(bus), old(self).ep_index)
                            &&& final(self).phase is AwaitDrain
                            &&& final(self).sent == old(self).sent
                            &&& final(self).max_size == old(bus).bus.ep_at(
                                old(self).spec_in0(),
                            ).max_size
                            &&& final(self).collected@ == old(bus).bus.ep_at(
                                old(self).spec_in0(),
                            ).write@
                            &&& final(self).last_chunk == old(bus).bus.ep_at(
                                old(self).spec_in0(),
                            ).write@.len()
                            &&& final(self).chunks@ == seq![
                                old(bus).bus.ep_at(old(self).spec_in0()).write@,
                            ]
                            &&& step == Step::Poll(HookWhen::DataIn(old(self).spec_in0()))
                        }
                    } else if old(self).iter >= 128 {
                        &&& step == Step::Fail(AnyUsbError::EPReadFailed)
                        &&& *final(bus) == *old(bus)
                        &&& final(self).phase is Finished
                    } else {
                        &&& step == Step::Poll(HookWhen::DataOut(old(self).spec_out0()))
                        &&& *final(bus) == *old(bus)
                        &&& final(self).phase is AwaitData
                        &&& final(self).sent == old(self).sent
                        &&& final(self).iter == old(self).iter + 1
                        &&& final(self).before == after
                    }
                },
                TxPhase::AwaitDrain => {
                    let stalled = old(bus).bus.spec_stalled(old(self).ep_index as int);
                    if stalled {
                        &&& step == Step::Fail(AnyUsbError::EPStalled)
                        &&& *final(bus) == *old(bus)
                        &&& final(self).phase is Finished
                    } else if old(self).last_chunk < old(self).max_size {
                        &&& step == Step::Done(
                            RWRes {
                                read: Some(old(self).collected@.len() as usize),
                                wrote: old(self).sent,
                            },
                        )
                        &&& *final(bus) == *old(bus)
                        &&& final(self).phase is Finished
                        &&& final(self).collected@ == old(self).collected@
                        &&& final(self).collected@ == old(self).chunks@.flatten()
                        &&& drain_trace_wf(old(self).chunks@, old(self).max_size as int)
                        &&& old(self).chunks@.last().len() < old(self).max_size
                    } else {
                        &&& drained_once(*old(bus), *final(bus), old(self).ep_index)
                        &&& final(self).phase is AwaitDrain
                        &&& final(self).sent == old(self).sent
                        &&& final(self).max_size == old(self).max_size
                        &&& final(self).collected@ == old(self).collected@ + old(bus).bus.ep_at(
                            old(self).spec_in0(),
                        ).write@
                        &&& final(self).last_chunk == old(bus).bus.ep_at(
                            old(self).spec_in0(),
                        ).write@.len()
                        &&& final(self).chunks@ == old(self).chunks@.push(
                            old(bus).bus.ep_at(old(self).spec_in0()).write@,
                        )
                        &&& step == Step::Poll(HookWhen::DataIn(old(self).spec_in0()))
                    }
                },
                TxPhase::Finished => true,
            },
    {
        let idx = self.ep_index;
        let out0 = EndpointAddress { index: idx, direction: UsbDirection::Out };
        let in0 = EndpointAddress { index: idx, direction: UsbDirection::In };
        match self.phase {
            TxPhase::AwaitSetup => {
                if bus.bus.stalled(idx) {
                    self.payload = None;
                    self.phase = TxPhase::Finished;
                    Step::Fail(AnyUsbError::EP0Stalled)
                } else if bus.bus.ep_data_len(out0) != 0 {
                    self.payload = None;
                    self.phase = TxPhase::Finished;
                    Step::Fail(AnyUsbError::EP0NotEmptyAfterSetup)
                } else {
                    let pl = self.payload.take();
                    match pl {
                        Some(p) => {
                            let n = bus.bus.append_read(out0, p.as_slice());
                            self.sent = Some(n);
                            self.iter = 1;
                            self.before = bus.bus.ep_data_len(out0);
                            self.phase = TxPhase::AwaitData;
                            Step::Poll(HookWhen::DataOut(out0))
                        },
                        None => self.enter_drain(bus),
                    }
                }
            },
            TxPhase::AwaitData => {
                let after = bus.bus.ep_data_len(out0);
                let empty = bus.bus.ep_is_empty(out0);
                let stop = !res || empty || self.before == after;
                if stop {
                    if bus.bus.stalled(idx) {
                        self.phase = TxPhase::Finished;
                        Step::Fail(AnyUsbError::EPStalled)
                    } else {
                        self.enter_drain(bus)
                    }
                } else if self.iter >= 128 {
                    self.phase = TxPhase::Finished;
                    Step::Fail(AnyUsbError::EPReadFailed)
                } else {
                    self.iter = self.iter + 1;
                    self.before = after;
                    Step::Poll(HookWhen::DataOut(out0))
                }
            },
            TxPhase::AwaitDrain => {
                if bus.bus.stalled(idx) {
                    self.phase = TxPhase::Finished;
                    Step::Fail(AnyUsbError::EPStalled)
                } else if self.last_chunk < self.max_size {
                    self.phase = TxPhase::Finished;
                    Step::Done(RWRes::new(Some(self.collected.len()), self.sent))
                } else {
                    let mut chunk = bus.bus.get_write(in0);
                    let ghost c = chunk@;
                    let ghost pre_chunks = self.chunks@;
                    self.last_chunk = chunk.len();
                    self.chunks = Ghost(self.chunks@.push(c));
                    self.collected.append(&mut chunk);
                    proof {
                        pre_chunks.lemma_flatten_push(c);
                        assert forall|i: int|
                            0 <= i < self.chunks@.len() - 1 implies (
                        #[trigger] self.chunks@[i]).len() >= self.max_size as int by {
                            if i < pre_chunks.len() - 1 {
                                assert(self.chunks@[i] == pre_chunks[i]);
                            } else {
                                assert(self.chunks@[i] == pre_chunks.last());
                            }
                        }
                    }
                    Step::Poll(HookWhen::DataIn(in0))
                }
            },
            TxPhase::Finished => vstd::pervasive::unreached(),
        }
    }
}

} // verus!
