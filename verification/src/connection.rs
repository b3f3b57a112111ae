//! The connection engine's decision core: sequence-number allocation, the
//! pending-response table, and inbound dispatch. The engine owns no socket
//! here; a thin asynchronous shell performs each returned action (place a
//! packet on the socket, complete a sink, publish a discovery event) and
//! hands inbound packets back in.

use vstd::prelude::*;
use crate::address::{DeviceAddress, Endpoint};
use crate::header::Header;
use crate::message::{Message, MessageModel};
use crate::packet::{Packet, PacketModel};

verus! {

/// Names the one-shot sink a caller is waiting on; the shell maps it back to
/// the caller's channel.
#[derive(Debug, Clone, Copy, PartialEq, Eq, Structural)]
pub struct SinkId(pub u64);

/// Expected response for a message.
#[derive(Debug, Clone, Copy, PartialEq, Eq, Structural)]
pub enum Response {
    Acknowledgement(SinkId),
    Reply(SinkId),
}

/// An outbound request: where to send, what to send, and the sink awaiting
/// the answer, if any.
#[derive(Debug, Clone, PartialEq, Eq)]
pub struct Request {
    pub address: DeviceAddress,
    pub message: Message,
    pub response: Option<Response>,
}

impl Request {
    /// Assembles a request.
    pub fn new(address: DeviceAddress, message: Message, response: Option<Response>) -> (r:
        Request)
        ensures
            r == (Request { address, message, response }),
    {
        Request { address, message, response }
    }
}

/// A packet received from the network: the peer it came from, its header and
/// its message.
#[derive(Debug, Clone, PartialEq, Eq)]
pub struct InboundMessage {
    pub addr: Endpoint,
    pub header: Header,
    pub message: Message,
}

impl InboundMessage {
    /// The message the packet carried.
    pub fn message(&self) -> (r: &Message)
        ensures
            r == self.message,
    {
        &self.message
    }

    /// The header the packet carried.
    pub fn header(&self) -> (r: &Header)
        ensures
            r == self.header,
    {
        &self.header
    }
}

/// What the shell must do with a submitted request.
pub enum SubmitOutcome {
    /// Serialize `packet` and send it to `destination`.
    Sent { packet: Packet, destination: Endpoint },
    /// Every sequence number has a response outstanding: the request is
    /// parked in the engine until an inbound packet clears a slot.
    Deferred,
}

/// What the shell must do with an inbound packet.
pub enum InboundAction {
    /// The packet carries another client's source identifier: drop it
    /// silently.
    Ignored,
    /// A caller awaits this reply: deliver the inbound message to its sink.
    Reply { sink: SinkId, message: InboundMessage },
    /// A caller awaits an acknowledgement that has now arrived: complete its
    /// sink.
    AckCompleted { sink: SinkId },
    /// A caller awaits an acknowledgement but something else arrived with its
    /// sequence number: the entry is given up; the shell drops the sink.
    AckUnexpected { sink: SinkId, message: InboundMessage },
    /// An unsolicited UDP service advertisement: publish a discovery event
    /// for this address.
    Discovered { address: DeviceAddress },
    /// Anything else: drop the packet.
    Discarded,
}

/// The truncation a device's advertised port undergoes on its way into a
/// 16-bit UDP port.
pub open spec fn port_of(advertised: u32) -> u16 {
    (advertised % 0x10000) as u16
}

/// The sequence number after `s`, with 8-bit wrap.
pub open spec fn wrap_inc(s: u8) -> u8 {
    if s == 255 {
        0
    } else {
        (s + 1) as u8
    }
}

/// The first sequence number at or after `start` whose slot is free, if any.
/// The scan does not wrap around.
pub open spec fn first_free_from(pending: Seq<Option<Response>>, start: int) -> Option<int>
    recommends
        pending.len() == 256,
        0 <= start <= 256,
    decreases 256 - start,
    when 0 <= start <= 256
{
    if start >= 256 {
        None
    } else if pending[start] is None {
        Some(start)
    } else {
        first_free_from(pending, start + 1)
    }
}

/// The number of occupied slots in a pending table.
pub open spec fn pending_count(pending: Seq<Option<Response>>) -> int
    decreases pending.len(),
{
    if pending.len() == 0 {
        0
    } else {
        pending_count(pending.drop_last()) + if pending.last() is Some {
            1int
        } else {
            0int
        }
    }
}

/// What a successful or failed slot search means: the found slot is the first
/// free one at or after `start`; a failed search means none is free there.
pub proof fn lemma_first_free_spec(pending: Seq<Option<Response>>, start: int)
    requires
        pending.len() == 256,
        0 <= start <= 256,
    ensures
        match first_free_from(pending, start) {
            Some(s) => start <= s < 256 && pending[s] is None && (forall|j: int|
                start <= j < s ==> pending[j] is Some),
            None => forall|j: int| start <= j < 256 ==> pending[j] is Some,
        },
    decreases 256 - start,
{
    if start < 256 && !(pending[start] is None) {
        lemma_first_free_spec(pending, start + 1);
    }
}

/// Occupied slots never hold back the search: skipping one occupied slot
/// leaves the result unchanged.
proof fn lemma_first_free_step(pending: Seq<Option<Response>>, start: int)
    requires
        pending.len() == 256,
        0 <= start < 256,
        pending[start] is Some,
    ensures
        first_free_from(pending, start) == first_free_from(pending, start + 1),
{
}

/// A pending table never holds more entries than slots.
pub proof fn lemma_pending_count_bounded(pending: Seq<Option<Response>>)
    ensures
        0 <= pending_count(pending) <= pending.len(),
    decreases pending.len(),
{
    if pending.len() > 0 {
        lemma_pending_count_bounded(pending.drop_last());
    }
}

/// Connection engine for LIFX devices on the local network.
///
/// This is the backend half of a client: it assigns sequence numbers, keys
/// waiting callers by them, and decides what happens to every inbound packet.
pub struct Connection {
    source: u32,
    sequence_number: u8,
    pending_responses: Vec<Option<Response>>,
    pending_request: Option<Request>,
}

impl Connection {
    /// The client source identifier stamped on outgoing packets.
    pub closed spec fn spec_source(self) -> u32 {
        self.source
    }

    /// The next sequence number to try.
    pub closed spec fn spec_sequence(self) -> u8 {
        self.sequence_number
    }

    /// The pending-response table, one slot per sequence number.
    pub closed spec fn spec_pending(self) -> Seq<Option<Response>> {
        self.pending_responses@
    }

    /// The request parked when every slot was busy, if any.
    pub closed spec fn spec_deferred(self) -> Option<Request> {
        self.pending_request
    }

    /// The pending table always has one slot per 8-bit sequence number.
    #[verifier::type_invariant]
    spec fn inv(self) -> bool {
        self.pending_responses@.len() == 256
    }

    /// Creates an engine for a client with the given source identifier, with
    /// no responses pending.
    pub fn new(source: u32) -> (r: Connection)
        ensures
            r.spec_source() == source,
            r.spec_sequence() == 0,
            r.spec_pending() == Seq::new(256, |i: int| None::<Response>),
            r.spec_deferred() is None,
    {
        let mut pending_responses: Vec<Option<Response>> = Vec::new();
        let mut k: usize = 0;
        while k < 256
            invariant
                k <= 256,
                pending_responses@ == Seq::new(k as nat, |i: int| None::<Response>),
            decreases 256 - k,
        {
            pending_responses.push(None);
            assert(pending_responses@ =~= Seq::new((k + 1) as nat, |i: int| None::<Response>));
            k = k + 1;
        }
        Connection { source, sequence_number: 0, pending_responses, pending_request: None }
    }

    /// The number of callers currently waiting on a response or
    /// acknowledgement. It never exceeds 256, the size of the sequence space.
    pub fn pending_count(&self) -> (r: usize)
        ensures
            r == pending_count(self.spec_pending()),
            r <= 256,
    {
        proof {
            use_type_invariant(self);
            lemma_pending_count_bounded(self.spec_pending());
        }
        let mut count: usize = 0;
        let mut k: usize = 0;
        while k < 256
            invariant
                k <= 256,
                self.pending_responses@.len() == 256,
                count == pending_count(self.spec_pending().take(k as int)),
                count <= k,
            decreases 256 - k,
        {
            proof {
                assert(self.spec_pending().take(k + 1).drop_last() =~= self.spec_pending().take(
                    k as int,
                ));
            }
            if self.pending_responses[k].is_some() {
                count = count + 1;
            }
            k = k + 1;
        }
        proof {
            assert(self.spec_pending().take(256) =~= self.spec_pending());
        }
        count
    }

    /// Picks the sequence number for a new request. A fire-and-forget request
    /// takes the counter as it stands; a request that awaits a response takes
    /// the first free slot at or after the counter, or nothing when every
    /// slot from there on is busy. The counter advances past any number
    /// handed out.
    fn next_sequence(&mut self, has_response: bool) -> (r: Option<u8>)
        ensures
            final(self).spec_source() == old(self).spec_source(),
            final(self).spec_pending() == old(self).spec_pending(),
            final(self).spec_deferred() == old(self).spec_deferred(),
            !has_response ==> r == Some(old(self).spec_sequence()) && final(self).spec_sequence()
                == wrap_inc(old(self).spec_sequence()),
            has_response ==> match first_free_from(
                old(self).spec_pending(),
                old(self).spec_sequence() as int,
            ) {
                Some(s) => r == Some(s as u8) && final(self).spec_sequence() == wrap_inc(s as u8),
                None => r is None && final(self).spec_sequence() == old(self).spec_sequence(),
            },
    {
        proof {
            use_type_invariant(&*self);
        }
        if has_response {
            let start = self.sequence_number;
            let mut seq: u16 = start as u16;
            while seq <= 255
                invariant
                    has_response,
                    start == old(self).spec_sequence(),
                    start <= seq <= 256,
                    self == old(self),
                    self.pending_responses@.len() == 256,
                    first_free_from(self.spec_pending(), start as int) == first_free_from(
                        self.spec_pending(),
                        seq as int,
                    ),
                decreases 256 - seq,
            {
                if self.pending_responses[seq as usize].is_none() {
                    self.sequence_number = if seq == 255 {
                        0
                    } else {
                        (seq + 1) as u8
                    };
                    return Some(seq as u8);
                }
                proof {
                    lemma_first_free_step(self.spec_pending(), seq as int);
                }
                seq = seq + 1;
            }
            None
        } else {
            let seq = self.sequence_number;
            self.sequence_number = if seq == 255 {
                0
            } else {
                seq + 1
            };
            Some(seq)
        }
    }

    /// Accepts one outbound request. Either it yields the packet to send,
    /// with the waiting sink (if any) recorded under the packet's sequence
    /// number in a previously free slot, or - when every slot at or after the
    /// counter is busy - it parks the request and yields nothing; the shell
    /// must stop pulling requests until an inbound packet clears a slot.
    pub fn submit(&mut self, request: Request) -> (r: SubmitOutcome)
        requires
            old(self).spec_deferred() is None,
        ensures
            final(self).spec_source() == old(self).spec_source(),
            match request.response {
                None => {
                    &&& final(self).spec_pending() == old(self).spec_pending()
                    &&& final(self).spec_deferred() is None
                    &&& final(self).spec_sequence() == wrap_inc(old(self).spec_sequence())
                    &&& r matches SubmitOutcome::Sent { packet, destination }
                    &&& packet@ == packet_for(
                        old(self).spec_source(),
                        old(self).spec_sequence(),
                        request,
                        false,
                        false,
                    )
                    &&& destination == request.address.service_address
                },
                Some(resp) => match first_free_from(
                    old(self).spec_pending(),
                    old(self).spec_sequence() as int,
                ) {
                    Some(s) => {
                        &&& old(self).spec_pending()[s] is None
                        &&& final(self).spec_pending() == old(self).spec_pending().update(
                            s,
                            Some(resp),
                        )
                        &&& final(self).spec_deferred() is None
                        &&& final(self).spec_sequence() == wrap_inc(s as u8)
                        &&& r matches SubmitOutcome::Sent { packet, destination }
                        &&& packet@ == packet_for(
                            old(self).spec_source(),
                            s as u8,
                            request,
                            resp is Reply,
                            resp is Acknowledgement,
                        )
                        &&& destination == request.address.service_address
                    },
                    None => {
                        &&& final(self).spec_pending() == old(self).spec_pending()
                        &&& final(self).spec_sequence() == old(self).spec_sequence()
                        &&& final(self).spec_deferred() == Some(request)
                        &&& r is Deferred
                    },
                },
            },
    {
        proof {
            use_type_invariant(&*self);
            if request.response is Some {
                lemma_first_free_spec(
                    old(self).spec_pending(),
                    old(self).spec_sequence() as int,
                );
            }
        }
        let has_response = request.response.is_some();
        match self.next_sequence(has_response) {
            Some(sequence) => {
                let Request { address, message, response } = request;
                let (response_required, acknowledgement_required) = match response {
                    Some(Response::Acknowledgement(_)) => (false, true),
                    Some(Response::Reply(_)) => (true, false),
                    None => (false, false),
                };
                if let Some(resp) = response {
                    self.pending_responses[sequence as usize] = Some(resp);
                }
                let packet = Packet::new(
                    self.source,
                    address.target,
                    sequence,
                    response_required,
                    acknowledgement_required,
                    message,
                );
                SubmitOutcome::Sent { packet, destination: address.service_address }
            },
            None => {
                self.pending_request = Some(request);
                SubmitOutcome::Deferred
            },
        }
    }

    /// Hands back a request parked by `submit`, to be submitted again once an
    /// inbound packet has cleared a slot.
    pub fn take_deferred(&mut self) -> (r: Option<Request>)
        ensures
            r == old(self).spec_deferred(),
            final(self).spec_deferred() is None,
            final(self).spec_source() == old(self).spec_source(),
            final(self).spec_sequence() == old(self).spec_sequence(),
            final(self).spec_pending() == old(self).spec_pending(),
    {
        proof {
            use_type_invariant(&*self);
        }
        let mut taken: Option<Request> = None;
        core::mem::swap(&mut self.pending_request, &mut taken);
        taken
    }

    /// Whether a request is parked.
    pub fn has_deferred(&self) -> (r: bool)
        ensures
            r == (self.spec_deferred() is Some),
    {
        self.pending_request.is_some()
    }

    /// Dispatches a received packet. A packet carrying another client's
    /// source is ignored. Otherwise the pending slot under the packet's
    /// sequence number, if occupied, is cleared and its sink served: a reply
    /// sink receives the message; an acknowledgement sink completes on an
    /// `Acknowledgement` and is given up on anything else. With no pending
    /// slot, an unsolicited UDP `StateService` yields a discovery event, and
    /// everything else is discarded.
    pub fn handle_message(&mut self, message: InboundMessage) -> (r: InboundAction)
        ensures
            final(self).spec_source() == old(self).spec_source(),
            final(self).spec_sequence() == old(self).spec_sequence(),
            final(self).spec_deferred() == old(self).spec_deferred(),
            message.header.source != old(self).spec_source() ==> final(self).spec_pending() == old(
                self,
            ).spec_pending() && r is Ignored,
            message.header.source == old(self).spec_source() ==> match old(
                self,
            ).spec_pending()[message.header.sequence as int] {
                Some(resp) => final(self).spec_pending() == old(self).spec_pending().update(
                    message.header.sequence as int,
                    None,
                ) && match resp {
                    Response::Reply(sink) => r == (InboundAction::Reply { sink, message }),
                    Response::Acknowledgement(sink) => if message.message@
                        is Acknowledgement {
                        r == (InboundAction::AckCompleted { sink })
                    } else {
                        r == (InboundAction::AckUnexpected { sink, message })
                    },
                },
                None => final(self).spec_pending() == old(self).spec_pending() && match message.message@ {
                    MessageModel::StateService { service, port } => if service is Udp {
                        r == (InboundAction::Discovered {
                            address: DeviceAddress {
                                service_address: Endpoint {
                                    ip: message.addr.ip,
                                    port: port_of(port),
                                },
                                target: message.header.target,
                            },
                        })
                    } else {
                        r is Discarded
                    },
                    _ => r is Discarded,
                },
            },
    {
        proof {
            use_type_invariant(&*self);
        }
        if message.header.source != self.source {
            return InboundAction::Ignored;
        }
        let sequence = message.header.sequence as usize;
        let slot = self.pending_responses[sequence];
        match slot {
            Some(resp) => {
                self.pending_responses[sequence] = None;
                match resp {
                    Response::Reply(sink) => InboundAction::Reply { sink, message },
                    Response::Acknowledgement(sink) => {
                        if matches!(message.message, Message::Acknowledgement) {
                            InboundAction::AckCompleted { sink }
                        } else {
                            InboundAction::AckUnexpected { sink, message }
                        }
                    },
                }
            },
            None => {
                match &message.message {
                    Message::StateService(inner) => {
                        match inner.service {
                            crate::message::Service::Udp => {
                                let port = (inner.port % 0x10000) as u16;
                                let address = DeviceAddress::new(
                                    Endpoint { ip: message.addr.ip, port },
                                    message.header.target,
                                );
                                InboundAction::Discovered { address }
                            },
                            _ => InboundAction::Discarded,
                        }
                    },
                    _ => InboundAction::Discarded,
                }
            },
        }
    }
}

/// The packet the engine builds for a request: the engine's source, the
/// request's target and message, the allocated sequence number, and the flags
/// the expected response calls for.
pub open spec fn packet_for(
    source: u32,
    sequence: u8,
    request: Request,
    response_required: bool,
    acknowledgement_required: bool,
) -> PacketModel {
    PacketModel {
        source,
        target: request.address.target,
        sequence,
        response_required,
        acknowledgement_required,
        message: request.message@,
    }
}

} // verus!
