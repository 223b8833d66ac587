//! The echo interceptor: what becomes of a frame that a peer has sent.
//!
//! A frame that is no IPv4 packet is handed on unchanged. An IPv4 packet for
//! another address is dropped. An echo request for the overlay
//! address is answered without touching the virtual interface; every other
//! frame for the overlay address is handed on unchanged.

use vstd::prelude::*;
use vstd::slice::slice_to_vec;

use crate::checksum::{
    checksum_field_cleared, checksum_validates, lemma_fold_is_ones_complement_sum,
    lemma_stored_checksum_validates, message_checksum, word_sum,
};
use crate::packet::{
    be16, be32, frame_is_ipv4, ipv4_destination, ipv4_get_destination, ipv4_get_payload, ipv4_get_protocol,
    ipv4_get_source, ipv4_fits, ipv4_payload, ipv4_protocol, ipv4_set_destination,
    ipv4_set_payload, ipv4_set_source, ipv4_source, is_ipv4, message_compute_checksum,
    message_get_type, message_fits, message_set_checksum, message_set_type, message_view_fits,
    payload_end, payload_start,
};

verus! {

/// IPv4 protocol number of the Internet Control Message Protocol.
pub const CONTROL_PROTOCOL: u8 = 1;

/// Message type of an echo request.
pub const ECHO_REQUEST: u8 = 8;

/// Message type of an echo reply.
pub const ECHO_REPLY: u8 = 0;

/// What the interceptor decides for one frame.
#[derive(Debug, Clone, PartialEq, Eq)]
pub enum Verdict {
    /// Write these bytes, the frame as it came, to the virtual interface.
    Forward(Vec<u8>),
    /// Do nothing with the frame.
    Drop,
    /// Send these bytes back to the peer the frame came from.
    Reply(Vec<u8>),
}

/// The mathematical value of a [`Verdict`].
pub enum VerdictView {
    Forward(Seq<u8>),
    Drop,
    Reply(Seq<u8>),
}

impl View for Verdict {
    type V = VerdictView;

    open spec fn view(&self) -> VerdictView {
        match self {
            Verdict::Forward(bytes) => VerdictView::Forward(bytes@),
            Verdict::Drop => VerdictView::Drop,
            Verdict::Reply(bytes) => VerdictView::Reply(bytes@),
        }
    }
}

/// The address with the octets `a.b.c.d`, as a big-endian number.
pub open spec fn address_of(a: u8, b: u8, c: u8, d: u8) -> int {
    a * 0x100_0000 + b * 0x1_0000 + c * 0x100 + d
}

/// Whether a reply can be built from `frame`: it is an IPv4 packet and its
/// payload holds at least the fixed part of a control message.
pub open spec fn answerable(frame: Seq<u8>) -> bool {
    is_ipv4(frame) && message_fits(ipv4_payload(frame))
}

/// Whether `frame` is an IPv4 frame that carries an echo request.
pub open spec fn is_echo_request(frame: Seq<u8>) -> bool {
    &&& answerable(frame)
    &&& ipv4_protocol(frame) == CONTROL_PROTOCOL
    &&& ipv4_payload(frame)[0] == ECHO_REQUEST
}

/// The reply to `frame`: the same bytes, but for the two addresses, which
/// change places, the message type, which becomes that of an echo reply, and
/// the message checksum, which is computed anew.
pub open spec fn echo_reply(frame: Seq<u8>) -> Seq<u8> {
    let start = payload_start(frame);
    let sum = message_checksum(ipv4_payload(frame).update(0, ECHO_REPLY));
    Seq::new(
        frame.len(),
        |i: int|
            if 12 <= i < 16 {
                frame[i + 4]
            } else if 16 <= i < 20 {
                frame[i - 4]
            } else if i == start {
                ECHO_REPLY
            } else if i == start + 2 {
                (sum / 0x100) as u8
            } else if i == start + 3 {
                (sum % 0x100) as u8
            } else {
                frame[i]
            },
    )
}

/// The verdict on `frame` where the overlay address is `overlay`.
pub open spec fn verdict_for(frame: Seq<u8>, overlay: u32) -> VerdictView {
    if !is_ipv4(frame) {
        VerdictView::Forward(frame)
    } else if ipv4_destination(frame) != overlay {
        VerdictView::Drop
    } else if is_echo_request(frame) {
        VerdictView::Reply(echo_reply(frame))
    } else {
        VerdictView::Forward(frame)
    }
}

/// The four bytes of a big-endian number are its digits to the base 256.
proof fn lemma_be32_digits(bytes: Seq<u8>, at: int)
    ensures
        0 <= be32(bytes, at) <= u32::MAX,
        be32(bytes, at) / 0x100_0000 == bytes[at],
        be32(bytes, at) / 0x1_0000 % 0x100 == bytes[at + 1],
        be32(bytes, at) / 0x100 % 0x100 == bytes[at + 2],
        be32(bytes, at) % 0x100 == bytes[at + 3],
{
}

/// The number `a.b.c.d` of an address given by its four octets.
pub fn ipv4_address(a: u8, b: u8, c: u8, d: u8) -> (addr: u32)
    ensures
        addr == address_of(a, b, c, d),
{
    a as u32 * 0x100_0000 + b as u32 * 0x1_0000 + c as u32 * 0x100 + d as u32
}

/// Builds the reply to a frame that is known to be answerable.
fn reply_to(frame: &[u8]) -> (reply: Vec<u8>)
    requires
        answerable(frame@),
    ensures
        reply@ == echo_reply(frame@),
{
    let mut reply = slice_to_vec(frame);
    let mut message = ipv4_get_payload(frame);
    message_set_type(&mut message, ECHO_REPLY);
    let sum = message_compute_checksum(message.as_slice());
    message_set_checksum(&mut message, sum);
    ipv4_set_payload(&mut reply, message.as_slice());
    let source = ipv4_get_source(frame);
    let destination = ipv4_get_destination(frame);
    ipv4_set_source(&mut reply, destination);
    ipv4_set_destination(&mut reply, source);
    proof {
        lemma_be32_digits(frame@, 12);
        lemma_be32_digits(frame@, 16);
        assert(reply@ =~= echo_reply(frame@));
    }
    reply
}

/// The reply to `frame`, or `None` where `frame` is no IPv4 packet or its
/// payload is too short to hold a control message.
pub fn build_echo_reply(frame: &[u8]) -> (reply: Option<Vec<u8>>)
    ensures
        reply is Some <==> answerable(frame@),
        reply matches Some(bytes) ==> bytes@ == echo_reply(frame@),
{
    if !frame_is_ipv4(frame) {
        return None;
    }
    let payload = ipv4_get_payload(frame);
    if !message_view_fits(payload.as_slice()) {
        return None;
    }
    Some(reply_to(frame))
}

/// Decides what becomes of inbound frames, for one overlay address.
#[derive(Debug, Clone, Copy, PartialEq, Eq)]
pub struct Interceptor {
    /// The address of the local virtual interface, as a big-endian number.
    pub overlay: u32,
}

impl Interceptor {
    /// An interceptor for the overlay address `overlay`.
    pub fn new(overlay: u32) -> (interceptor: Interceptor)
        ensures
            interceptor.overlay == overlay,
    {
        Interceptor { overlay }
    }

    /// The overlay address that this interceptor answers for.
    pub fn overlay_address(&self) -> (addr: u32)
        ensures
            addr == self.overlay,
    {
        self.overlay
    }

    /// The verdict on one inbound frame.
    ///
    /// A frame that is no IPv4 packet comes back unchanged in `Forward`. An
    /// IPv4 packet for another address is dropped. An echo request for the
    /// overlay address gives its reply; any other frame for the overlay
    /// address comes back unchanged in `Forward`.
    pub fn intercept(&self, frame: Vec<u8>) -> (verdict: Verdict)
        ensures
            verdict@ == verdict_for(frame@, self.overlay),
            !is_ipv4(frame@) ==> verdict@ == VerdictView::Forward(frame@),
            is_ipv4(frame@) && ipv4_destination(frame@) != self.overlay ==> verdict@
                == VerdictView::Drop,
    {
        if !frame_is_ipv4(frame.as_slice()) {
            return Verdict::Forward(frame);
        }
        if ipv4_get_destination(frame.as_slice()) != self.overlay {
            return Verdict::Drop;
        }
        if ipv4_get_protocol(frame.as_slice()) != CONTROL_PROTOCOL {
            return Verdict::Forward(frame);
        }
        let payload = ipv4_get_payload(frame.as_slice());
        if !message_view_fits(payload.as_slice()) {
            return Verdict::Forward(frame);
        }
        if message_get_type(payload.as_slice()) != ECHO_REQUEST {
            return Verdict::Forward(frame);
        }
        Verdict::Reply(reply_to(frame.as_slice()))
    }
}

/// Identifier of an echo message: bytes 4 and 5.
pub open spec fn echo_identifier(message: Seq<u8>) -> int {
    be16(message, 4)
}

/// Sequence number of an echo message: bytes 6 and 7.
pub open spec fn echo_sequence(message: Seq<u8>) -> int {
    be16(message, 6)
}

/// The reply to an answerable frame is an echo reply to its sender.
///
/// It is as long as the frame and its payload lies where the frame's lay. Its
/// source is the frame's destination and its destination the frame's source.
/// Its message has the type of an echo reply, the code of the request and
/// every byte behind the checksum unchanged, so identifier, sequence number
/// and data are those of the request. Its checksum passes the receiver's
/// test. Outside the addresses and the message it is the frame byte for byte.
pub proof fn lemma_echo_reply_answers(frame: Seq<u8>)
    requires
        answerable(frame),
    ensures
        echo_reply(frame).len() == frame.len(),
        is_ipv4(echo_reply(frame)),
        ipv4_source(echo_reply(frame)) == ipv4_destination(frame),
        ipv4_destination(echo_reply(frame)) == ipv4_source(frame),
        ipv4_protocol(echo_reply(frame)) == ipv4_protocol(frame),
        payload_start(echo_reply(frame)) == payload_start(frame),
        payload_end(echo_reply(frame)) == payload_end(frame),
        ipv4_payload(echo_reply(frame)).len() == ipv4_payload(frame).len(),
        ipv4_payload(echo_reply(frame))[0] == ECHO_REPLY,
        ipv4_payload(echo_reply(frame))[1] == ipv4_payload(frame)[1],
        forall|i: int|
            4 <= i < ipv4_payload(frame).len() ==> #[trigger] ipv4_payload(echo_reply(frame))[i]
                == ipv4_payload(frame)[i],
        ipv4_payload(frame).len() >= 8 ==> echo_identifier(ipv4_payload(echo_reply(frame)))
            == echo_identifier(ipv4_payload(frame)) && echo_sequence(
            ipv4_payload(echo_reply(frame)),
        ) == echo_sequence(ipv4_payload(frame)),
        checksum_validates(ipv4_payload(echo_reply(frame))),
        forall|i: int|
            0 <= i < frame.len() && !(12 <= i < 20) && !(payload_start(frame) <= i < payload_end(
                frame,
            )) ==> #[trigger] echo_reply(frame)[i] == frame[i],
{
    let reply = echo_reply(frame);
    let answer = ipv4_payload(frame).update(0, ECHO_REPLY);
    let sum = message_checksum(answer);
    let message = ipv4_payload(reply);
    assert(reply[0] == frame[0]);
    assert(reply[2] == frame[2] && reply[3] == frame[3]);
    assert(message.len() == answer.len());
    assert(message[2] == (sum / 0x100) as u8 && message[3] == (sum % 0x100) as u8);
    assert(message.update(2, 0u8).update(3, 0u8) =~= answer.update(2, 0u8).update(3, 0u8));
    lemma_fold_is_ones_complement_sum(word_sum(checksum_field_cleared(answer)));
    lemma_stored_checksum_validates(message);
}

/// An echo request for the overlay address is answered by its reply, and by
/// nothing else: the verdict holds the reply and no bytes for the virtual
/// interface.
pub proof fn lemma_echo_request_is_answered(frame: Seq<u8>, overlay: u32)
    requires
        is_echo_request(frame),
        ipv4_destination(frame) == overlay,
    ensures
        verdict_for(frame, overlay) == VerdictView::Reply(echo_reply(frame)),
        ipv4_source(echo_reply(frame)) == overlay,
        ipv4_destination(echo_reply(frame)) == ipv4_source(frame),
        ipv4_payload(echo_reply(frame))[0] == ECHO_REPLY,
        checksum_validates(ipv4_payload(echo_reply(frame))),
{
    lemma_echo_reply_answers(frame);
}

} // verus!
