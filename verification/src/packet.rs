//! Byte-level model of IPv4 frames and of the control messages they carry,
//! and the calls into `pnet` that read and write them.
//!
//! The spec functions say where each field lies in a frame. The functions
//! marked `external_body` are the only places where `pnet` is called; their
//! contracts restate, over those spec functions, what the `pnet` accessors do.

use pnet::packet::icmp::{IcmpPacket, IcmpType, MutableIcmpPacket};
use pnet::packet::ipv4::{Ipv4Packet, MutableIpv4Packet};
use pnet::packet::Packet;
use vstd::prelude::*;

use crate::checksum::message_checksum;

verus! {

/// Length of an IPv4 header without options: the least a frame must hold to
/// be viewed as IPv4.
pub const IPV4_MIN_LEN: usize = 20;

/// Length of the fixed part of a control message: type, code and checksum.
pub const MESSAGE_MIN_LEN: usize = 4;

/// The big-endian 16-bit value held by the two bytes of `bytes` at `at`.
pub open spec fn be16(bytes: Seq<u8>, at: int) -> int {
    bytes[at] * 0x100 + bytes[at + 1]
}

/// The big-endian 32-bit value held by the four bytes of `bytes` at `at`.
pub open spec fn be32(bytes: Seq<u8>, at: int) -> int {
    bytes[at] * 0x100_0000 + bytes[at + 1] * 0x1_0000 + bytes[at + 2] * 0x100 + bytes[at + 3]
}

/// `bytes` with the two bytes at `at` holding `value` in big-endian order.
pub open spec fn with_be16(bytes: Seq<u8>, at: int, value: u16) -> Seq<u8> {
    bytes.update(at, (value / 0x100) as u8).update(at + 1, (value % 0x100) as u8)
}

/// `bytes` with the four bytes at `at` holding `value` in big-endian order.
pub open spec fn with_be32(bytes: Seq<u8>, at: int, value: u32) -> Seq<u8> {
    bytes.update(at, (value / 0x100_0000) as u8).update(
        at + 1,
        (value / 0x1_0000 % 0x100) as u8,
    ).update(at + 2, (value / 0x100 % 0x100) as u8).update(at + 3, (value % 0x100) as u8)
}

/// `bytes` with `patch` written over it from index `at` on.
pub open spec fn overwritten(bytes: Seq<u8>, at: int, patch: Seq<u8>) -> Seq<u8> {
    Seq::new(
        bytes.len(),
        |i: int|
            if at <= i < at + patch.len() {
                patch[i - at]
            } else {
                bytes[i]
            },
    )
}

/// The version number that IPv4 packets carry.
pub const IPV4_VERSION: u8 = 4;

/// The least header length, in 32-bit words: a header without options.
pub const IPV4_MIN_WORDS: u8 = 5;

/// Whether a frame is long enough for its first twenty bytes to be read as
/// the fields of an IPv4 header. This says nothing of what the bytes hold.
pub open spec fn ipv4_fits(frame: Seq<u8>) -> bool {
    frame.len() >= IPV4_MIN_LEN
}

/// The version field: the high half of byte 0.
pub open spec fn ipv4_version(frame: Seq<u8>) -> int {
    frame[0] as int / 16
}

/// The header length field, in 32-bit words: the low half of byte 0.
pub open spec fn ipv4_header_words(frame: Seq<u8>) -> int {
    frame[0] as int % 16
}

/// The header length field, in bytes.
pub open spec fn ipv4_header_len(frame: Seq<u8>) -> int {
    ipv4_header_words(frame) * 4
}

/// Whether a frame is an IPv4 packet: it holds twenty bytes at least, its
/// version is 4, and its header is five words long at least and ends within
/// the frame.
pub open spec fn is_ipv4(frame: Seq<u8>) -> bool {
    &&& ipv4_fits(frame)
    &&& ipv4_version(frame) == IPV4_VERSION
    &&& ipv4_header_words(frame) >= IPV4_MIN_WORDS
    &&& ipv4_header_len(frame) <= frame.len()
}

/// The total length field of the header.
pub open spec fn ipv4_total_len(frame: Seq<u8>) -> int {
    be16(frame, 2)
}

/// The protocol number of the payload.
pub open spec fn ipv4_protocol(frame: Seq<u8>) -> u8 {
    frame[9]
}

/// The source address, as a big-endian number.
pub open spec fn ipv4_source(frame: Seq<u8>) -> int {
    be32(frame, 12)
}

/// The destination address, as a big-endian number.
pub open spec fn ipv4_destination(frame: Seq<u8>) -> int {
    be32(frame, 16)
}

/// Index of the first payload byte: behind the options, and never inside the
/// twenty fixed bytes, whatever the header length field says.
pub open spec fn payload_start(frame: Seq<u8>) -> int {
    if ipv4_header_len(frame) > IPV4_MIN_LEN {
        ipv4_header_len(frame)
    } else {
        IPV4_MIN_LEN as int
    }
}

/// The payload length that the header announces: total length less header
/// length, and zero where the header length is the larger.
pub open spec fn payload_announced(frame: Seq<u8>) -> int {
    if ipv4_total_len(frame) > ipv4_header_len(frame) {
        ipv4_total_len(frame) - ipv4_header_len(frame)
    } else {
        0
    }
}

/// Index behind the last payload byte: the announced end, cut at the end of
/// the frame.
pub open spec fn payload_end(frame: Seq<u8>) -> int {
    if payload_start(frame) + payload_announced(frame) < frame.len() {
        payload_start(frame) + payload_announced(frame)
    } else {
        frame.len() as int
    }
}

/// The payload of an IPv4 frame; empty where the frame ends at or before the
/// payload's first byte.
pub open spec fn ipv4_payload(frame: Seq<u8>) -> Seq<u8> {
    if frame.len() <= payload_start(frame) {
        Seq::empty()
    } else {
        frame.subrange(payload_start(frame), payload_end(frame))
    }
}

/// Whether a payload is long enough to be viewed as a control message.
pub open spec fn message_fits(message: Seq<u8>) -> bool {
    message.len() >= MESSAGE_MIN_LEN
}

/// Calls `Ipv4Packet::new`, which accepts a buffer exactly when it holds the
/// twenty bytes of a header without options. `pnet` tests nothing else there:
/// not the version, not the length fields.
#[verifier::external_body]
pub(crate) fn ipv4_view_fits(frame: &[u8]) -> (fits: bool)
    ensures
        fits == ipv4_fits(frame@),
{
    Ipv4Packet::new(frame).is_some()
}

/// Calls `Ipv4Packet::get_version`, which reads the high four bits of byte 0.
#[verifier::external_body]
pub(crate) fn ipv4_get_version(frame: &[u8]) -> (version: u8)
    requires
        ipv4_fits(frame@),
    ensures
        version == ipv4_version(frame@),
{
    Ipv4Packet::new(frame).unwrap().get_version()
}

/// Calls `Ipv4Packet::get_header_length`, which reads the low four bits of
/// byte 0: the length of the header in 32-bit words.
#[verifier::external_body]
pub(crate) fn ipv4_get_header_words(frame: &[u8]) -> (words: u8)
    requires
        ipv4_fits(frame@),
    ensures
        words == ipv4_header_words(frame@),
{
    Ipv4Packet::new(frame).unwrap().get_header_length()
}

/// Calls `Ipv4Packet::get_source`, which reads bytes 12 to 15.
#[verifier::external_body]
pub(crate) fn ipv4_get_source(frame: &[u8]) -> (addr: u32)
    requires
        ipv4_fits(frame@),
    ensures
        addr == ipv4_source(frame@),
{
    u32::from_be_bytes(Ipv4Packet::new(frame).unwrap().get_source().octets())
}

/// Calls `Ipv4Packet::get_destination`, which reads bytes 16 to 19.
#[verifier::external_body]
pub(crate) fn ipv4_get_destination(frame: &[u8]) -> (addr: u32)
    requires
        ipv4_fits(frame@),
    ensures
        addr == ipv4_destination(frame@),
{
    u32::from_be_bytes(Ipv4Packet::new(frame).unwrap().get_destination().octets())
}

/// Calls `Ipv4Packet::get_next_level_protocol`, which reads byte 9.
#[verifier::external_body]
pub(crate) fn ipv4_get_protocol(frame: &[u8]) -> (protocol: u8)
    requires
        ipv4_fits(frame@),
    ensures
        protocol == ipv4_protocol(frame@),
{
    Ipv4Packet::new(frame).unwrap().get_next_level_protocol().0
}

/// Calls `Ipv4Packet::payload` and copies what it returns. `pnet` starts the
/// payload behind the options (at byte 20 where the header length field is
/// under 5 words), ends it where the total length field says, cuts it at the
/// end of the buffer, and returns nothing where the buffer ends before the
/// payload starts.
#[verifier::external_body]
pub(crate) fn ipv4_get_payload(frame: &[u8]) -> (payload: Vec<u8>)
    requires
        ipv4_fits(frame@),
    ensures
        payload@ == ipv4_payload(frame@),
{
    Ipv4Packet::new(frame).unwrap().payload().to_vec()
}

/// Calls `MutableIpv4Packet::set_source`, which writes the four address bytes
/// at 12 to 15 and nothing else.
#[verifier::external_body]
pub(crate) fn ipv4_set_source(frame: &mut Vec<u8>, addr: u32)
    requires
        ipv4_fits(old(frame)@),
    ensures
        final(frame)@ == with_be32(old(frame)@, 12, addr),
{
    MutableIpv4Packet::new(frame.as_mut_slice()).unwrap().set_source(addr.into())
}

/// Calls `MutableIpv4Packet::set_destination`, which writes the four address
/// bytes at 16 to 19 and nothing else.
#[verifier::external_body]
pub(crate) fn ipv4_set_destination(frame: &mut Vec<u8>, addr: u32)
    requires
        ipv4_fits(old(frame)@),
    ensures
        final(frame)@ == with_be32(old(frame)@, 16, addr),
{
    MutableIpv4Packet::new(frame.as_mut_slice()).unwrap().set_destination(addr.into())
}

/// Calls `MutableIpv4Packet::set_payload`, which copies `payload` into the
/// buffer from the payload's first byte on. `pnet` panics where `payload` is
/// longer than the header announces or runs past the end of the buffer, so
/// both are asked of the caller.
#[verifier::external_body]
pub(crate) fn ipv4_set_payload(frame: &mut Vec<u8>, payload: &[u8])
    requires
        ipv4_fits(old(frame)@),
        payload@.len() <= payload_announced(old(frame)@),
        payload_start(old(frame)@) + payload@.len() <= old(frame)@.len(),
    ensures
        final(frame)@ == overwritten(old(frame)@, payload_start(old(frame)@), payload@),
{
    MutableIpv4Packet::new(frame.as_mut_slice()).unwrap().set_payload(payload)
}

/// Whether `frame` is an IPv4 packet.
pub fn frame_is_ipv4(frame: &[u8]) -> (yes: bool)
    ensures
        yes == is_ipv4(frame@),
{
    if !ipv4_view_fits(frame) {
        return false;
    }
    if ipv4_get_version(frame) != IPV4_VERSION {
        return false;
    }
    let words = ipv4_get_header_words(frame);
    words >= IPV4_MIN_WORDS && words as usize * 4 <= frame.len()
}

/// Calls `IcmpPacket::new`, which accepts a buffer exactly when it holds the
/// four bytes of type, code and checksum.
#[verifier::external_body]
pub(crate) fn message_view_fits(message: &[u8]) -> (fits: bool)
    ensures
        fits == message_fits(message@),
{
    IcmpPacket::new(message).is_some()
}

/// Calls `IcmpPacket::get_icmp_type`, which reads byte 0.
#[verifier::external_body]
pub(crate) fn message_get_type(message: &[u8]) -> (kind: u8)
    requires
        message_fits(message@),
    ensures
        kind == message@[0],
{
    IcmpPacket::new(message).unwrap().get_icmp_type().0
}

/// Calls `MutableIcmpPacket::set_icmp_type`, which writes byte 0 and nothing
/// else.
#[verifier::external_body]
pub(crate) fn message_set_type(message: &mut Vec<u8>, kind: u8)
    requires
        message_fits(old(message)@),
    ensures
        final(message)@ == old(message)@.update(0, kind),
{
    MutableIcmpPacket::new(message.as_mut_slice()).unwrap().set_icmp_type(IcmpType(kind))
}

/// Calls `MutableIcmpPacket::set_checksum`, which writes bytes 2 and 3 in
/// big-endian order and nothing else.
#[verifier::external_body]
pub(crate) fn message_set_checksum(message: &mut Vec<u8>, sum: u16)
    requires
        message_fits(old(message)@),
    ensures
        final(message)@ == with_be16(old(message)@, 2, sum),
{
    MutableIcmpPacket::new(message.as_mut_slice()).unwrap().set_checksum(sum)
}

/// Calls `pnet::packet::icmp::checksum`: the complement of the folded sum of
/// the message's 16-bit big-endian words, the checksum field left out of the
/// sum and a trailing odd byte taken as a high byte. `pnet` adds the words in
/// a `u32`, which cannot overflow on the 65535 bytes allowed here.
#[verifier::external_body]
pub(crate) fn message_compute_checksum(message: &[u8]) -> (sum: u16)
    requires
        message_fits(message@),
        message@.len() <= 0xffff,
    ensures
        sum == message_checksum(message@),
{
    pnet::packet::icmp::checksum(&IcmpPacket::new(message).unwrap())
}

} // verus!
