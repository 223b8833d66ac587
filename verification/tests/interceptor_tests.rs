use pnet::packet::icmp::IcmpPacket;
use rust_tier::interceptor::{
    build_echo_reply, ipv4_address, Interceptor, Verdict, CONTROL_PROTOCOL, ECHO_REPLY,
    ECHO_REQUEST,
};

/// A 28-byte echo request from 192.168.2.4 to 192.168.2.3, identifier
/// 0x1234, sequence number 1.
fn echo_request() -> Vec<u8> {
    vec![
        0x45, 0x00, 0x00, 0x1c, 0x00, 0x00, 0x00, 0x00, 0x40, 0x01, 0xf5, 0x89, 192, 168, 2, 4,
        192, 168, 2, 3, 0x08, 0x00, 0xe5, 0xca, 0x12, 0x34, 0x00, 0x01,
    ]
}

fn overlay() -> Interceptor {
    Interceptor::new(ipv4_address(192, 168, 2, 3))
}

/// The receiver's test of a checksum: all words, the checksum among them,
/// add up to 0xffff.
fn words_add_up(message: &[u8]) -> bool {
    let mut sum: u32 = 0;
    let mut i = 0;
    while i < message.len() {
        let high = (message[i] as u32) << 8;
        let low = if i + 1 < message.len() { message[i + 1] as u32 } else { 0 };
        sum += high | low;
        i += 2;
    }
    while sum >> 16 != 0 {
        sum = (sum >> 16) + (sum & 0xffff);
    }
    sum == 0xffff
}

#[test]
fn constants_are_those_of_the_protocol() {
    assert_eq!(CONTROL_PROTOCOL, 1);
    assert_eq!(ECHO_REQUEST, 8);
    assert_eq!(ECHO_REPLY, 0);
}

#[test]
fn address_is_big_endian_number() {
    assert_eq!(ipv4_address(192, 168, 2, 3), 0xc0a8_0203);
    assert_eq!(ipv4_address(0, 0, 0, 0), 0);
    assert_eq!(ipv4_address(255, 255, 255, 255), u32::MAX);
    assert_eq!(overlay().overlay_address(), 0xc0a8_0203);
}

#[test]
fn echo_request_for_overlay_is_answered() {
    let verdict = overlay().intercept(echo_request());
    let expected = vec![
        0x45, 0x00, 0x00, 0x1c, 0x00, 0x00, 0x00, 0x00, 0x40, 0x01, 0xf5, 0x89, 192, 168, 2, 3,
        192, 168, 2, 4, 0x00, 0x00, 0xed, 0xca, 0x12, 0x34, 0x00, 0x01,
    ];
    assert_eq!(verdict, Verdict::Reply(expected));
}

#[test]
fn reply_has_swapped_addresses_same_echo_fields_and_valid_checksum() {
    let request = echo_request();
    let reply = match overlay().intercept(request.clone()) {
        Verdict::Reply(bytes) => bytes,
        other => panic!("expected a reply, got {:?}", other),
    };
    assert_eq!(reply.len(), 28);
    assert_eq!(&reply[12..16], &[192, 168, 2, 3]);
    assert_eq!(&reply[16..20], &request[12..16]);
    assert_eq!(reply[20], 0);
    assert_eq!(reply[21], request[21]);
    assert_eq!(&reply[24..26], &[0x12, 0x34]);
    assert_eq!(&reply[26..28], &[0x00, 0x01]);
    assert_eq!(&reply[..12], &request[..12]);
    assert!(words_add_up(&reply[20..]));
    let stored = u16::from_be_bytes([reply[22], reply[23]]);
    let message = IcmpPacket::new(&reply[20..]).unwrap();
    assert_eq!(pnet::packet::icmp::checksum(&message), stored);
    assert_eq!(stored, 0xedca);
}

#[test]
fn frame_for_another_address_is_dropped() {
    let mut frame = echo_request();
    frame[19] = 9;
    assert_eq!(overlay().intercept(frame), Verdict::Drop);
    let other = Interceptor::new(ipv4_address(192, 168, 2, 11));
    assert_eq!(other.intercept(echo_request()), Verdict::Drop);
}

#[test]
fn destination_is_read_from_bytes_16_to_19() {
    let mut frame = echo_request();
    frame[12..16].copy_from_slice(&[192, 168, 2, 3]);
    frame[16..20].copy_from_slice(&[10, 1, 2, 3]);
    assert_eq!(overlay().intercept(frame.clone()), Verdict::Drop);
    let there = Interceptor::new(ipv4_address(10, 1, 2, 3));
    assert!(matches!(there.intercept(frame), Verdict::Reply(_)));
}

#[test]
fn frame_too_short_for_ipv4_is_forwarded_unchanged() {
    let frame: Vec<u8> = (0u8..19).collect();
    assert_eq!(overlay().intercept(frame.clone()), Verdict::Forward(frame));
    let single = vec![0x60];
    assert_eq!(overlay().intercept(single.clone()), Verdict::Forward(single));
}

#[test]
fn empty_frame_is_forwarded_unchanged() {
    assert_eq!(overlay().intercept(Vec::new()), Verdict::Forward(Vec::new()));
}

#[test]
fn twenty_bytes_are_viewed_as_ipv4() {
    let mut header = echo_request();
    header.truncate(20);
    assert_eq!(overlay().intercept(header.clone()), Verdict::Forward(header.clone()));
    header[19] = 4;
    assert_eq!(overlay().intercept(header), Verdict::Drop);
}

#[test]
fn echo_reply_for_overlay_is_forwarded_unchanged() {
    let mut frame = echo_request();
    frame[20] = 0;
    assert_eq!(overlay().intercept(frame.clone()), Verdict::Forward(frame));
}

#[test]
fn other_message_type_is_forwarded_unchanged() {
    let mut frame = echo_request();
    frame[20] = 3;
    assert_eq!(overlay().intercept(frame.clone()), Verdict::Forward(frame));
}

#[test]
fn other_protocol_is_forwarded_unchanged() {
    let mut frame = echo_request();
    frame[9] = 17;
    assert_eq!(overlay().intercept(frame.clone()), Verdict::Forward(frame));
}

#[test]
fn message_shorter_than_four_bytes_is_forwarded_unchanged() {
    let mut frame = echo_request();
    frame.truncate(23);
    frame[3] = 23;
    assert_eq!(overlay().intercept(frame.clone()), Verdict::Forward(frame));
}

#[test]
fn payload_starts_behind_the_options_and_ends_at_total_length() {
    let frame = vec![
        0x46, 0x00, 0x00, 0x21, 0x00, 0x00, 0x00, 0x00, 0x40, 0x01, 0x00, 0x00, 10, 0, 0, 7, 192,
        168, 2, 3, 1, 1, 1, 1, 0x08, 0x00, 0x00, 0x00, 0xab, 0xcd, 0x00, 0x09, 0x61, 0xee, 0xee,
    ];
    let expected = vec![
        0x46, 0x00, 0x00, 0x21, 0x00, 0x00, 0x00, 0x00, 0x40, 0x01, 0x00, 0x00, 192, 168, 2, 3,
        10, 0, 0, 7, 1, 1, 1, 1, 0x00, 0x00, 0xf3, 0x28, 0xab, 0xcd, 0x00, 0x09, 0x61, 0xee, 0xee,
    ];
    assert_eq!(overlay().intercept(frame), Verdict::Reply(expected));
}

#[test]
fn payload_is_cut_at_the_end_of_the_frame() {
    let mut frame = echo_request();
    frame[3] = 0x40;
    let reply = match overlay().intercept(frame) {
        Verdict::Reply(bytes) => bytes,
        other => panic!("expected a reply, got {:?}", other),
    };
    assert_eq!(&reply[20..], &[0x00, 0x00, 0xed, 0xca, 0x12, 0x34, 0x00, 0x01]);
}

#[test]
fn header_length_under_five_words_is_forwarded_unchanged() {
    for first in [0x40u8, 0x41, 0x44] {
        let mut frame = echo_request();
        frame[0] = first;
        assert_eq!(overlay().intercept(frame.clone()), Verdict::Forward(frame.clone()));
        frame[19] = 9;
        assert_eq!(overlay().intercept(frame.clone()), Verdict::Forward(frame));
    }
}

#[test]
fn header_that_ends_behind_the_frame_is_forwarded_unchanged() {
    let mut frame = echo_request();
    frame[0] = 0x4f;
    assert_eq!(overlay().intercept(frame.clone()), Verdict::Forward(frame.clone()));
    frame[0] = 0x48;
    assert_eq!(overlay().intercept(frame.clone()), Verdict::Forward(frame.clone()));
    frame[19] = 9;
    assert_eq!(overlay().intercept(frame.clone()), Verdict::Forward(frame));
}

#[test]
fn header_that_fills_the_frame_is_ipv4() {
    let mut frame = echo_request();
    frame[0] = 0x47;
    assert_eq!(overlay().intercept(frame.clone()), Verdict::Forward(frame.clone()));
    frame[19] = 9;
    assert_eq!(overlay().intercept(frame), Verdict::Drop);
}

#[test]
fn ipv6_frame_is_forwarded_unchanged() {
    let mut frame = vec![0u8; 48];
    frame[0] = 0x60;
    frame[4] = 0x00;
    frame[5] = 0x08;
    frame[6] = 58;
    frame[7] = 64;
    frame[8] = 0xfd;
    frame[23] = 1;
    frame[24] = 0xfd;
    frame[39] = 2;
    frame[40] = 128;
    assert_eq!(overlay().intercept(frame.clone()), Verdict::Forward(frame.clone()));
    frame[16..20].copy_from_slice(&[192, 168, 2, 3]);
    assert_eq!(overlay().intercept(frame.clone()), Verdict::Forward(frame));
}

#[test]
fn echo_request_with_another_version_is_forwarded_unchanged() {
    for first in [0x05u8, 0x35, 0x55, 0x65, 0xf5] {
        let mut frame = echo_request();
        frame[0] = first;
        assert_eq!(overlay().intercept(frame.clone()), Verdict::Forward(frame.clone()));
        assert_eq!(build_echo_reply(&frame), None);
        frame[19] = 9;
        assert_eq!(overlay().intercept(frame.clone()), Verdict::Forward(frame));
    }
}

#[test]
fn total_length_that_leaves_no_payload_is_forwarded() {
    let mut frame = echo_request();
    frame[3] = 20;
    assert_eq!(overlay().intercept(frame.clone()), Verdict::Forward(frame));
}

#[test]
fn build_echo_reply_answers_any_message_of_four_bytes() {
    let mut frame = echo_request();
    frame[9] = 17;
    frame[20] = 13;
    let reply = build_echo_reply(&frame).unwrap();
    assert_eq!(reply[20], 0);
    assert_eq!(&reply[12..16], &[192, 168, 2, 3]);
    assert_eq!(&reply[16..20], &[192, 168, 2, 4]);
    assert!(words_add_up(&reply[20..]));
}

#[test]
fn build_echo_reply_refuses_what_cannot_be_viewed() {
    assert_eq!(build_echo_reply(&[]), None);
    assert_eq!(build_echo_reply(&[0x45; 19]), None);
    let mut frame = echo_request();
    frame.truncate(23);
    assert_eq!(build_echo_reply(&frame), None);
    frame.push(0);
    assert!(build_echo_reply(&frame).is_some());
}

#[test]
fn reply_checksum_of_all_ones_message_is_zero() {
    let mut frame = echo_request();
    for byte in frame[20..].iter_mut() {
        *byte = 0xff;
    }
    frame[20] = 8;
    let reply = build_echo_reply(&frame).unwrap();
    assert_eq!(&reply[20..], &[0x00, 0xff, 0xff, 0x00, 0xff, 0xff, 0xff, 0xff]);
    assert!(words_add_up(&reply[20..]));
}
