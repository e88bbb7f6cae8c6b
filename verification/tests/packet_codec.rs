use pocket_relay_plugin::packet::{decode, encode, FramingError, Packet, PacketCodec, PacketHeader};

fn sample_packet(component: u16, command: u16, ty: u8, body: Vec<u8>) -> Packet {
    Packet { header: PacketHeader { component, command, ty }, body }
}

#[test]
fn encode_produces_exact_header_bytes() {
    let p = sample_packet(0x0005, 0x0001, 0x00, vec![0xAA, 0xBB]);
    let e = encode(&p);
    assert_eq!(e, vec![0x00, 0x05, 0x00, 0x01, 0x00, 0x00, 0x00, 0x00, 0x02, 0xAA, 0xBB]);
}

#[test]
fn round_trip_reproduces_packet() {
    let p = sample_packet(0x1234, 0xABCD, 0x7F, vec![1, 2, 3, 4, 5]);
    let e = encode(&p);
    let (opt, consumed) = decode(&e).expect("well-formed frame");
    let q = opt.expect("complete frame");
    assert_eq!(consumed, e.len());
    assert_eq!(q.header.component, 0x1234);
    assert_eq!(q.header.command, 0xABCD);
    assert_eq!(q.header.ty, 0x7F);
    assert_eq!(q.body, vec![1, 2, 3, 4, 5]);
}

#[test]
fn round_trip_empty_body() {
    let p = sample_packet(7, 9, 1, Vec::new());
    let e = encode(&p);
    assert_eq!(e.len(), 9);
    let (opt, consumed) = decode(&e).expect("well-formed frame");
    let q = opt.expect("complete frame");
    assert_eq!(consumed, 9);
    assert_eq!(q.header.component, 7);
    assert_eq!(q.header.command, 9);
    assert!(q.body.is_empty());
}

#[test]
fn round_trip_large_body() {
    let body: Vec<u8> = (0..2000u32).map(|i| (i % 256) as u8).collect();
    let p = sample_packet(0xFFFF, 0, 0xFF, body.clone());
    let e = encode(&p);
    let (opt, consumed) = decode(&e).expect("well-formed frame");
    let q = opt.expect("complete frame");
    assert_eq!(consumed, 9 + 2000);
    assert_eq!(q.body, body);
}

#[test]
fn every_split_point_decodes_exactly_one_packet() {
    let p = sample_packet(0x0005, 0x0001, 0x00, vec![9, 8, 7]);
    let e = encode(&p);
    for cut in 0..e.len() {
        // First read: only a prefix has arrived. Nothing is consumed
        // and no error is raised.
        let prefix: Vec<u8> = e[..cut].to_vec();
        let (opt, consumed) = decode(&prefix).expect("prefix is never an error");
        assert!(opt.is_none());
        assert_eq!(consumed, 0);

        // Second read: the rest arrives and the buffer holds the whole
        // frame; exactly one packet comes out, equal to the original.
        let mut buffered = prefix;
        buffered.extend_from_slice(&e[cut..]);
        let (opt, consumed) = decode(&buffered).expect("well-formed frame");
        let q = opt.expect("complete frame");
        assert_eq!(consumed, e.len());
        assert_eq!(q.header.component, p.header.component);
        assert_eq!(q.header.command, p.header.command);
        assert_eq!(q.header.ty, p.header.ty);
        assert_eq!(q.body, p.body);
    }
}

#[test]
fn short_buffer_is_incomplete() {
    let buf = vec![0x00, 0x05, 0x00];
    let (opt, consumed) = decode(&buf).expect("short buffer is not an error");
    assert!(opt.is_none());
    assert_eq!(consumed, 0);
}

#[test]
fn oversized_length_is_a_framing_error() {
    // Header announcing a body of 0x0100_0000 bytes: over the cap.
    let buf = vec![0x00, 0x05, 0x00, 0x01, 0x00, 0x01, 0x00, 0x00, 0x00];
    let r = decode(&buf);
    assert!(matches!(r, Err(FramingError::OversizedFrame)));
}

#[test]
fn decode_consumes_one_frame_and_leaves_the_rest() {
    let p = sample_packet(1, 2, 3, vec![0xEE]);
    let mut e = encode(&p);
    let frame_len = e.len();
    e.extend_from_slice(&[0x00, 0x09, 0x00]);
    let (opt, consumed) = decode(&e).expect("well-formed frame");
    assert!(opt.is_some());
    assert_eq!(consumed, frame_len);
}

#[test]
fn codec_buffers_chunks_until_a_frame_is_whole() {
    let p = sample_packet(0x0005, 0x0001, 0x00, vec![1, 2, 3]);
    let e = encode(&p);
    for cut in 0..e.len() {
        let mut codec = PacketCodec::new();
        codec.feed(&e[..cut]);
        let first = codec.next_frame().expect("prefix is never an error");
        assert!(first.is_none());
        codec.feed(&e[cut..]);
        let q = codec.next_frame().expect("well-formed frame").expect("complete frame");
        assert_eq!(q.header.component, p.header.component);
        assert_eq!(q.header.command, p.header.command);
        assert_eq!(q.body, p.body);
        // Exactly one packet: the buffer is drained.
        assert!(codec.next_frame().expect("empty buffer is fine").is_none());
    }
}

#[test]
fn codec_yields_back_to_back_frames_in_order() {
    let a = sample_packet(1, 1, 0, vec![0xA1]);
    let b = sample_packet(2, 2, 0, vec![0xB2]);
    let mut bytes = encode(&a);
    bytes.extend_from_slice(&encode(&b));
    let mut codec = PacketCodec::new();
    codec.feed(&bytes);
    let first = codec.next_frame().expect("well-formed").expect("frame present");
    assert_eq!(first.header.component, 1);
    assert_eq!(first.body, vec![0xA1]);
    let second = codec.next_frame().expect("well-formed").expect("frame present");
    assert_eq!(second.header.component, 2);
    assert_eq!(second.body, vec![0xB2]);
    assert!(codec.next_frame().expect("drained").is_none());
}
