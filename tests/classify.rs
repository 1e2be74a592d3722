use ebpfapp::hook::{ebpfapp, try_ebpfapp, HookError, XDP_ABORTED, XDP_PASS};
use ebpfapp::packet::{
    classify, has_header_at, read_be16, read_be32, ClassifyError, ClassifyOutcome,
};
use ebpfapp::queue::HandoffQueue;
use ebpfapp::record::SourceAddr;

/// An Ethernet frame with the given EtherType, followed by an IPv4 header with
/// the given protocol and source, followed by a transport header whose first
/// field is `port`, cut or padded to `len` bytes.
fn frame(ether_type: u16, proto: u8, src: [u8; 4], port: u16, len: usize) -> Vec<u8> {
    let mut f = vec![0u8; 54];
    f[0..6].copy_from_slice(&[0xff; 6]);
    f[6..12].copy_from_slice(&[0x02, 0, 0, 0, 0, 1]);
    f[12..14].copy_from_slice(&ether_type.to_be_bytes());
    f[14] = 0x45;
    f[22] = 64;
    f[23] = proto;
    f[26..30].copy_from_slice(&src);
    f[30..34].copy_from_slice(&[198, 51, 100, 7]);
    f[34..36].copy_from_slice(&port.to_be_bytes());
    f[36..38].copy_from_slice(&80u16.to_be_bytes());
    f.resize(len, 0xaa);
    f
}

#[test]
fn tcp_packet_emits_source() {
    let f = frame(0x0800, 6, [192, 0, 2, 10], 443, 54);
    assert_eq!(
        classify(&f),
        Ok(ClassifyOutcome::Emit(SourceAddr { addr: 3221225994, port: 443 }))
    );
}

#[test]
fn tcp_packet_with_payload_emits_source() {
    let f = frame(0x0800, 6, [10, 1, 2, 3], 51234, 1500);
    assert_eq!(
        classify(&f),
        Ok(ClassifyOutcome::Emit(SourceAddr { addr: 0x0a010203, port: 51234 }))
    );
}

#[test]
fn udp_packet_emits_source() {
    let f = frame(0x0800, 17, [172, 16, 0, 1], 53, 42);
    assert_eq!(
        classify(&f),
        Ok(ClassifyOutcome::Emit(SourceAddr { addr: 0xac100001, port: 53 }))
    );
}

#[test]
fn non_ipv4_frames_pass() {
    for et in [0x86ddu16, 0x0806, 0x8100, 0x0000, 0x0008, 0xffff] {
        let f = frame(et, 6, [192, 0, 2, 10], 443, 54);
        assert_eq!(classify(&f), Ok(ClassifyOutcome::Pass));
    }
    let header_only = frame(0x86dd, 0, [0; 4], 0, 14);
    assert_eq!(classify(&header_only), Ok(ClassifyOutcome::Pass));
}

#[test]
fn icmp_packet_passes() {
    let f = frame(0x0800, 1, [192, 0, 2, 10], 0, 34);
    assert_eq!(classify(&f), Ok(ClassifyOutcome::Pass));
}

#[test]
fn short_buffers_are_truncated() {
    // The bytes past the boundary would make a valid TCP frame.
    let guarded = frame(0x0800, 6, [192, 0, 2, 10], 443, 54);
    for len in 0..14 {
        assert_eq!(classify(&guarded[..len]), Err(ClassifyError::TruncatedPacket));
    }
}

#[test]
fn incomplete_ipv4_header_is_truncated() {
    let guarded = frame(0x0800, 6, [192, 0, 2, 10], 443, 54);
    for len in 14..34 {
        assert_eq!(classify(&guarded[..len]), Err(ClassifyError::TruncatedPacket));
    }
}

#[test]
fn incomplete_transport_header_is_truncated() {
    let tcp = frame(0x0800, 6, [192, 0, 2, 10], 443, 54);
    for len in 34..54 {
        assert_eq!(classify(&tcp[..len]), Err(ClassifyError::TruncatedPacket));
    }
    let udp = frame(0x0800, 17, [192, 0, 2, 10], 443, 54);
    for len in 34..42 {
        assert_eq!(classify(&udp[..len]), Err(ClassifyError::TruncatedPacket));
    }
    assert!(matches!(classify(&udp[..42]), Ok(ClassifyOutcome::Emit(_))));
}

#[test]
fn other_protocols_are_unsupported() {
    for proto in [0u8, 2, 4, 41, 47, 50, 58, 132, 255] {
        let f = frame(0x0800, proto, [192, 0, 2, 10], 443, 54);
        assert_eq!(classify(&f), Err(ClassifyError::UnsupportedProtocol));
    }
}

#[test]
fn byte_readers() {
    let b = [0x12u8, 0x34, 0x56, 0x78, 0x9a];
    assert_eq!(read_be16(&b, 0), 0x1234);
    assert_eq!(read_be16(&b, 3), 0x789a);
    assert_eq!(read_be32(&b, 1), 0x3456789a);
    assert!(has_header_at(&b, 1, 4));
    assert!(!has_header_at(&b, 2, 4));
    assert!(!has_header_at(&b, usize::MAX, 2));
    assert!(has_header_at(&b, 5, 0));
}

#[test]
fn hook_pushes_tcp_source() {
    let mut q = HandoffQueue::new(4);
    let f = frame(0x0800, 6, [192, 0, 2, 10], 443, 54);
    assert_eq!(ebpfapp(&f, &mut q), XDP_PASS);
    assert_eq!(q.len(), 1);
    assert_eq!(q.pop(), Some(SourceAddr { addr: 3221225994, port: 443 }));
}

#[test]
fn hook_ipv6_leaves_queue_unchanged() {
    let mut q = HandoffQueue::new(4);
    q.push(SourceAddr { addr: 1, port: 2 }).unwrap();
    let f = frame(0x86dd, 6, [192, 0, 2, 10], 443, 80);
    assert_eq!(ebpfapp(&f, &mut q), XDP_PASS);
    assert_eq!(q.len(), 1);
    assert_eq!(q.pop(), Some(SourceAddr { addr: 1, port: 2 }));
    assert_eq!(q.pop(), None);
}

#[test]
fn hook_icmp_leaves_queue_unchanged() {
    let mut q = HandoffQueue::new(4);
    let f = frame(0x0800, 1, [192, 0, 2, 10], 0, 60);
    assert_eq!(ebpfapp(&f, &mut q), XDP_PASS);
    assert!(q.is_empty());
}

#[test]
fn hook_aborts_on_errors() {
    let mut q = HandoffQueue::new(1);
    let short = frame(0x0800, 6, [192, 0, 2, 10], 443, 20);
    assert_eq!(
        try_ebpfapp(&short, &mut q),
        Err(HookError::Classify(ClassifyError::TruncatedPacket))
    );
    assert_eq!(ebpfapp(&short, &mut q), XDP_ABORTED);
    let gre = frame(0x0800, 47, [192, 0, 2, 10], 443, 54);
    assert_eq!(
        try_ebpfapp(&gre, &mut q),
        Err(HookError::Classify(ClassifyError::UnsupportedProtocol))
    );
    assert!(q.is_empty());
    let tcp = frame(0x0800, 6, [192, 0, 2, 10], 443, 54);
    assert_eq!(try_ebpfapp(&tcp, &mut q), Ok(XDP_PASS));
    let udp = frame(0x0800, 17, [192, 0, 2, 11], 53, 54);
    assert_eq!(try_ebpfapp(&udp, &mut q), Err(HookError::QueueFull));
    assert_eq!(ebpfapp(&udp, &mut q), XDP_PASS);
    assert_eq!(q.len(), 1);
    assert_eq!(q.pop(), Some(SourceAddr { addr: 3221225994, port: 443 }));
}

#[test]
fn fault_path_aborts() {
    assert_eq!(ebpfapp::hook::panic(), XDP_ABORTED);
}

#[test]
fn hook_full_queue_still_passes_packet() {
    let mut q = HandoffQueue::new(2);
    let a = frame(0x0800, 6, [192, 0, 2, 1], 1001, 54);
    let b = frame(0x0800, 17, [192, 0, 2, 2], 1002, 42);
    let c = frame(0x0800, 6, [192, 0, 2, 3], 1003, 60);
    assert_eq!(ebpfapp(&a, &mut q), XDP_PASS);
    assert_eq!(ebpfapp(&b, &mut q), XDP_PASS);
    assert_eq!(try_ebpfapp(&c, &mut q), Err(HookError::QueueFull));
    assert_eq!(ebpfapp(&c, &mut q), XDP_PASS);
    assert_eq!(q.len(), 2);
    assert_eq!(q.pop(), Some(SourceAddr { addr: 0xc0000201, port: 1001 }));
    assert_eq!(q.pop(), Some(SourceAddr { addr: 0xc0000202, port: 1002 }));
    assert_eq!(q.pop(), None);
}

#[test]
fn hook_sequence_queues_records_in_order() {
    let mut q = HandoffQueue::with_default_capacity();
    for i in 0..1024u32 {
        let proto = if i % 2 == 0 { 6 } else { 17 };
        let f = frame(0x0800, proto, (0x0a000000 + i).to_be_bytes(), i as u16, 54);
        assert_eq!(ebpfapp(&f, &mut q), XDP_PASS);
    }
    assert!(q.is_full());
    let extra = frame(0x0800, 6, [203, 0, 113, 9], 9, 54);
    assert_eq!(ebpfapp(&extra, &mut q), XDP_PASS);
    for i in 0..1024u32 {
        assert_eq!(q.pop(), Some(SourceAddr { addr: 0x0a000000 + i, port: i as u16 }));
    }
    assert_eq!(q.pop(), None);
}
