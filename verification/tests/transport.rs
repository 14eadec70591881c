use bytes::Bytes;
use verso_standalone::ipc_transport::{
    close_outcome, decode_frame, encode_frame, frame_header, frame_length, read_failure, IoError,
    IoKind, OpaqueHandle, StdIoTransport, TransportError, DEFAULT_MAX_FRAME_SIZE,
};
use verso_standalone::transport_unix::{Arrival, UnixSocketTransport};

#[test]
fn roundtrip_small_frame() {
    let a = StdIoTransport::new((), ());
    let payload = Bytes::from_static(b"hello world");
    let wire = encode_frame(&payload, a.max_frame_size).unwrap();
    let recv = decode_frame(&wire, wire.len(), a.max_frame_size).unwrap();
    assert_eq!(&recv[..], b"hello world");
    close_outcome(None).unwrap();
}

#[test]
fn reject_oversize_frame() {
    let a = StdIoTransport::new((), ()).with_max_frame_size(8);
    let payload = Bytes::from_static(b"0123456789"); // 10 bytes
    let err = encode_frame(&payload, a.max_frame_size).unwrap_err();
    assert!(matches!(err, TransportError::FrameTooLarge(10)));

    let ok = Bytes::from_static(b"ok");
    let wire = encode_frame(&ok, a.max_frame_size).unwrap();
    let recv = decode_frame(&wire, wire.len(), a.max_frame_size).unwrap();
    assert_eq!(&recv[..], b"ok");
}

#[test]
fn header_is_little_endian() {
    assert_eq!(frame_header(0x0403_0201, usize::MAX), Ok([1, 2, 3, 4]));
    assert_eq!(frame_length(&[1, 2, 3, 4], usize::MAX), Ok(0x0403_0201));
    assert_eq!(frame_length(&[255; 4], usize::MAX), Ok(u32::MAX as usize));
    assert_eq!(frame_length(&[9, 0, 0, 0], 8), Err(TransportError::FrameTooLarge(9)));
    assert_eq!(frame_header(9, 8), Err(TransportError::FrameTooLarge(9)));
    let big = u32::MAX as usize + 1;
    assert_eq!(frame_header(big, usize::MAX), Err(TransportError::FrameTooLarge(big)));
    assert_eq!(DEFAULT_MAX_FRAME_SIZE, 64 * 1024 * 1024);
}

#[test]
fn frames_follow_each_other_on_a_stream() {
    let mut wire = encode_frame(&Bytes::from_static(b"one"), 100).unwrap();
    assert_eq!(wire, vec![3, 0, 0, 0, b'o', b'n', b'e']);
    let first = wire.len();
    wire.extend(encode_frame(&Bytes::new(), 100).unwrap());
    wire.extend(encode_frame(&Bytes::from_static(b"three"), 100).unwrap());
    assert_eq!(&decode_frame(&wire, wire.len(), 100).unwrap()[..], b"one");
    let rest = wire[first..].to_vec();
    assert!(decode_frame(&rest, rest.len(), 100).unwrap().is_empty());
    let rest = rest[4..].to_vec();
    assert_eq!(&decode_frame(&rest, rest.len(), 100).unwrap()[..], b"three");
    for n in 0..rest.len() {
        assert_eq!(decode_frame(&rest, n, 100).unwrap_err(), TransportError::UnexpectedEof);
    }
    assert_eq!(decode_frame(&rest, rest.len(), 4).unwrap_err(), TransportError::FrameTooLarge(5));
}

fn io(kind: IoKind) -> IoError {
    IoError { kind, message: "m".to_string() }
}

#[test]
fn stream_failures_are_told_apart() {
    assert_eq!(read_failure(io(IoKind::UnexpectedEof)), TransportError::UnexpectedEof);
    assert_eq!(read_failure(io(IoKind::Other)), TransportError::Io(io(IoKind::Other)));
    assert_eq!(close_outcome(Some(io(IoKind::NotConnected))), Ok(()));
    assert_eq!(close_outcome(Some(io(IoKind::BrokenPipe))), Ok(()));
    assert_eq!(
        close_outcome(Some(io(IoKind::Other))),
        Err(TransportError::Io(io(IoKind::Other)))
    );
    assert_eq!(TransportError::from(io(IoKind::Other)).to_text(), "io error: m");
    assert_eq!(TransportError::FrameTooLarge(1024).to_text(), "frame too large: 1024 bytes");
    assert_eq!(TransportError::UnexpectedEof.to_text(), "unexpected end of stream");
    assert_eq!(TransportError::Unsupported("fds").to_text(), "unsupported: fds");
    assert!(!StdIoTransport::new((), ()).supports_handle_passing());
}

fn socket(max: usize) -> UnixSocketTransport<()> {
    UnixSocketTransport::from_stream(()).with_max_frame_size(max)
}

#[test]
fn sockets_carry_handles_beside_one_frame() {
    let mut t = socket(16);
    assert!(t.supports_handle_passing());
    let d = t
        .send_frame_with_handles(&Bytes::from_static(b"frame"), vec![OpaqueHandle(7), OpaqueHandle(9)])
        .unwrap();
    assert_eq!(d.bytes, vec![5, 0, 0, 0, b'f', b'r', b'a', b'm', b'e']);
    t.received(&d.bytes, d.bytes.len(), d.handles).unwrap();
    match t.next_frame_with_handles().unwrap() {
        Arrival::Whole { payload, handles } => {
            assert_eq!(&payload[..], b"frame");
            assert_eq!(handles, vec![OpaqueHandle(7), OpaqueHandle(9)]);
        }
        Arrival::NeedMore { .. } => panic!("the frame is whole"),
    }
    assert!(t.pending.is_empty() && t.pending_handles.is_empty());
    let long = Bytes::from(vec![0u8; 17]);
    assert!(matches!(
        t.send_frame_with_handles(&long, vec![]),
        Err(TransportError::FrameTooLarge(17))
    ));
    t.received(&vec![17, 0, 0, 0, 1], 5, vec![]).unwrap();
    assert!(matches!(t.next_frame_with_handles(), Err(TransportError::FrameTooLarge(17))));
}

#[test]
fn sockets_put_frames_together() {
    let wire = vec![5, 0, 0, 0, b'f', b'r', b'a', b'm', b'e'];
    for cut in 1..wire.len() {
        let mut t = socket(16);
        t.received(&wire, cut, vec![OpaqueHandle(7)]).unwrap();
        match t.next_frame_with_handles().unwrap() {
            Arrival::NeedMore { wanted } => {
                assert_eq!(wanted, if cut < 4 { 4 - cut } else { wire.len() - cut });
            }
            Arrival::Whole { .. } => panic!("the frame is not whole"),
        }
        let later = wire[cut..].to_vec();
        t.received(&later, later.len(), vec![]).unwrap();
        match t.next_frame_with_handles().unwrap() {
            Arrival::Whole { payload, handles } => {
                assert_eq!(&payload[..], b"frame");
                assert_eq!(handles, vec![OpaqueHandle(7)]);
            }
            Arrival::NeedMore { .. } => panic!("the frame is whole"),
        }
    }
}

#[test]
fn sockets_keep_what_follows_a_frame() {
    let mut t = socket(16);
    let two = vec![1, 0, 0, 0, b'a', 2, 0, 0, 0, b'b', b'c', 9];
    t.received(&two, two.len(), vec![]).unwrap();
    for expected in [&b"a"[..], &b"bc"[..]] {
        match t.next_frame_with_handles().unwrap() {
            Arrival::Whole { payload, handles } => {
                assert_eq!(&payload[..], expected);
                assert!(handles.is_empty());
            }
            Arrival::NeedMore { .. } => panic!("the frame is whole"),
        }
    }
    assert!(matches!(t.next_frame_with_handles(), Ok(Arrival::NeedMore { wanted: 3 })));
    assert_eq!(t.pending, vec![9]);
    assert_eq!(t.received(&vec![], 0, vec![]), Err(TransportError::UnexpectedEof));
}
