use glonax::transport::session::{failsafe_on_end, opens_session, remote_action, request_reply, RemoteAction};
use glonax::transport::frame::{
    Frame, FrameError, FrameMessage, Null, Request, Shutdown, Start, MAX_PAYLOAD_SIZE,
    MIN_BUFFER_SIZE,
};
use glonax::transport::{encode_packet, packet_size_accepted, Client, ConnectionOptions, Packetize};

const ALL_MESSAGES: [FrameMessage; 13] = [
    FrameMessage::Null,
    FrameMessage::Start,
    FrameMessage::Shutdown,
    FrameMessage::Request,
    FrameMessage::Instance,
    FrameMessage::Status,
    FrameMessage::Motion,
    FrameMessage::Signal,
    FrameMessage::Pose,
    FrameMessage::VMS,
    FrameMessage::GNSS,
    FrameMessage::Engine,
    FrameMessage::Error,
];

#[test]
fn message_codes() {
    assert_eq!(FrameMessage::Null.to_u8(), 0x01);
    assert_eq!(FrameMessage::Start.to_u8(), 0x10);
    assert_eq!(FrameMessage::Shutdown.to_u8(), 0x11);
    assert_eq!(FrameMessage::Request.to_u8(), 0x12);
    assert_eq!(FrameMessage::Instance.to_u8(), 0x15);
    assert_eq!(FrameMessage::Status.to_u8(), 0x16);
    assert_eq!(FrameMessage::Motion.to_u8(), 0x20);
    assert_eq!(FrameMessage::Signal.to_u8(), 0x31);
    assert_eq!(FrameMessage::Pose.to_u8(), 0x40);
    assert_eq!(FrameMessage::VMS.to_u8(), 0x41);
    assert_eq!(FrameMessage::GNSS.to_u8(), 0x42);
    assert_eq!(FrameMessage::Engine.to_u8(), 0x43);
    assert_eq!(FrameMessage::Error.to_u8(), 0xFF);
}

#[test]
fn message_code_roundtrip() {
    for message in ALL_MESSAGES {
        assert_eq!(FrameMessage::from_u8(message.to_u8()), Some(message));
    }
    for value in 0..=255u8 {
        if let Some(message) = FrameMessage::from_u8(value) {
            assert_eq!(message.to_u8(), value);
        }
    }
    assert_eq!(FrameMessage::from_u8(0x00), None);
    assert_eq!(FrameMessage::from_u8(0x13), None);
}

#[test]
fn frame_header_layout() {
    let frame = Frame::new(FrameMessage::Start, 0x0102);
    assert_eq!(frame.message, FrameMessage::Start);
    assert_eq!(frame.payload_length, 0x0102);
    assert_eq!(frame.as_slice(), &[b'L', b'X', b'R', 0x02, 0x10, 0x01, 0x02, 0, 0, 0][..]);
    assert_eq!(frame.payload_range(), 10..10 + 0x0102);
}

#[test]
fn frame_length_wraps_at_two_bytes() {
    let frame = Frame::new(FrameMessage::Null, 0x1_0005);
    assert_eq!(&frame.to_vec()[5..7], &[0x00, 0x05]);
}

#[test]
fn frame_put_appends_payload() {
    let mut frame = Frame::new(FrameMessage::Request, 1);
    frame.put(&[0x43]);
    assert_eq!(frame.to_vec(), vec![b'L', b'X', b'R', 0x02, 0x12, 0x00, 0x01, 0, 0, 0, 0x43]);
}

#[test]
fn frame_header_roundtrip() {
    for message in ALL_MESSAGES {
        for length in [0usize, 1, 255, 256, MAX_PAYLOAD_SIZE] {
            let frame = Frame::new(message, length);
            let decoded = match Frame::try_from(frame.as_slice()) {
                Ok(frame) => frame,
                Err(e) => panic!("decoding failed: {:?}", e),
            };
            assert_eq!(decoded.message, message);
            assert_eq!(decoded.payload_length, length);
            assert_eq!(decoded.as_slice(), frame.as_slice());
        }
    }
}

fn decode_error(buffer: &[u8]) -> FrameError {
    match Frame::try_from(buffer) {
        Ok(_) => panic!("frame was accepted"),
        Err(e) => e,
    }
}

#[test]
fn frame_errors() {
    let good = [b'L', b'X', b'R', 0x02, 0x10, 0x00, 0x05, 0, 0, 0];
    assert_eq!(decode_error(&good[..9]), FrameError::FrameTooSmall);
    assert_eq!(decode_error(&[]), FrameError::FrameTooSmall);

    let mut bad = good;
    bad[1] = b'Y';
    assert_eq!(decode_error(&bad), FrameError::InvalidHeader);

    let mut bad = good;
    bad[3] = 0x03;
    assert_eq!(decode_error(&bad), FrameError::VersionMismatch(3));

    let mut bad = good;
    bad[4] = 0x99;
    assert_eq!(decode_error(&bad), FrameError::InvalidMessage(0x99));

    let mut bad = good;
    bad[5] = 0x04;
    bad[6] = 0x01;
    assert_eq!(decode_error(&bad), FrameError::ExcessivePayloadLength(1025));

    let mut bad = good;
    bad[9] = 1;
    assert_eq!(decode_error(&bad), FrameError::InvalidPadding);

    // The first failing check decides the error.
    let mut bad = good;
    bad[3] = 0x01;
    bad[4] = 0x99;
    assert_eq!(decode_error(&bad), FrameError::VersionMismatch(1));

    // Trailing bytes after the header are ignored.
    let mut longer = good.to_vec();
    longer.extend_from_slice(&[1, 2, 3]);
    let frame = Frame::try_from(&longer[..]).ok().unwrap();
    assert_eq!(frame.payload_length, 5);
    assert_eq!(frame.message, FrameMessage::Start);

    // Largest length the protocol accepts.
    let mut edge = good;
    edge[5] = 0x04;
    edge[6] = 0x00;
    assert_eq!(Frame::try_from(&edge[..]).ok().unwrap().payload_length, 1024);
}

#[test]
fn start_flags_and_name() {
    let start = Start::new(Start::MODE_READ | Start::MODE_FAILSAFE, "pilot".to_string());
    assert!(start.is_read());
    assert!(!start.is_write());
    assert!(start.is_failsafe());
    assert_eq!(start.name(), "pilot");
}

#[test]
fn start_name_is_cut_to_64_characters() {
    let long: String = std::iter::repeat('é').take(70).collect();
    let start = Start::new(0, long.clone());
    assert_eq!(start.name().chars().count(), 64);
    assert_eq!(start.name(), long.chars().take(64).collect::<String>());

    let exact: String = std::iter::repeat('a').take(64).collect();
    assert_eq!(Start::new(0, exact.clone()).name(), exact);
}

#[test]
fn start_bytes() {
    let start = Start::new(Start::MODE_WRITE, "ab€".to_string());
    assert_eq!(start.to_bytes(), vec![0x02, b'a', b'b', 0xE2, 0x82, 0xAC]);
}

#[test]
fn start_roundtrip() {
    let start = Start::new(0x13, "glonax-cli/3.0".to_string());
    let decoded = Start::try_from_payload(start.to_bytes()).ok().unwrap();
    assert_eq!(decoded.name(), "glonax-cli/3.0");
    assert!(decoded.is_read() && decoded.is_write() && decoded.is_failsafe());
    assert_eq!(decoded.to_bytes(), start.to_bytes());
}

#[test]
fn start_from_invalid_utf8() {
    let decoded = Start::try_from_payload(vec![0x01, b'a', 0xFF, b'b']).ok().unwrap();
    assert!(decoded.is_read());
    assert_eq!(decoded.name(), "a\u{FFFD}b");
}

#[test]
fn start_from_long_payload() {
    let mut payload = vec![0x00];
    payload.extend(std::iter::repeat(b'x').take(100));
    let decoded = Start::try_from_payload(payload).ok().unwrap();
    assert_eq!(decoded.name().len(), 64);
}

#[test]
fn request_roundtrip() {
    for message in ALL_MESSAGES {
        let request = Request::new(message);
        assert_eq!(*request.message(), message);
        let bytes = request.to_bytes();
        assert_eq!(bytes, vec![message.to_u8()]);
        let decoded = Request::try_from_payload(bytes).ok().unwrap();
        assert_eq!(*decoded.message(), message);
    }
}

#[test]
fn request_invalid_message() {
    match Request::try_from_payload(vec![0x02]) {
        Err(e) => assert_eq!(e, FrameError::InvalidMessage(0x02)),
        Ok(_) => panic!("request was accepted"),
    }
}

#[test]
fn empty_packets() {
    assert!(Shutdown.to_bytes().is_empty());
    assert!(Null.to_bytes().is_empty());
    assert!(<Shutdown as Packetize>::to_bytes(&Shutdown).is_empty());
    assert!(<Null as Packetize>::to_bytes(&Null).is_empty());
    assert!(Shutdown::try_from_payload(vec![]).is_ok());
    assert!(Null::try_from_payload(vec![1, 2]).is_ok());
    assert_eq!(Shutdown::MESSAGE, FrameMessage::Shutdown);
    assert_eq!(Null::MESSAGE, FrameMessage::Null);
}

#[test]
fn packet_sizes() {
    assert_eq!(Request::message_size(), Some(1));
    assert_eq!(Shutdown::message_size(), Some(0));
    assert_eq!(Null::message_size(), Some(0));
    assert_eq!(Start::message_size(), None);
    assert!(packet_size_accepted::<Request>(1));
    assert!(!packet_size_accepted::<Request>(2));
    assert!(packet_size_accepted::<Null>(0));
    assert!(!packet_size_accepted::<Null>(1));
    assert!(packet_size_accepted::<Start>(0));
    assert!(packet_size_accepted::<Start>(999));
}

#[test]
fn encoded_packet_roundtrip() {
    let request = Request::new(FrameMessage::Engine);
    let wire = encode_packet(&request);
    assert_eq!(wire, vec![b'L', b'X', b'R', 0x02, 0x12, 0x00, 0x01, 0, 0, 0, 0x43]);

    let start = Start::new(Start::MODE_READ, "session".to_string());
    let wire = encode_packet(&start);
    let frame = Frame::try_from(&wire[..MIN_BUFFER_SIZE]).ok().unwrap();
    assert_eq!(frame.message, FrameMessage::Start);
    let payload = wire[frame.payload_range()].to_vec();
    assert_eq!(payload, start.to_bytes());
    let decoded = Start::try_from_payload(payload).ok().unwrap();
    assert_eq!(decoded.name(), "session");
}

#[test]
fn connection_options() {
    let options = ConnectionOptions::new();
    let start = options.start_packet("a".to_string());
    assert!(start.is_read() && !start.is_write() && !start.is_failsafe());

    let mut options = ConnectionOptions::default();
    options.write(true).failsafe(true);
    let start = options.start_packet("b".to_string());
    assert!(start.is_read() && start.is_write() && start.is_failsafe());

    options.read(false).write(false);
    let start = options.start_packet("c".to_string());
    assert!(!start.is_read() && !start.is_write() && start.is_failsafe());

    options.failsafe(false).failsafe(false);
    assert_eq!(options.start_packet(String::new()).to_bytes(), vec![0x00]);
}

#[test]
fn client_wraps_stream() {
    let mut client = Client::new(vec![1u8, 2]);
    assert_eq!(client.inner(), &vec![1, 2]);
    client.inner_mut().push(3);
    assert_eq!(client.inner(), &vec![1, 2, 3]);
}

#[test]
fn start_text() {
    let start = Start::new(Start::MODE_READ | Start::MODE_WRITE, "cli".to_string());
    assert_eq!(start.to_string(), "cli (RW)");
    let start = Start::new(Start::MODE_FAILSAFE, "x".to_string());
    assert_eq!(start.to_string(), "x (F)");
    let start = Start::new(0, String::new());
    assert_eq!(start.to_string(), " ()");
}

#[test]
fn remote_session_decisions() {
    use_remote_session();
}

fn use_remote_session() {
    assert!(opens_session(FrameMessage::Start));
    assert!(!opens_session(FrameMessage::Request));
    for message in ALL_MESSAGES {
        let reply = request_reply(message);
        let served = matches!(
            message,
            FrameMessage::Null
                | FrameMessage::Status
                | FrameMessage::Instance
                | FrameMessage::Pose
                | FrameMessage::Engine
                | FrameMessage::VMS
                | FrameMessage::GNSS
        );
        assert_eq!(reply, if served { message } else { FrameMessage::Null });
    }

    let reader = Start::new(Start::MODE_READ, "viewer".to_string());
    let writer = Start::new(Start::MODE_READ | Start::MODE_WRITE | Start::MODE_FAILSAFE, "pilot".to_string());
    assert_eq!(remote_action(FrameMessage::Request, &reader), RemoteAction::Answer);
    assert_eq!(remote_action(FrameMessage::Shutdown, &reader), RemoteAction::Close);
    assert_eq!(remote_action(FrameMessage::Motion, &reader), RemoteAction::RefuseMotion);
    assert_eq!(remote_action(FrameMessage::Motion, &writer), RemoteAction::Move);
    assert_eq!(remote_action(FrameMessage::Engine, &writer), RemoteAction::Ignore);

    assert!(failsafe_on_end(&writer, false));
    assert!(!failsafe_on_end(&writer, true));
    assert!(!failsafe_on_end(&reader, false));
    let failsafe_reader = Start::new(Start::MODE_READ | Start::MODE_FAILSAFE, "x".to_string());
    assert!(!failsafe_on_end(&failsafe_reader, false));
}

#[test]
fn frame_getters() {
    let frame = Frame::new(FrameMessage::Engine, 12);
    assert_eq!(frame.message(), FrameMessage::Engine);
    assert_eq!(frame.payload_length(), 12);
}

#[test]
fn frame_with_payload_reads_back_its_header() {
    for &message in ALL_MESSAGES.iter() {
        for &length in [0usize, 3, 1024].iter() {
            let mut frame = Frame::new(message, length);
            frame.put(&[9, 8, 7, 6, 5]);
            let bytes = frame.as_ref().to_vec();
            let decoded = Frame::try_from(&bytes[..]).ok().unwrap();
            assert_eq!(decoded.message, message);
            assert_eq!(decoded.payload_length, length);
            assert_eq!(decoded.as_ref(), &bytes[0..MIN_BUFFER_SIZE]);
        }
    }
}
