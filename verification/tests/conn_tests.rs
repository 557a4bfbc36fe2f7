use nsq_client::client::{frame_to_msg, try_frame_to_msg};
use nsq_client::codec::Response;
use nsq_client::config::{Config, NsqdConfig};
use nsq_client::conn::{cmd_fits, get_response, Conn, HandshakeAction, State};
use nsq_client::msgs::{Cmd, Fin, Mpub, Nop};

fn frame(t: u32, payload: &[u8]) -> Vec<u8> {
    let mut f = ((payload.len() + 4) as u32).to_be_bytes().to_vec();
    f.extend_from_slice(&t.to_be_bytes());
    f.extend_from_slice(payload);
    f
}

fn msg_payload(ts: i64, attempts: u16, id: &[u8], body: &[u8]) -> Vec<u8> {
    let mut p = ts.to_be_bytes().to_vec();
    p.extend_from_slice(&attempts.to_be_bytes());
    p.extend_from_slice(id);
    p.extend_from_slice(body);
    p
}

fn conn() -> Conn {
    Conn::new(Config::new(), 60000)
}

#[test]
fn new_conn_is_empty() {
    let mut c = conn();
    assert_eq!(c.state, State::Start);
    assert_eq!(c.msg_timeout, 0);
    assert!(!c.heartbeat);
    assert!(c.responses.is_empty());
    assert_eq!(c.in_flight(), 0);
    assert_eq!(c.processed(), 0);
    assert!(c.take_output().is_empty());
}

#[test]
fn decode_response_frame() {
    let mut c = conn();
    let data = frame(0, b"OK");
    let out = c.received(&data).expect("decodes");
    assert!(out.is_empty());
    assert_eq!(c.responses, vec![Response::Response("OK".to_owned())]);
}

#[test]
fn decode_error_frame() {
    let mut c = conn();
    let out = c.received(&frame(1, b"E_INVALID")).expect("decodes");
    assert!(out.is_empty());
    assert_eq!(c.responses, vec![Response::Error("E_INVALID".to_owned())]);
    assert_eq!(get_response(c.get_response(), "x".to_owned()), Err(()));
}

#[test]
fn decode_message_frame() {
    let mut c = conn();
    c.msg_timeout = 1234;
    let p = msg_payload(77, 2, b"00000000000000ff", b"Hello World");
    let out = c.received(&frame(2, &p)).expect("decodes");
    assert_eq!(out.len(), 1);
    assert_eq!(out[0].0, 1234);
    assert_eq!(&out[0].1[..], &p[..]);
    assert_eq!(c.in_flight(), 1);
    assert!(c.responses.is_empty());
}

#[test]
fn decode_message_utf8_body_then_reader_message() {
    let mut c = conn();
    let p = msg_payload(9, 1, b"00000000000000ff", "®µ¶".as_bytes());
    let mut out = c.received(&frame(2, &p)).expect("decodes");
    let m = frame_to_msg(out.remove(0)).expect("a message");
    assert_eq!(m.timeout, 0);
    assert_eq!(m.timestamp, 9);
    assert_eq!(m.attemps, 1);
    assert_eq!(m.id, "00000000000000ff");
    assert_eq!(m.body, "®µ¶".as_bytes().to_vec());
}

#[test]
fn empty_frame_means_close() {
    let closed = nsq_client::msgs::BytesMsg(0, bytes::BytesMut::new());
    assert!(frame_to_msg(closed).is_none());
}

#[test]
fn decode_heartbeat() {
    let mut c = conn();
    c.received(&frame(0, b"_heartbeat_")).expect("decodes");
    assert!(c.heartbeat);
    assert!(c.responses.is_empty());
    c.write_cmd(Nop);
    c.heartbeat_done();
    assert!(!c.heartbeat);
    assert_eq!(c.take_output(), b"NOP\n".to_vec());
}

#[test]
fn decode_frames_in_order() {
    let mut c = conn();
    let p = msg_payload(1, 1, b"0000000000000001", b"a");
    let mut data = frame(0, b"first");
    data.extend(frame(2, &p));
    data.extend(frame(1, b"second"));
    data.extend(frame(7, b"dropped"));
    let out = c.received(&data).expect("decodes");
    assert_eq!(out.len(), 1);
    assert_eq!(&out[0].1[..], &p[..]);
    assert_eq!(
        c.responses,
        vec![Response::Response("first".to_owned()), Response::Error("second".to_owned())]
    );
    // replies are taken last first
    assert_eq!(c.get_response(), Response::Error("second".to_owned()));
    assert_eq!(get_response(c.get_response(), "x".to_owned()), Ok("first".to_owned()));
}

#[test]
fn partial_frame_waits_for_more() {
    let mut c = conn();
    let whole = frame(0, b"OK then");
    let (a, b) = whole.split_at(5);
    let out = c.received(a).expect("nothing to take yet");
    assert!(out.is_empty());
    assert!(c.responses.is_empty());
    // a read shorter than the frame's size leaves the frame in the buffer
    c.received(b).expect("nothing taken");
    assert!(c.responses.is_empty());
    // a read at least as long as the frames' sizes takes them
    c.received(&frame(0, b"again")).expect("decodes");
    assert_eq!(
        c.responses,
        vec![Response::Response("OK then".to_owned()), Response::Response("again".to_owned())]
    );
}

#[test]
fn invalid_text_frame_is_refused() {
    let mut c = conn();
    assert!(c.received(&frame(0, &[0xff, 0xfe])).is_none());
    assert!(c.responses.is_empty());
}

#[test]
fn too_small_size_field_is_refused() {
    let mut c = conn();
    let mut data = 2u32.to_be_bytes().to_vec();
    data.extend_from_slice(&0u32.to_be_bytes());
    assert!(c.received(&data).is_none());
}

#[test]
fn frame_missing_its_tail_is_refused() {
    let mut c = conn();
    // the size field says 8, the buffer holds 8 bytes: decoding would run past the end
    let mut data = 8u32.to_be_bytes().to_vec();
    data.extend_from_slice(&0u32.to_be_bytes());
    assert!(c.received(&data).is_none());
}

#[test]
fn magic_and_commands_are_written_in_order() {
    let mut c = conn();
    c.magic();
    c.rdy(3);
    c.subscribe("t".to_owned(), "c".to_owned());
    assert_eq!(c.take_output(), b"  V2RDY 3\nSUB t c\n".to_vec());
    assert!(c.take_output().is_empty());
}

#[test]
fn identify_and_auth_have_bodies() {
    let mut c = conn();
    c.identify("{}".to_owned());
    c.auth("pw".to_owned());
    let mut expect = b"IDENTIFY\n".to_vec();
    expect.extend_from_slice(&[0, 0, 0, 2]);
    expect.extend_from_slice(b"{}");
    expect.extend_from_slice(b"AUTH\n");
    expect.extend_from_slice(&[0, 0, 0, 2]);
    expect.extend_from_slice(b"pw");
    assert_eq!(c.take_output(), expect);
}

#[test]
fn write_cmd_with_several_bodies() {
    let mut c = conn();
    let m = Mpub("test".to_owned(), vec![b"hello".to_vec(), b"world".to_vec()]);
    c.write_cmd(m);
    assert_eq!(
        c.take_output(),
        vec![77, 80, 85, 66, 32, 116, 101, 115, 116, 10, 0, 0, 0, 2, 0, 0, 0, 5, 104, 101, 108,
            108, 111, 0, 0, 0, 5, 119, 111, 114, 108, 100]
    );
}

#[test]
fn cmd_fits_small_commands() {
    assert!(cmd_fits(&Cmd::new("MPUB t".to_owned(), vec![vec![1], vec![2]])));
    assert!(cmd_fits(&Cmd::new("NOP".to_owned(), vec![])));
}

#[test]
fn record_sent_counts_answers() {
    let mut c = conn();
    assert!(!c.record_sent(10));
    let p = msg_payload(1, 1, b"0000000000000001", b"a");
    c.received(&frame(2, &p)).expect("decodes");
    c.write_cmd(Fin("0000000000000001".to_owned()));
    let out = c.take_output();
    assert_eq!(out, b"FIN 0000000000000001\n".to_vec());
    assert!(c.record_sent(10));
    assert_eq!(c.in_flight(), 0);
    assert_eq!(c.processed(), 1);
    assert!(!c.record_sent(11));
}

fn nsqd(tls: bool, auth: bool) -> NsqdConfig {
    NsqdConfig { tls_v1: tls, auth_required: auth, msg_timeout: 60000, ..NsqdConfig::default() }
}

#[test]
fn handshake_without_auth() {
    let mut c = conn();
    c.state = State::Identify;
    assert!(c.awaits_reply());
    assert_eq!(c.handshake_step(&nsqd(false, false), false), HandshakeAction::Continue);
    assert_eq!(c.state, State::Subscribe);
    assert_eq!(c.msg_timeout, 60000);
    assert_eq!(c.handshake_step(&nsqd(false, false), false), HandshakeAction::Continue);
    assert_eq!(c.state, State::Rdy);
    assert!(!c.awaits_reply());
}

#[test]
fn handshake_with_auth() {
    let mut c = conn();
    c.state = State::Identify;
    assert_eq!(c.handshake_step(&nsqd(false, true), true), HandshakeAction::Continue);
    assert_eq!(c.state, State::Auth);
    assert_eq!(c.handshake_step(&nsqd(false, true), true), HandshakeAction::Continue);
    assert_eq!(c.state, State::Subscribe);
}

#[test]
fn handshake_auth_without_secret() {
    let mut c = conn();
    c.state = State::Identify;
    assert_eq!(c.handshake_step(&nsqd(false, true), false), HandshakeAction::MissingSecret);
    assert_eq!(c.state, State::Identify);
}

#[test]
fn handshake_tls() {
    let mut c = conn();
    c.state = State::Identify;
    assert_eq!(c.handshake_step(&nsqd(true, false), false), HandshakeAction::StartTls);
    assert_eq!(c.state, State::Tls);
    assert_eq!(c.handshake_step(&nsqd(true, false), false), HandshakeAction::Continue);
    assert_eq!(c.state, State::Subscribe);
}

#[test]
fn handshake_commands_by_state() {
    let mut c = conn();
    c.state = State::Identify;
    c.handshake_command("{}".to_owned(), Some("pw".to_owned()), "t".to_owned(), "c".to_owned(), 5);
    let mut expect = b"IDENTIFY\n".to_vec();
    expect.extend_from_slice(&[0, 0, 0, 2]);
    expect.extend_from_slice(b"{}");
    assert_eq!(c.take_output(), expect);
    c.state = State::Auth;
    c.handshake_command("{}".to_owned(), None, "t".to_owned(), "c".to_owned(), 5);
    assert!(c.take_output().is_empty());
    c.state = State::Subscribe;
    c.handshake_command("{}".to_owned(), None, "t".to_owned(), "c".to_owned(), 5);
    assert_eq!(c.take_output(), b"SUB t c\n".to_vec());
    c.state = State::Rdy;
    c.handshake_command("{}".to_owned(), None, "t".to_owned(), "c".to_owned(), 5);
    assert_eq!(c.take_output(), b"RDY 5\n".to_vec());
    c.state = State::Started;
    c.handshake_command("{}".to_owned(), None, "t".to_owned(), "c".to_owned(), 5);
    assert!(c.take_output().is_empty());
}

#[test]
fn empty_read_decodes_nothing() {
    let mut c = conn();
    let out = c.received(&[]).expect("nothing to refuse");
    assert!(out.is_empty());
    assert!(c.responses.is_empty());
    assert!(!c.heartbeat);
    let out = c.try_decode(100).expect("nothing to refuse");
    assert!(out.is_empty());
}

#[test]
fn decode_needs_a_long_enough_read() {
    let mut c = conn();
    // the bytes are there, but the read that is decoded is shorter than a header
    let data = frame(0, b"OK");
    assert!(c.received(&data[..3]).expect("waits").is_empty());
    assert!(c.received(&data[3..]).expect("waits").is_empty());
    assert!(c.responses.is_empty());
    let out = c.try_decode(data.len()).expect("decodes");
    assert!(out.is_empty());
    assert_eq!(c.responses, vec![Response::Response("OK".to_owned())]);
}

#[test]
fn handshake_with_auth_writes_commands_in_order() {
    let mut c = conn();
    c.state = State::Identify;
    let n = nsqd(false, true);
    let mut written = Vec::new();
    for _ in 0..4 {
        c.handshake_command("{}".to_owned(), Some("pw".to_owned()), "t".to_owned(), "c".to_owned(), 1);
        written.extend(c.take_output());
        if c.awaits_reply() {
            assert_eq!(c.handshake_step(&n, true), HandshakeAction::Continue);
        }
    }
    let mut expect = b"IDENTIFY\n".to_vec();
    expect.extend_from_slice(&[0, 0, 0, 2]);
    expect.extend_from_slice(b"{}");
    expect.extend_from_slice(b"AUTH\n");
    expect.extend_from_slice(&[0, 0, 0, 2]);
    expect.extend_from_slice(b"pw");
    expect.extend_from_slice(b"SUB t c\nRDY 1\n");
    assert_eq!(written, expect);
    assert_eq!(c.state, State::Started);
}

#[test]
fn new_connection_handshake_from_start() {
    let mut c = conn();
    c.start_handshake();
    assert_eq!(c.state, State::Identify);
    let n = nsqd(false, false);
    let mut written = Vec::new();
    while c.state != State::Started {
        c.handshake_command("{}".to_owned(), None, "t".to_owned(), "c".to_owned(), 2);
        written.extend(c.take_output());
        if c.state == State::Started {
            assert!(!c.need_response);
            break;
        }
        assert!(c.need_response);
        assert!(c.awaits_reply());
        assert_eq!(c.handshake_step(&n, false), HandshakeAction::Continue);
        assert!(!c.need_response);
    }
    let mut expect = b"  V2IDENTIFY\n".to_vec();
    expect.extend_from_slice(&[0, 0, 0, 2]);
    expect.extend_from_slice(b"{}SUB t c\nRDY 2\n");
    assert_eq!(written, expect);
}

#[test]
fn start_handshake_only_moves_from_start() {
    let mut c = conn();
    c.state = State::Subscribe;
    c.start_handshake();
    assert_eq!(c.state, State::Subscribe);
    assert_eq!(c.take_output(), b"  V2".to_vec());
}

#[test]
fn started_step_answers_heartbeat_before_queued_commands() {
    let mut c = conn();
    c.heartbeat = true;
    let queued = vec![Cmd::new("FIN a".to_owned(), vec![]), Cmd::new("PUB t".to_owned(), vec![b"x".to_vec()])];
    assert!(c.started_step(queued));
    assert!(!c.heartbeat);
    assert_eq!(c.take_output(), b"NOP\nFIN a\nPUB t\n\0\0\0\x01x".to_vec());
    assert!(!c.started_step(vec![Cmd::new("CLS".to_owned(), vec![])]));
    assert_eq!(c.take_output(), b"CLS\n".to_vec());
    assert!(!c.started_step(vec![]));
    assert!(c.take_output().is_empty());
}

#[test]
fn short_frames_come_back_unchanged() {
    let short = nsq_client::msgs::BytesMsg(5, bytes::BytesMut::from(&b"abc"[..]));
    match try_frame_to_msg(short) {
        Err(f) => {
            assert_eq!(f.0, 5);
            assert_eq!(&f.1[..], b"abc");
        }
        Ok(_) => panic!("a frame of 3 bytes is no message"),
    }
    let closed = nsq_client::msgs::BytesMsg(0, bytes::BytesMut::new());
    assert!(matches!(try_frame_to_msg(closed), Ok(None)));
    let p = msg_payload(3, 4, b"0123456789abcdef", b"body");
    let full = nsq_client::msgs::BytesMsg(8, bytes::BytesMut::from(&p[..]));
    match try_frame_to_msg(full) {
        Ok(Some(m)) => {
            assert_eq!(m.timeout, 8);
            assert_eq!(m.timestamp, 3);
            assert_eq!(m.attemps, 4);
            assert_eq!(m.id, "0123456789abcdef");
            assert_eq!(m.body, b"body".to_vec());
        }
        _ => panic!("expected a message"),
    }
}

#[test]
fn bytes_msg_clone_keeps_bytes() {
    let f = nsq_client::msgs::BytesMsg(3, bytes::BytesMut::from(&b"xyz"[..]));
    let g = f.clone();
    assert_eq!(g.0, 3);
    assert_eq!(&g.1[..], b"xyz");
    assert_eq!(&f.1[..], b"xyz");
}
