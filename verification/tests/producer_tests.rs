use nsq_client::codec::Cmd;
use nsq_client::config::Config;
use nsq_client::error::{internal, value, Error};
use nsq_client::producer::{ConnState, ErrorStep, Producer, ProducerStep};
use nsq_client::state::{Identify, Magic, Transition};

fn line(c: Cmd) -> String {
    match c {
        Cmd::Command(s) => s,
        other => panic!("expected a line, found {:?}", other),
    }
}

fn producer() -> Producer {
    Producer::new("topic".to_owned(), "chan".to_owned(), "127.0.0.1:4150".to_owned(), None, "pw".to_owned())
}

#[test]
fn new_producer_negotiates() {
    let p = producer();
    assert_eq!(p.state(), ConnState::Neg);
    assert_eq!(p.addr(), "127.0.0.1:4150");
    assert_eq!(p.config().heartbeat_interval, 30000);
    let custom = Producer::new(
        "t".to_owned(),
        "c".to_owned(),
        "a".to_owned(),
        Some(Config::new().user_agent("me")),
        String::new(),
    );
    assert_eq!(custom.config().user_agent, Some("me".to_owned()));
}

#[test]
fn default_producer() {
    let p = Producer::default();
    assert_eq!(p.state(), ConnState::Neg);
    assert_eq!(p.addr(), "");
}

#[test]
fn producer_without_auth_starts() {
    let mut p = producer();
    assert_eq!(p.handle_response(false), ProducerStep::Started);
    assert_eq!(p.state(), ConnState::Started);
    assert_eq!(p.handle_response(false), ProducerStep::Deliver(None));
}

#[test]
fn producer_with_auth_walks_the_handshake() {
    let mut p = producer();
    assert_eq!(p.handle_response(true), ProducerStep::Authenticate);
    assert_eq!(p.state(), ConnState::Neg);
    match p.handle_auth(true).expect("AUTH") {
        Cmd::Msg(c, m) => {
            assert_eq!(c, "AUTH");
            assert_eq!(m, "pw");
        },
        other => panic!("expected AUTH, found {:?}", other),
    }
    assert_eq!(p.state(), ConnState::Sub);
    assert_eq!(p.handle_response(true), ProducerStep::Subscribe);
    assert_eq!(line(p.handle_sub(true).expect("SUB")), "SUB topic chan");
    assert_eq!(p.state(), ConnState::Ready);
    assert_eq!(p.handle_response(true), ProducerStep::Ready(0));
    assert_eq!(line(p.handle_ready(true, 0).expect("RDY")), "RDY 0");
    assert_eq!(p.state(), ConnState::Started);
}

#[test]
fn producer_publishes_and_answers_heartbeats() {
    let mut p = producer();
    match p.handle_pub(7, true, "hello") {
        Some(Cmd::Msg(c, m)) => {
            assert_eq!(c, "PUB topic");
            assert_eq!(m, "hello");
        },
        other => panic!("expected PUB, found {:?}", other),
    }
    assert_eq!(p.waiting(), &[7]);
    assert_eq!(line(p.handle_heartbeat(true).expect("NOP")), "NOP");
}

#[test]
fn publishing_while_not_connected_fails_and_queues_nothing() {
    let mut p = producer();
    assert!(p.handle_pub(1, false, "hello").is_none());
    assert!(p.waiting().is_empty());
}

#[test]
fn replies_answer_publications_oldest_first() {
    let mut p = producer();
    assert_eq!(p.handle_response(false), ProducerStep::Started);
    assert!(p.handle_pub(1, true, "a").is_some());
    assert!(p.handle_pub(2, true, "b").is_some());
    assert!(p.handle_pub(3, true, "c").is_some());
    assert_eq!(p.handle_response(false), ProducerStep::Deliver(Some(1)));
    assert_eq!(p.handle_error(true), ErrorStep::Fail(Some(2)));
    assert_eq!(p.waiting(), &[3]);
    assert_eq!(p.handle_response(false), ProducerStep::Deliver(Some(3)));
    assert_eq!(p.handle_response(false), ProducerStep::Deliver(None));
    assert_eq!(p.handle_error(true), ErrorStep::Fail(None));
}

#[test]
fn other_errors_stop_the_producer() {
    let mut p = producer();
    assert!(p.handle_pub(4, true, "a").is_some());
    assert_eq!(p.handle_error(false), ErrorStep::Stop);
    assert_eq!(p.waiting(), &[4]);
}

#[test]
fn errors_keep_their_text() {
    match internal("broken") {
        Error::Internal(s) => assert_eq!(s, "broken"),
        other => panic!("expected Internal, found {:?}", other),
    }
    let e = value("bad", Cmd::Command("NOP".to_owned()));
    assert_eq!(e.description(), "bad");
    match e {
        Error::Value(s, Some(Cmd::Command(c))) => {
            assert_eq!(s, "bad");
            assert_eq!(c, "NOP");
        },
        other => panic!("expected Value, found {:?}", other),
    }
    assert_eq!(Error::EndOfStream.description(), "End of Stream");
    assert_eq!(Error::NotConnected.description(), "Not Connected");
    assert_eq!(Error::Disconnected.description(), "Disconnected");
    assert_eq!(Error::Remote("E_BAD".to_owned()).description(), "E_BAD");
    let io: Error = std::io::Error::new(std::io::ErrorKind::Other, "x").into();
    assert!(!io.description().is_empty());
    assert!(matches!(io, Error::IO(_)));
}

#[test]
fn identify_state_flags_start_false() {
    let i = Identify::new(true, true);
    assert!(!i.tls());
    assert!(!i.auth());
    let next = Magic::new().to();
    assert!(!next.tls() && !next.auth());
}

#[test]
fn only_io_errors_have_a_cause() {
    let io: Error = std::io::Error::new(std::io::ErrorKind::Other, "x").into();
    assert_eq!(io.cause().map(|e| e.kind()), Some(std::io::ErrorKind::Other));
    assert!(Error::EndOfStream.cause().is_none());
    assert!(internal("y").cause().is_none());
}

#[test]
fn steps_write_nothing_when_not_connected() {
    let mut p = producer();
    assert!(p.handle_heartbeat(false).is_none());
    assert!(p.handle_auth(false).is_none());
    assert_eq!(p.state(), ConnState::Sub);
    assert!(p.handle_sub(false).is_none());
    assert_eq!(p.state(), ConnState::Ready);
    assert!(p.handle_ready(false, 3).is_none());
    assert_eq!(p.state(), ConnState::Started);
}
