//! One connection to nsqd: the bytes waiting to be written, the bytes read
//! and not yet decoded, the replies received, and the handshake state.

use vstd::prelude::*;
use vstd::string::*;
use vstd::utf8::*;
use vstd::slice::{slice_subrange, slice_to_vec};
use bytes::BytesMut;
use crate::buffer::{
    buf_as_slice, buf_clear, buf_contents, buf_extend, buf_len, buf_new, buf_split_to,
};
use crate::codec::{
    cmd_line, lemma_mmsg_body_size_prefix, lemma_mmsg_body_size_step, mmsg_body_size, mmsg_frame, msg_frame, write_cmd as put_cmd_line, write_magic,
    write_mmsg, write_msg, Response, ResponseView, FRAME_TYPE_ERROR, FRAME_TYPE_MESSAGE,
    FRAME_TYPE_RESPONSE, HEADER_LENGTH, HEARTBEAT,
};
use crate::config::{Config, NsqdConfig};
use crate::msgs::{Auth, BytesMsg, Cmd, Identify, Nop, NsqCmd, Rdy, Subscribe, VERSION};
use crate::text::{decimal, same_text, spaced};
use crate::wire::{be_bytes_u32, be_u32, byte_len, lemma_be_u32_roundtrip, read_i32, signed32, utf8_text};

verus! {

/// Where a connection stands in the handshake with nsqd.
#[derive(Debug, PartialEq, Eq, Structural, Clone, Copy)]
pub enum State {
    Start,
    Identify,
    TlsNegotiating,
    Tls,
    Auth,
    Subscribe,
    Rdy,
    Started,
}

/// The size field of the frame at the front of `b`: its first four bytes,
/// big-endian and signed, taken as a `usize`.
pub open spec fn frame_size_field(b: Seq<u8>) -> usize {
    signed32(be_u32(b)) as usize
}

/// The type field of the frame at the front of `b`: bytes 4..8.
pub open spec fn frame_type_field(b: Seq<u8>) -> int {
    signed32(be_u32(b.subrange(4, 8)))
}

/// Where the frame at the front of `b` ends: the size counts the type field
/// and the payload, and four bytes of size come before them.
pub open spec fn frame_end(b: Seq<u8>) -> int {
    frame_size_field(b) + 4
}

/// The payload of the frame at the front of `b`.
pub open spec fn frame_payload(b: Seq<u8>) -> Seq<u8> {
    b.subrange(8, frame_end(b))
}

/// Whether decoding goes on to take the frame at the front of `b`, when the
/// last read brought `size` bytes: there are bytes, the read and the buffer
/// both hold a header, and neither is shorter than the frame's size field.
pub open spec fn frame_ready(b: Seq<u8>, size: usize) -> bool {
    &&& b.len() > 0
    &&& size >= HEADER_LENGTH
    &&& b.len() >= HEADER_LENGTH
    &&& size >= frame_size_field(b)
    &&& b.len() >= frame_size_field(b)
}

/// Whether the frame at the front of `b` can be taken: its size covers the
/// type field, the whole frame is there, and a frame that is not a message
/// holds valid UTF-8.
pub open spec fn frame_sound(b: Seq<u8>) -> bool {
    &&& frame_size_field(b) >= 4
    &&& b.len() >= frame_end(b)
    &&& frame_type_field(b) != FRAME_TYPE_MESSAGE ==> valid_utf8(frame_payload(b))
}

/// What decoding a buffer gives: the message payloads, the replies, whether a
/// heartbeat came, and the bytes left for a later read.
pub struct DecodeOutcome {
    pub msgs: Seq<Seq<u8>>,
    pub responses: Seq<ResponseView>,
    pub heartbeat: bool,
    pub rest: Seq<u8>,
}

/// What one frame of type `t` and payload `p` adds in front of what the
/// frames after it give: a message frame its payload; a frame whose text is
/// the heartbeat a heartbeat; a response or error frame a reply with its
/// text; a frame of another type nothing.
pub open spec fn with_frame(t: int, p: Seq<u8>, tail: DecodeOutcome) -> DecodeOutcome {
    if t == FRAME_TYPE_MESSAGE {
        DecodeOutcome { msgs: seq![p] + tail.msgs, ..tail }
    } else if decode_utf8(p) == HEARTBEAT@ {
        DecodeOutcome { heartbeat: true, ..tail }
    } else if t == FRAME_TYPE_RESPONSE {
        DecodeOutcome {
            responses: seq![ResponseView::Response(decode_utf8(p))] + tail.responses,
            ..tail
        }
    } else if t == FRAME_TYPE_ERROR {
        DecodeOutcome {
            responses: seq![ResponseView::Error(decode_utf8(p))] + tail.responses,
            ..tail
        }
    } else {
        tail
    }
}

/// Decoding `b` frame by frame while `frame_ready` holds (see `with_frame`);
/// what is left when it stops is the rest.
pub open spec fn decode_outcome(b: Seq<u8>, size: usize) -> DecodeOutcome
    decreases b.len(),
{
    if frame_ready(b, size) && frame_sound(b) {
        with_frame(frame_type_field(b), frame_payload(b), decode_outcome(b.skip(frame_end(b)), size))
    } else {
        DecodeOutcome { msgs: Seq::empty(), responses: Seq::empty(), heartbeat: false, rest: b }
    }
}

/// Every frame that decoding takes from `b` can be taken (else decoding
/// would panic on it).
pub open spec fn decode_sound(b: Seq<u8>, size: usize) -> bool
    decreases b.len(),
{
    frame_ready(b, size) ==> frame_sound(b) && decode_sound(b.skip(frame_end(b)), size)
}

/// The payloads of decoded message frames.
pub open spec fn msg_payloads(out: Seq<BytesMsg>) -> Seq<Seq<u8>> {
    out.map_values(|m: BytesMsg| buf_contents(m.1))
}

/// Decoding the read bytes of `c` takes only frames that can be taken, and
/// the messages it adds to those in flight keep the count in a `u32`.
pub open spec fn decode_fits(c: ConnView, size: usize) -> bool {
    &&& decode_sound(c.read, size)
    &&& c.in_flight + decode_outcome(c.read, size).msgs.len() <= u32::MAX
}

/// `after` and `out` are what decoding the read bytes of `before` gives:
/// the undecoded rest stays, message frames come out with the message
/// timeout and count as in flight, replies are appended, a heartbeat is
/// marked; nothing else changes.
pub open spec fn decoded(before: ConnView, size: usize, after: ConnView, out: Seq<BytesMsg>) -> bool {
    let d = decode_outcome(before.read, size);
    &&& msg_payloads(out) == d.msgs
    &&& forall|i: int| 0 <= i < out.len() ==> out[i].0 == before.msg_timeout
    &&& after == ConnView {
        read: d.rest,
        responses: before.responses + d.responses,
        heartbeat: before.heartbeat || d.heartbeat,
        in_flight: (before.in_flight + d.msgs.len()) as u32,
        ..before
    }
}

/// One connection to nsqd. Its fields are open to the client that drives it;
/// the view (`ConnView`) reads each of them.
#[derive(Debug)]
pub struct Conn {
    /// The commands waiting to be written.
    pub w_buf: BytesMut,
    /// The bytes read and not yet decoded.
    pub r_buf: BytesMut,
    /// A heartbeat came and has not been answered.
    pub heartbeat: bool,
    /// The replies not yet taken.
    pub responses: Vec<Response>,
    pub config: Config<String>,
    /// Messages received and not yet answered.
    pub in_flight: u32,
    /// Messages answered.
    pub processed: u32,
    pub need_response: bool,
    pub state: State,
    pub last_time_sent: i64,
    pub msg_timeout: u64,
}

/// A connection by its contents.
pub struct ConnView {
    /// The bytes waiting to be written.
    pub write: Seq<u8>,
    /// The bytes read and not yet decoded.
    pub read: Seq<u8>,
    pub heartbeat: bool,
    /// The replies not yet taken, by their text.
    pub responses: Seq<ResponseView>,
    pub config: Config<String>,
    pub in_flight: u32,
    pub processed: u32,
    pub need_response: bool,
    pub state: State,
    pub last_time_sent: i64,
    pub msg_timeout: u64,
}

impl View for Conn {
    type V = ConnView;

    open spec fn view(&self) -> ConnView {
        ConnView {
            write: buf_contents(self.w_buf),
            read: buf_contents(self.r_buf),
            heartbeat: self.heartbeat,
            responses: self.responses@.map_values(|r: Response| r@),
            config: self.config,
            in_flight: self.in_flight,
            processed: self.processed,
            need_response: self.need_response,
            state: self.state,
            last_time_sent: self.last_time_sent,
            msg_timeout: self.msg_timeout,
        }
    }
}

impl Conn {
    /// A new connection with empty buffers, in state `Start`. The message
    /// timeout starts at 0; the client sets it from nsqd's answer, and
    /// `msg_timeout` is not used here.
    pub fn new(config: Config<String>, msg_timeout: u64) -> (r: Conn)
        ensures
            r@ == (ConnView {
                write: Seq::empty(),
                read: Seq::empty(),
                heartbeat: false,
                responses: Seq::empty(),
                config: config,
                in_flight: 0,
                processed: 0,
                need_response: false,
                state: State::Start,
                last_time_sent: 0,
                msg_timeout: 0,
            }),
    {
        let c = Conn {
            r_buf: buf_new(),
            w_buf: buf_new(),
            heartbeat: false,
            config,
            responses: Vec::new(),
            in_flight: 0,
            processed: 0,
            need_response: false,
            state: State::Start,
            last_time_sent: 0,
            msg_timeout: 0,
        };
        assert(c@.responses =~= Seq::<ResponseView>::empty());
        c
    }

    /// Takes the frames that are complete from the read buffer (see
    /// `decode_outcome`): message frames are returned with the message
    /// timeout, heartbeats set `heartbeat`, replies are appended to
    /// `responses`, and each message adds one to the messages in flight.
    pub fn decode(&mut self, size: usize) -> (out: Vec<BytesMsg>)
        requires
            decode_fits(old(self)@, size),
        ensures
            decoded(old(self)@, size, final(self)@, out@),
    {
        let ghost start = *self;
        assert(start@.read == buf_contents(start.r_buf));
        let ghost d = decode_outcome(buf_contents(self.r_buf), size);
        let mut out: Vec<BytesMsg> = Vec::new();
        loop
            invariant
                start == *old(self),
                d == decode_outcome(buf_contents(start.r_buf), size),
                decode_sound(buf_contents(self.r_buf), size),
                decode_outcome(buf_contents(self.r_buf), size).rest == d.rest,
                msg_payloads(out@) + decode_outcome(buf_contents(self.r_buf), size).msgs == d.msgs,
                forall|i: int| 0 <= i < out@.len() ==> out@[i].0 == start.msg_timeout,
                self@.responses + decode_outcome(buf_contents(self.r_buf), size).responses
                    == start@.responses + d.responses,
                (self.heartbeat || decode_outcome(buf_contents(self.r_buf), size).heartbeat) == (
                start.heartbeat || d.heartbeat),
                self.in_flight + decode_outcome(buf_contents(self.r_buf), size).msgs.len()
                    == start.in_flight + d.msgs.len(),
                start.in_flight + d.msgs.len() <= u32::MAX,
                self.w_buf == start.w_buf,
                self.config == start.config,
                self.processed == start.processed,
                self.last_time_sent == start.last_time_sent,
                self.need_response == start.need_response,
                self.state == start.state,
                self.msg_timeout == start.msg_timeout,
            decreases buf_contents(self.r_buf).len(),
        {
            let ghost cur = buf_contents(self.r_buf);
            let buf_len = buf_len(&self.r_buf);
            // the buffer is consumed, or neither the read nor the buffer holds a header
            let mut ready = buf_len != 0 && size >= HEADER_LENGTH && buf_len >= HEADER_LENGTH;
            let mut frame_size: usize = 0;
            if ready {
                // the read or the buffer is shorter than the frame's size field
                frame_size = read_i32(buf_as_slice(&self.r_buf)) as usize;
                ready = size >= frame_size && buf_len >= frame_size;
            }
            if !ready {
                assert(!frame_ready(cur, size));
                assert(decode_outcome(cur, size) == DecodeOutcome {
                    msgs: Seq::empty(),
                    responses: Seq::empty(),
                    heartbeat: false,
                    rest: cur,
                });
                assert(msg_payloads(out@) =~= d.msgs);
                assert(self@.responses =~= start@.responses + d.responses);
                return out;
            }
            assert(frame_ready(cur, size));
            assert(frame_size == frame_size_field(cur));
            let ghost tail = decode_outcome(cur.skip(frame_end(cur)), size);
            let _ = buf_split_to(&mut self.r_buf, 4);
            let type_bytes = buf_split_to(&mut self.r_buf, 4);
            assert(buf_contents(type_bytes) =~= cur.subrange(4, 8));
            let frame_type = read_i32(buf_as_slice(&type_bytes));
            let frame = buf_split_to(&mut self.r_buf, frame_size - 4);
            assert(buf_contents(frame) =~= frame_payload(cur));
            assert(buf_contents(self.r_buf) =~= cur.skip(frame_end(cur)));
            if frame_type == FRAME_TYPE_MESSAGE {
                let ghost before = out@;
                out.push(BytesMsg(self.msg_timeout, frame));
                assert(msg_payloads(out@) =~= msg_payloads(before).push(frame_payload(cur)));
                self.in_flight = self.in_flight + 1;
                continue;
            } else {
                let text = utf8_text(buf_as_slice(&frame));
                let s = text.unwrap();
                if same_text(s, HEARTBEAT) {
                    self.heartbeat = true;
                    continue;
                }
                if frame_type == FRAME_TYPE_RESPONSE {
                    let ghost before = self@.responses;
                    self.responses.push(Response::Response(s.to_owned()));
                    assert(self@.responses =~= before.push(
                        ResponseView::Response(decode_utf8(frame_payload(cur))),
                    ));
                } else if frame_type == FRAME_TYPE_ERROR {
                    let ghost before = self@.responses;
                    self.responses.push(Response::Error(s.to_owned()));
                    assert(self@.responses =~= before.push(
                        ResponseView::Error(decode_utf8(frame_payload(cur))),
                    ));
                }
            }
        }
    }

    /// Decodes as `decode` does when that cannot panic (`decode_fits`), and
    /// returns `None`, changing nothing, when it would.
    pub fn try_decode(&mut self, size: usize) -> (r: Option<Vec<BytesMsg>>)
        ensures
            r is Some <==> decode_fits(old(self)@, size),
            r matches Some(out) ==> decoded(old(self)@, size, final(self)@, out@),
            r is None ==> final(self)@ == old(self)@,
    {
        let count = decode_count(buf_as_slice(&self.r_buf), size);
        match count {
            None => None,
            Some(n) => {
                if n > (u32::MAX - self.in_flight) as usize {
                    None
                } else {
                    Some(self.decode(size))
                }
            },
        }
    }

    /// Takes the bytes of one read: they join the read buffer, which is then
    /// decoded with the read's length as `try_decode` does.
    pub fn received(&mut self, data: &[u8]) -> (r: Option<Vec<BytesMsg>>)
        ensures
            ({
                let mid = ConnView { read: old(self)@.read + data@, ..old(self)@ };
                &&& r is Some <==> decode_fits(mid, data@.len() as usize)
                &&& r matches Some(out) ==> decoded(mid, data@.len() as usize, final(self)@, out@)
                &&& r is None ==> final(self)@ == mid
            }),
    {
        buf_extend(&mut self.r_buf, data);
        let n = byte_len(data);
        self.try_decode(n)
    }

    /// Writes the protocol's magic version, `"  V2"`, with no line feed.
    pub fn magic(&mut self)
        ensures
            final(self)@ == (ConnView { write: old(self)@.write + encode_utf8("  V2"@), ..old(self)@ }),
    {
        write_magic(&mut self.w_buf, VERSION);
    }

    /// Opens the handshake: writes the magic version and, from `Start`,
    /// moves to `Identify`, where `IDENTIFY` is the next command (see
    /// `start_move`).
    pub fn start_handshake(&mut self)
        ensures
            final(self)@ == start_move(old(self)@),
    {
        self.magic();
        if self.state == State::Start {
            self.state = State::Identify;
        }
    }

    /// Writes a command: its line, then no body, one body, or several bodies
    /// after their count (see `command_bytes`).
    pub fn write_cmd<C: NsqCmd>(&mut self, msg: C)
        requires
            command_fits(msg.spec_msg()),
        ensures
            final(self)@ == (ConnView {
                write: old(self)@.write + command_bytes(msg.spec_cmd(), msg.spec_msg()),
                ..old(self)@
            }),
    {
        let msg = msg.as_cmd();
        let ghost ms = msg.msg.deep_view();
        put_cmd_line(&mut self.w_buf, msg.cmd.as_str());
        if msg.msg.len() == 0 {
            assert(self@.write =~= old(self)@.write + command_bytes(msg.cmd@, ms));
            return;
        }
        if msg.msg.len() == 1 {
            let body = msg.msg[0].clone();
            assert(body@ =~= ms[0]);
            write_msg(&mut self.w_buf, body);
            assert(self@.write =~= old(self)@.write + command_bytes(msg.cmd@, ms));
            return;
        }
        write_mmsg(&mut self.w_buf, msg.msg);
        assert(self@.write =~= old(self)@.write + command_bytes(msg.cmd@, ms));
    }

    /// Writes `IDENTIFY` with the client's configuration, as JSON, for body.
    pub fn identify(&mut self, config_json: String)
        ensures
            final(self)@ == (ConnView {
                write: old(self)@.write + command_bytes("IDENTIFY"@, seq![encode_utf8(config_json@)]),
                ..old(self)@
            }),
    {
        self.write_cmd(Identify(config_json));
    }

    /// Writes `AUTH` with the secret for body.
    pub fn auth(&mut self, secret: String)
        ensures
            final(self)@ == (ConnView {
                write: old(self)@.write + command_bytes("AUTH"@, seq![encode_utf8(secret@)]),
                ..old(self)@
            }),
    {
        self.write_cmd(Auth(secret));
    }

    /// Writes `SUB <topic> <channel>`.
    pub fn subscribe(&mut self, topic: String, channel: String)
        ensures
            final(self)@ == (ConnView {
                write: old(self)@.write + cmd_line(spaced(spaced("SUB"@, topic@), channel@)),
                ..old(self)@
            }),
    {
        self.write_cmd(Subscribe(topic, channel));
        assert(command_bytes(spaced(spaced("SUB"@, topic@), channel@), Seq::empty())
            =~= cmd_line(spaced(spaced("SUB"@, topic@), channel@)));
    }

    /// Writes `RDY <count>`.
    pub fn rdy(&mut self, rdy: u32)
        ensures
            final(self)@ == (ConnView {
                write: old(self)@.write + cmd_line(spaced("RDY"@, decimal(rdy as nat))),
                ..old(self)@
            }),
    {
        self.write_cmd(Rdy(rdy));
        assert(command_bytes(spaced("RDY"@, decimal(rdy as nat)), Seq::empty())
            =~= cmd_line(spaced("RDY"@, decimal(rdy as nat))));
    }

    /// Takes the reply received last.
    pub fn get_response(&mut self) -> (r: Response)
        requires
            old(self)@.responses.len() > 0,
        ensures
            r@ == old(self)@.responses.last(),
            final(self)@ == (ConnView { responses: old(self)@.responses.drop_last(), ..old(self)@ }),
    {
        let r = self.responses.pop().unwrap();
        assert(self@.responses =~= old(self)@.responses.drop_last());
        r
    }

    /// The heartbeat has been answered.
    pub fn heartbeat_done(&mut self)
        ensures
            final(self)@ == (ConnView { heartbeat: false, ..old(self)@ }),
    {
        self.heartbeat = false;
    }

    /// Takes the bytes waiting to be written; the write buffer is empty
    /// afterwards, as after every attempt to write it.
    pub fn take_output(&mut self) -> (r: Vec<u8>)
        ensures
            r@ == old(self)@.write,
            final(self)@ == (ConnView { write: Seq::empty(), ..old(self)@ }),
    {
        let out = slice_to_vec(buf_as_slice(&self.w_buf));
        buf_clear(&mut self.w_buf);
        out
    }

    /// Counts one answer written at time `now`: one message fewer in flight,
    /// one more processed. When there is no message in flight, or the count
    /// of processed messages is full, it returns false and changes nothing.
    pub fn record_sent(&mut self, now: i64) -> (ok: bool)
        ensures
            ok == (old(self)@.in_flight >= 1 && old(self)@.processed < u32::MAX),
            ok ==> final(self)@ == (ConnView {
                last_time_sent: now,
                in_flight: (old(self)@.in_flight - 1) as u32,
                processed: (old(self)@.processed + 1) as u32,
                ..old(self)@
            }),
            !ok ==> final(self)@ == old(self)@,
    {
        if self.in_flight < 1 || self.processed == u32::MAX {
            return false;
        }
        self.last_time_sent = now;
        self.in_flight = self.in_flight - 1;
        self.processed = self.processed + 1;
        true
    }

    /// Whether the connection's state takes a reply of nsqd.
    pub fn awaits_reply(&self) -> (r: bool)
        ensures
            r == awaits_reply(self@.state),
    {
        self.state == State::Identify || self.state == State::Tls || self.state == State::Auth
            || self.state == State::Subscribe
    }

    /// Moves the handshake on after a good reply of nsqd (see
    /// `handshake_move`); `nsqd` is nsqd's answer to `IDENTIFY`.
    pub fn handshake_step(&mut self, nsqd: &NsqdConfig, has_secret: bool) -> (r: HandshakeAction)
        ensures
            (final(self)@, r) == handshake_move(old(self)@, *nsqd, has_secret),
    {
        let auth_required = nsqd.auth_required;
        match self.state {
            State::Identify => {
                self.msg_timeout = nsqd.msg_timeout;
                if nsqd.tls_v1 {
                    self.state = State::Tls;
                    return HandshakeAction::StartTls;
                }
            },
            State::Auth => {
                self.state = State::Subscribe;
                self.need_response = false;
                return HandshakeAction::Continue;
            },
            State::Subscribe => {
                self.state = State::Rdy;
                self.need_response = false;
                return HandshakeAction::Continue;
            },
            State::Tls => {},
            _ => {
                self.need_response = false;
                return HandshakeAction::Continue;
            },
        }
        if auth_required {
            if !has_secret {
                return HandshakeAction::MissingSecret;
            }
            self.state = State::Auth;
        } else {
            self.state = State::Subscribe;
        }
        self.need_response = false;
        HandshakeAction::Continue
    }

    /// Writes the command of the current handshake state (see
    /// `handshake_bytes`), and then waits for nsqd's reply to it, or, after
    /// `RDY`, which nsqd does not answer, is started (see `command_move`).
    pub fn handshake_command(
        &mut self,
        config_json: String,
        secret: Option<String>,
        topic: String,
        channel: String,
        rdy: u32,
    )
        ensures
            final(self)@ == (ConnView {
                write: old(self)@.write + handshake_bytes(
                    old(self)@.state,
                    config_json@,
                    match secret {
                        Some(s) => Some(s@),
                        None => None,
                    },
                    topic@,
                    channel@,
                    rdy,
                ),
                ..command_move(old(self)@, secret is Some)
            }),
    {
        match self.state {
            State::Identify => {
                self.identify(config_json);
                self.need_response = true;
            },
            State::Auth => match secret {
                Some(s) => {
                    self.auth(s);
                    self.need_response = true;
                },
                None => {
                    assert(self@.write =~= old(self)@.write + Seq::<u8>::empty());
                },
            },
            State::Subscribe => {
                self.subscribe(topic, channel);
                self.need_response = true;
            },
            State::Rdy => {
                self.rdy(rdy);
                self.state = State::Started;
            },
            _ => {
                assert(self@.write =~= old(self)@.write + Seq::<u8>::empty());
            },
        }
    }

    /// Once started, writes what is due: `NOP` first when a heartbeat is
    /// waiting for its answer (which clears it), then the commands queued by
    /// the readers, in their order. Returns whether `NOP` was written.
    pub fn started_step(&mut self, queued: Vec<Cmd>) -> (nop: bool)
        requires
            forall|i: int| 0 <= i < queued.len() ==> command_fits(#[trigger] queued@[i].msg.deep_view()),
        ensures
            nop == old(self)@.heartbeat,
            final(self)@ == (ConnView {
                write: old(self)@.write + (if nop { cmd_line("NOP"@) } else { Seq::empty() })
                    + cmds_bytes(queued@),
                heartbeat: false,
                ..old(self)@
            }),
    {
        let nop = self.heartbeat;
        if nop {
            self.write_cmd(Nop);
            self.heartbeat_done();
        }
        let ghost base = self@.write;
        assert(base =~= old(self)@.write + (if nop { cmd_line("NOP"@) } else { Seq::empty() }));
        let mut rest = queued;
        let mut k: usize = 0;
        let n = rest.len();
        while k < n
            invariant
                n == queued.len(),
                0 <= k <= n,
                rest@ == queued@.skip(k as int),
                forall|i: int| 0 <= i < queued.len() ==> command_fits(#[trigger] queued@[i].msg.deep_view()),
                self@ == (ConnView {
                    write: base + cmds_bytes(queued@.take(k as int)),
                    heartbeat: false,
                    ..old(self)@
                }),
            decreases n - k,
        {
            let c = rest.remove(0);
            assert(c == queued@[k as int]);
            let ghost before = self@.write;
            self.write_cmd(c);
            proof {
                assert(queued@.take(k as int + 1).drop_last() =~= queued@.take(k as int));
                assert(queued@.take(k as int + 1).last() == queued@[k as int]);
                assert(self@.write =~= base + cmds_bytes(queued@.take(k as int + 1)));
            }
            assert(rest@ =~= queued@.skip(k as int + 1));
            k = k + 1;
        }
        assert(queued@.take(n as int) =~= queued@);
        nop
    }

    /// Messages received and not yet answered.
    pub fn in_flight(&self) -> (r: u32)
        ensures
            r == self@.in_flight,
    {
        self.in_flight
    }

    /// Messages answered.
    pub fn processed(&self) -> (r: u32)
        ensures
            r == self@.processed,
    {
        self.processed
    }
}

/// What the client does after a step of the handshake.
#[derive(Debug, PartialEq, Eq, Structural, Clone, Copy)]
pub enum HandshakeAction {
    /// The handshake goes on.
    Continue,
    /// nsqd asks for TLS: the connection is now in state `Tls`, and TLS has
    /// to be set up on the socket before the handshake goes on.
    StartTls,
    /// nsqd requires authentication and the client has no secret: the client
    /// stops.
    MissingSecret,
}

/// What writing a handshake command does besides the bytes: after
/// `IDENTIFY`, `AUTH` (when there is a secret to send) and `SUB` the
/// connection waits for nsqd's reply; after `RDY` it is started; elsewhere
/// nothing changes.
pub open spec fn command_move(c: ConnView, has_secret: bool) -> ConnView {
    match c.state {
        State::Identify => ConnView { need_response: true, ..c },
        State::Auth => if has_secret {
            ConnView { need_response: true, ..c }
        } else {
            c
        },
        State::Subscribe => ConnView { need_response: true, ..c },
        State::Rdy => ConnView { state: State::Started, ..c },
        _ => c,
    }
}

/// Opening the handshake: the magic version is written, and a connection in
/// `Start` moves to `Identify`.
pub open spec fn start_move(c: ConnView) -> ConnView {
    ConnView {
        write: c.write + encode_utf8("  V2"@),
        state: if c.state == State::Start { State::Identify } else { c.state },
        ..c
    }
}

/// The states in which a reply of nsqd moves the handshake on.
pub open spec fn awaits_reply(s: State) -> bool {
    s == State::Identify || s == State::Tls || s == State::Auth || s == State::Subscribe
}

/// After nsqd's answer, authentication follows when nsqd requires it (and
/// the client has a secret), else subscription.
pub open spec fn after_negotiation(c: ConnView, auth_required: bool, has_secret: bool) -> (
    ConnView,
    HandshakeAction,
) {
    if auth_required {
        if has_secret {
            (ConnView { state: State::Auth, need_response: false, ..c }, HandshakeAction::Continue)
        } else {
            (c, HandshakeAction::MissingSecret)
        }
    } else {
        (ConnView { state: State::Subscribe, need_response: false, ..c }, HandshakeAction::Continue)
    }
}

/// The handshake's move on a good reply of nsqd, by state: `Identify` takes
/// nsqd's message timeout and goes to TLS when nsqd asks for it, else on as
/// `after_negotiation` says; `Tls` goes on as `after_negotiation` says;
/// `Auth` goes to `Subscribe`; `Subscribe` goes to `Rdy`; any other state
/// stays. Every move but the one to TLS clears `need_response`.
pub open spec fn handshake_move(c: ConnView, nsqd: NsqdConfig, has_secret: bool) -> (
    ConnView,
    HandshakeAction,
) {
    match c.state {
        State::Identify => {
            let c1 = ConnView { msg_timeout: nsqd.msg_timeout, ..c };
            if nsqd.tls_v1 {
                (ConnView { state: State::Tls, ..c1 }, HandshakeAction::StartTls)
            } else {
                after_negotiation(c1, nsqd.auth_required, has_secret)
            }
        },
        State::Tls => after_negotiation(c, nsqd.auth_required, has_secret),
        State::Auth => (
            ConnView { state: State::Subscribe, need_response: false, ..c },
            HandshakeAction::Continue,
        ),
        State::Subscribe => (
            ConnView { state: State::Rdy, need_response: false, ..c },
            HandshakeAction::Continue,
        ),
        _ => (ConnView { need_response: false, ..c }, HandshakeAction::Continue),
    }
}


/// The bytes the handshake writes in a state: the configuration in
/// `Identify`, the secret in `Auth` when there is one, the subscription in
/// `Subscribe`, the ready count in `Rdy`, and nothing elsewhere.
pub open spec fn handshake_bytes(
    state: State,
    config_json: Seq<char>,
    secret: Option<Seq<char>>,
    topic: Seq<char>,
    channel: Seq<char>,
    rdy: u32,
) -> Seq<u8> {
    match state {
        State::Identify => command_bytes("IDENTIFY"@, seq![encode_utf8(config_json)]),
        State::Auth => match secret {
            Some(s) => command_bytes("AUTH"@, seq![encode_utf8(s)]),
            None => Seq::empty(),
        },
        State::Subscribe => cmd_line(spaced(spaced("SUB"@, topic), channel)),
        State::Rdy => cmd_line(spaced("RDY"@, decimal(rdy as nat))),
        _ => Seq::empty(),
    }
}

/// The bytes of a command as it is written: the line, then no body, one
/// body with its length, or several bodies after their count.
pub open spec fn command_bytes(cmd: Seq<char>, msgs: Seq<Seq<u8>>) -> Seq<u8> {
    cmd_line(cmd) + if msgs.len() == 0 {
        Seq::empty()
    } else if msgs.len() == 1 {
        msg_frame(msgs[0])
    } else {
        mmsg_frame(msgs)
    }
}

/// The bytes of several commands written one after the other.
pub open spec fn cmds_bytes(cs: Seq<Cmd>) -> Seq<u8>
    decreases cs.len(),
{
    if cs.len() == 0 {
        Seq::empty()
    } else {
        cmds_bytes(cs.drop_last()) + command_bytes(cs.last().cmd@, cs.last().msg.deep_view())
    }
}

/// The size of several bodies fits the 32-bit signed integer it is summed in.
pub open spec fn command_fits(msgs: Seq<Seq<u8>>) -> bool {
    msgs.len() > 1 ==> mmsg_body_size(msgs) <= i32::MAX
}

/// Whether a command's bodies can be written (`command_fits`).
pub fn cmd_fits(cmd: &Cmd) -> (r: bool)
    ensures
        r == command_fits(cmd.msg.deep_view()),
{
    let ghost ms = cmd.msg.deep_view();
    let n = cmd.msg.len();
    if n <= 1 {
        return true;
    }
    let mut total: usize = 4;
    let mut i: usize = 0;
    while i < n
        invariant
            n == cmd.msg.len(),
            n > 1,
            ms == cmd.msg.deep_view(),
            0 <= i <= n,
            total as int == mmsg_body_size(ms.take(i as int)),
            total <= i32::MAX,
        decreases n - i,
    {
        proof {
            lemma_mmsg_body_size_step(ms, i as int);
            assert(ms[i as int] =~= cmd.msg[i as int]@);
        }
        let l = cmd.msg[i].len();
        assert(ms[i as int].len() == l);
        if l > i32::MAX as usize - 4 || total > i32::MAX as usize - 4 - l {
            proof {
                lemma_mmsg_body_size_prefix(ms, i as int + 1);
            }
            return false;
        }
        total = total + l + 4;
        i = i + 1;
    }
    assert(ms.take(n as int) =~= ms);
    true
}

/// The number of message frames decoding `b` takes, when it takes only
/// frames that can be taken; `None` when it would meet one that cannot.
fn decode_count(b: &[u8], size: usize) -> (r: Option<usize>)
    ensures
        r is Some <==> decode_sound(b@, size),
        r matches Some(n) ==> n == decode_outcome(b@, size).msgs.len(),
{
    let len = byte_len(b);
    let mut pos: usize = 0;
    let mut count: usize = 0;
    assert(b@.skip(0) =~= b@);
    loop
        invariant
            len as int == b@.len(),
            len <= isize::MAX,
            0 <= pos <= len,
            count * 8 <= pos,
            decode_sound(b@, size) == decode_sound(b@.skip(pos as int), size),
            decode_sound(b@.skip(pos as int), size) ==> decode_outcome(b@, size).msgs.len()
                == count + decode_outcome(b@.skip(pos as int), size).msgs.len(),
        decreases len - pos,
    {
        let ghost cur = b@.skip(pos as int);
        let rem = len - pos;
        let mut ready = rem != 0 && size >= HEADER_LENGTH && rem >= HEADER_LENGTH;
        let mut fs: usize = 0;
        if ready {
            let head = slice_subrange(b, pos, len);
            assert(head@ =~= cur);
            fs = read_i32(head) as usize;
            ready = size >= fs && rem >= fs;
        }
        if !ready {
            assert(!frame_ready(cur, size));
            return Some(count);
        }
        assert(frame_ready(cur, size));
        if fs < 4 || rem - 4 < fs {
            assert(!frame_sound(cur));
            return None;
        }
        let type_part = slice_subrange(b, pos + 4, pos + 8);
        assert(type_part@ =~= cur.subrange(4, 8));
        let frame_type = read_i32(type_part);
        if frame_type != FRAME_TYPE_MESSAGE {
            let payload = slice_subrange(b, pos + 8, pos + fs + 4);
            assert(payload@ =~= frame_payload(cur));
            if utf8_text(payload).is_none() {
                return None;
            }
        } else {
            count = count + 1;
        }
        proof {
            lemma_decode_step(cur, size);
            assert(cur.skip(frame_end(cur)) =~= b@.skip(pos + fs + 4));
        }
        pos = pos + fs + 4;
    }
}

proof fn lemma_decode_step(b: Seq<u8>, size: usize)
    requires
        frame_ready(b, size),
        frame_sound(b),
    ensures
        frame_end(b) >= 8,
        decode_sound(b, size) == decode_sound(b.skip(frame_end(b)), size),
        decode_outcome(b, size).msgs.len() == decode_outcome(b.skip(frame_end(b)), size).msgs.len()
            + if frame_type_field(b) == FRAME_TYPE_MESSAGE { 1int } else { 0int },
{
}

/// The text of a reply: `Ok` with the text of a response, `Err` for an error.
pub fn get_response(resp: Response, expect: String) -> (r: Result<String, ()>)
    ensures
        match resp@ {
            ResponseView::Response(s) => r matches Ok(t) && t@ == s,
            ResponseView::Error(_) => r is Err,
        },
{
    match resp {
        Response::Response(r) => Ok(r),
        Response::Error(_e) => Err(()),
    }
}

/// A frame as nsqd sends it: the size of type and payload, the type, then
/// the payload, sizes and type as four big-endian bytes.
pub open spec fn frame_bytes(frame_type: u32, payload: Seq<u8>) -> Seq<u8> {
    be_bytes_u32((payload.len() + 4) as u32) + be_bytes_u32(frame_type) + payload
}

/// A complete frame at the front of the read bytes is taken whole, when the
/// read that brought it is at least a header long and not shorter than the
/// frame's size: decoding gives what the frame gives (`with_frame`) in front
/// of what the bytes after it give, and can panic only where decoding those
/// bytes can.
pub proof fn law_decode_frame(frame_type: u32, payload: Seq<u8>, rest: Seq<u8>, size: usize)
    requires
        payload.len() + 4 <= i32::MAX,
        frame_type <= i32::MAX,
        size >= HEADER_LENGTH,
        size >= payload.len() + 4,
        frame_type != FRAME_TYPE_MESSAGE ==> valid_utf8(payload),
    ensures
        decode_sound(frame_bytes(frame_type, payload) + rest, size) == decode_sound(rest, size),
        decode_outcome(frame_bytes(frame_type, payload) + rest, size) == with_frame(
            frame_type as int,
            payload,
            decode_outcome(rest, size),
        ),
{
    let n = (payload.len() + 4) as u32;
    let b = frame_bytes(frame_type, payload) + rest;
    lemma_be_u32_roundtrip(n);
    lemma_be_u32_roundtrip(frame_type);
    assert(b.subrange(0, 4) =~= be_bytes_u32(n));
    assert(be_u32(b) == be_u32(b.subrange(0, 4)));
    assert(b.subrange(4, 8) =~= be_bytes_u32(frame_type));
    assert(frame_size_field(b) as int == payload.len() + 4);
    assert(frame_type_field(b) == frame_type as int);
    assert(frame_payload(b) =~= payload);
    assert(b.skip(frame_end(b)) =~= rest);
}

/// A buffer with nothing in it decodes to nothing and cannot panic.
pub proof fn law_decode_empty(size: usize)
    ensures
        decode_sound(Seq::empty(), size),
        decode_outcome(Seq::empty(), size) == (DecodeOutcome {
            msgs: Seq::empty(),
            responses: Seq::empty(),
            heartbeat: false,
            rest: Seq::empty(),
        }),
{
}

/// Without TLS and without authentication the handshake goes from
/// `Identify` to `Subscribe` to `Rdy`, taking nsqd's message timeout.
pub proof fn law_handshake_plain(c: ConnView, nsqd: NsqdConfig, has_secret: bool)
    requires
        c.state == State::Identify,
        !nsqd.tls_v1,
        !nsqd.auth_required,
    ensures
        ({
            let (c1, a1) = handshake_move(c, nsqd, has_secret);
            let (c2, a2) = handshake_move(c1, nsqd, has_secret);
            &&& a1 == HandshakeAction::Continue && c1.state == State::Subscribe
            &&& a2 == HandshakeAction::Continue && c2.state == State::Rdy
            &&& c2.msg_timeout == nsqd.msg_timeout
        }),
{
}

/// With authentication required and a secret, the handshake goes from
/// `Identify` to `Auth` to `Subscribe` to `Rdy`; without a secret it stops
/// at `Identify`.
pub proof fn law_handshake_auth(c: ConnView, nsqd: NsqdConfig, has_secret: bool)
    requires
        c.state == State::Identify,
        !nsqd.tls_v1,
        nsqd.auth_required,
    ensures
        ({
            let (c1, a1) = handshake_move(c, nsqd, has_secret);
            let (c2, a2) = handshake_move(c1, nsqd, has_secret);
            let (c3, a3) = handshake_move(c2, nsqd, has_secret);
            &&& has_secret ==> a1 == HandshakeAction::Continue && c1.state == State::Auth
                && c2.state == State::Subscribe && c3.state == State::Rdy
            &&& !has_secret ==> a1 == HandshakeAction::MissingSecret && c1.state == State::Identify
        }),
{
}

/// Over a plain connection, the handshake from `Identify` writes, one state
/// after the other, `IDENTIFY` with the configuration, then `AUTH` with the
/// secret only when nsqd requires authentication, then
/// `SUB <topic> <channel>`, then `RDY <count>`, and ends in `Rdy`. A new
/// connection reaches `Identify` by `start_handshake` (see
/// `law_handshake_from_start`).
pub proof fn law_handshake_commands(
    c: ConnView,
    nsqd: NsqdConfig,
    config_json: Seq<char>,
    secret: Option<Seq<char>>,
    topic: Seq<char>,
    channel: Seq<char>,
    rdy: u32,
)
    requires
        c.state == State::Identify,
        !nsqd.tls_v1,
        nsqd.auth_required ==> secret is Some,
    ensures
        ({
            let has_secret = secret is Some;
            let (c1, a1) = handshake_move(c, nsqd, has_secret);
            let (c2, a2) = handshake_move(c1, nsqd, has_secret);
            let (c3, _) = handshake_move(c2, nsqd, has_secret);
            let b0 = handshake_bytes(c.state, config_json, secret, topic, channel, rdy);
            let b1 = handshake_bytes(c1.state, config_json, secret, topic, channel, rdy);
            let b2 = handshake_bytes(c2.state, config_json, secret, topic, channel, rdy);
            let b3 = handshake_bytes(c3.state, config_json, secret, topic, channel, rdy);
            let sub = cmd_line(spaced(spaced("SUB"@, topic), channel));
            let ready = cmd_line(spaced("RDY"@, decimal(rdy as nat)));
            let ident = command_bytes("IDENTIFY"@, seq![encode_utf8(config_json)]);
            &&& a1 == HandshakeAction::Continue && a2 == HandshakeAction::Continue
            &&& nsqd.auth_required ==> {
                &&& c3.state == State::Rdy
                &&& b0 + b1 + b2 + b3 == ident + command_bytes(
                    "AUTH"@,
                    seq![encode_utf8(secret->0)],
                ) + sub + ready
            }
            &&& !nsqd.auth_required ==> {
                &&& c2.state == State::Rdy
                &&& b0 + b1 + b2 == ident + sub + ready
            }
        }),
{
}

/// A new connection, opened with `start_handshake`, writes the magic version
/// and stands in `Identify`, from which `law_handshake_commands` goes on:
/// over a plain connection the bytes written are the magic version,
/// `IDENTIFY`, `AUTH` only when nsqd requires it, `SUB`, then `RDY`. After
/// each command but `RDY` the connection waits for nsqd's reply before the
/// next; after `RDY` it is started.
pub proof fn law_handshake_from_start(
    config: Config<String>,
    nsqd: NsqdConfig,
    config_json: Seq<char>,
    secret: Option<Seq<char>>,
    topic: Seq<char>,
    channel: Seq<char>,
    rdy: u32,
)
    requires
        !nsqd.tls_v1,
        nsqd.auth_required ==> secret is Some,
    ensures
        ({
            let c = ConnView {
                write: Seq::empty(),
                read: Seq::empty(),
                heartbeat: false,
                responses: Seq::empty(),
                config: config,
                in_flight: 0,
                processed: 0,
                need_response: false,
                state: State::Start,
                last_time_sent: 0,
                msg_timeout: 0,
            };
            let c0 = start_move(c);
            let has_secret = secret is Some;
            let (c1, _) = handshake_move(c0, nsqd, has_secret);
            let (c2, _) = handshake_move(c1, nsqd, has_secret);
            let (c3, _) = handshake_move(c2, nsqd, has_secret);
            let b0 = handshake_bytes(c0.state, config_json, secret, topic, channel, rdy);
            let b1 = handshake_bytes(c1.state, config_json, secret, topic, channel, rdy);
            let b2 = handshake_bytes(c2.state, config_json, secret, topic, channel, rdy);
            let b3 = handshake_bytes(c3.state, config_json, secret, topic, channel, rdy);
            let sub = cmd_line(spaced(spaced("SUB"@, topic), channel));
            let ready = cmd_line(spaced("RDY"@, decimal(rdy as nat)));
            let ident = command_bytes("IDENTIFY"@, seq![encode_utf8(config_json)]);
            &&& c0.state == State::Identify
            &&& c0.write == encode_utf8("  V2"@)
            &&& command_move(c0, has_secret).need_response
            &&& command_move(c1, has_secret).need_response
            &&& nsqd.auth_required ==> {
                &&& c3.state == State::Rdy
                &&& command_move(c2, has_secret).need_response
                &&& command_move(c3, has_secret).state == State::Started
                &&& c0.write + b0 + b1 + b2 + b3 == encode_utf8("  V2"@) + ident + command_bytes(
                    "AUTH"@,
                    seq![encode_utf8(secret->0)],
                ) + sub + ready
            }
            &&& !nsqd.auth_required ==> {
                &&& c2.state == State::Rdy
                &&& command_move(c2, has_secret).state == State::Started
                &&& c0.write + b0 + b1 + b2 == encode_utf8("  V2"@) + ident + sub + ready
            }
        }),
{
    let c = ConnView {
        write: Seq::empty(),
        read: Seq::empty(),
        heartbeat: false,
        responses: Seq::empty(),
        config: config,
        in_flight: 0,
        processed: 0,
        need_response: false,
        state: State::Start,
        last_time_sent: 0,
        msg_timeout: 0,
    };
    let c0 = start_move(c);
    assert(c0.write =~= encode_utf8("  V2"@));
    law_handshake_commands(c0, nsqd, config_json, secret, topic, channel, rdy);
    let has_secret = secret is Some;
    let (c1, _) = handshake_move(c0, nsqd, has_secret);
    let (c2, _) = handshake_move(c1, nsqd, has_secret);
    let (c3, _) = handshake_move(c2, nsqd, has_secret);
    let b0 = handshake_bytes(c0.state, config_json, secret, topic, channel, rdy);
    let b1 = handshake_bytes(c1.state, config_json, secret, topic, channel, rdy);
    let b2 = handshake_bytes(c2.state, config_json, secret, topic, channel, rdy);
    let b3 = handshake_bytes(c3.state, config_json, secret, topic, channel, rdy);
    assert(c0.write + b0 + b1 + b2 + b3 =~= c0.write + (b0 + b1 + b2 + b3));
    assert(c0.write + b0 + b1 + b2 =~= c0.write + (b0 + b1 + b2));
}

/// nsqd answers after `IDENTIFY`, after the TLS upgrade, after `AUTH` and
/// after `SUB`, and the client takes that reply before the handshake moves
/// on; it answers nothing in `Start`, `TlsNegotiating`, `Rdy` or `Started`.
pub proof fn law_awaits_reply_states()
    ensures
        awaits_reply(State::Identify),
        awaits_reply(State::Tls),
        awaits_reply(State::Auth),
        awaits_reply(State::Subscribe),
        !awaits_reply(State::Start),
        !awaits_reply(State::TlsNegotiating),
        !awaits_reply(State::Rdy),
        !awaits_reply(State::Started),
{
}

/// nsqd's answer to `IDENTIFY` sets the message timeout, whether or not
/// TLS follows and whether or not authentication can go on; the other
/// fields but the state and `need_response` stay as they were.
pub proof fn law_identify_takes_timeout(c: ConnView, nsqd: NsqdConfig, has_secret: bool)
    requires
        c.state == State::Identify,
    ensures
        ({
            let (c1, a) = handshake_move(c, nsqd, has_secret);
            &&& c1.msg_timeout == nsqd.msg_timeout
            &&& c1.write == c.write && c1.read == c.read && c1.responses == c.responses
            &&& c1.in_flight == c.in_flight && c1.processed == c.processed
            &&& c1.heartbeat == c.heartbeat && c1.config == c.config
            &&& nsqd.tls_v1 ==> a == HandshakeAction::StartTls && c1.state == State::Tls
        }),
{
}

/// After the TLS upgrade, nsqd's reply moves the handshake on as after a
/// plain `IDENTIFY` answer: to `Auth` when nsqd requires authentication and
/// the client has a secret, stopping with `MissingSecret` (and staying in
/// `Tls`) when it has none, and to `Subscribe` when nsqd requires none. The
/// message timeout taken from `IDENTIFY` stays.
pub proof fn law_handshake_tls(c: ConnView, nsqd: NsqdConfig, has_secret: bool)
    requires
        c.state == State::Tls,
    ensures
        ({
            let (c1, a) = handshake_move(c, nsqd, has_secret);
            &&& c1.msg_timeout == c.msg_timeout
            &&& nsqd.auth_required && has_secret ==> a == HandshakeAction::Continue && c1.state
                == State::Auth && !c1.need_response
            &&& nsqd.auth_required && !has_secret ==> a == HandshakeAction::MissingSecret && c1
                == c
            &&& !nsqd.auth_required ==> a == HandshakeAction::Continue && c1.state
                == State::Subscribe && !c1.need_response
        }),
{
}

/// The whole handshake over TLS: from `Identify`, nsqd's answer asks for TLS;
/// after the upgrade come `Auth` (when nsqd requires it and there is a
/// secret), `Subscribe`, then `Rdy`, and the message timeout is nsqd's.
pub proof fn law_handshake_over_tls(c: ConnView, nsqd: NsqdConfig)
    requires
        c.state == State::Identify,
        nsqd.tls_v1,
    ensures
        ({
            let (c1, a1) = handshake_move(c, nsqd, true);
            let (c2, a2) = handshake_move(c1, nsqd, true);
            let (c3, _) = handshake_move(c2, nsqd, true);
            let (c4, _) = handshake_move(c3, nsqd, true);
            &&& a1 == HandshakeAction::StartTls && c1.state == State::Tls
            &&& a2 == HandshakeAction::Continue
            &&& nsqd.auth_required ==> c2.state == State::Auth && c3.state == State::Subscribe
                && c4.state == State::Rdy
            &&& !nsqd.auth_required ==> c2.state == State::Subscribe && c3.state == State::Rdy
            &&& c4.msg_timeout == nsqd.msg_timeout
        }),
{
}

/// A message frame at the front of the read bytes gives its payload as the
/// first message, in front of the messages of the frames after it; the
/// replies, the heartbeat and the rest are those of the frames after it.
pub proof fn law_decode_message_first(payload: Seq<u8>, rest: Seq<u8>, size: usize)
    requires
        payload.len() + 4 <= i32::MAX,
        size >= HEADER_LENGTH,
        size >= payload.len() + 4,
    ensures
        ({
            let d = decode_outcome(frame_bytes(2, payload) + rest, size);
            let t = decode_outcome(rest, size);
            &&& d.msgs == seq![payload] + t.msgs
            &&& d.msgs[0] == payload
            &&& d.responses == t.responses
            &&& d.heartbeat == t.heartbeat
            &&& d.rest == t.rest
        }),
{
    law_decode_frame(2, payload, rest, size);
}

/// Two message frames read together come out in the order they were sent,
/// and nothing else comes of them.
pub proof fn law_decode_two_messages(a: Seq<u8>, b: Seq<u8>, size: usize)
    requires
        a.len() + 4 <= i32::MAX,
        b.len() + 4 <= i32::MAX,
        size >= HEADER_LENGTH,
        size >= a.len() + 4,
        size >= b.len() + 4,
    ensures
        ({
            let d = decode_outcome(frame_bytes(2, a) + frame_bytes(2, b), size);
            &&& d.msgs == seq![a, b]
            &&& d.responses.len() == 0
            &&& !d.heartbeat
            &&& d.rest.len() == 0
        }),
{
    let fb = frame_bytes(2, b);
    law_decode_empty(size);
    law_decode_message_first(b, Seq::empty(), size);
    assert(fb + Seq::<u8>::empty() =~= fb);
    law_decode_message_first(a, fb, size);
    assert(seq![a] + seq![b] =~= seq![a, b]);
    assert(seq![b] + Seq::<Seq<u8>>::empty() =~= seq![b]);
}

/// A response frame whose text is not the heartbeat gives that text as the
/// first reply, in front of the replies of the frames after it; an error
/// frame the same as an error; a heartbeat frame marks the heartbeat. None
/// of them gives a message.
pub proof fn law_decode_reply_first(frame_type: u32, payload: Seq<u8>, rest: Seq<u8>, size: usize)
    requires
        frame_type == 0 || frame_type == 1,
        payload.len() + 4 <= i32::MAX,
        size >= HEADER_LENGTH,
        size >= payload.len() + 4,
        valid_utf8(payload),
    ensures
        ({
            let d = decode_outcome(frame_bytes(frame_type, payload) + rest, size);
            let t = decode_outcome(rest, size);
            &&& d.msgs == t.msgs
            &&& d.rest == t.rest
            &&& decode_utf8(payload) == HEARTBEAT@ ==> d.heartbeat && d.responses == t.responses
            &&& decode_utf8(payload) != HEARTBEAT@ && frame_type == 0 ==> d.responses == seq![
                ResponseView::Response(decode_utf8(payload)),
            ] + t.responses && d.heartbeat == t.heartbeat
            &&& decode_utf8(payload) != HEARTBEAT@ && frame_type == 1 ==> d.responses == seq![
                ResponseView::Error(decode_utf8(payload)),
            ] + t.responses && d.heartbeat == t.heartbeat
        }),
{
    law_decode_frame(frame_type, payload, rest, size);
}

/// A reply in a state that waits for none moves nothing: the state and every
/// field but `need_response`, which is cleared, stay, and the handshake goes
/// on.
pub proof fn law_handshake_idle_states(c: ConnView, nsqd: NsqdConfig, has_secret: bool)
    requires
        c.state == State::Start || c.state == State::TlsNegotiating || c.state == State::Rdy
            || c.state == State::Started,
    ensures
        handshake_move(c, nsqd, has_secret) == (
            ConnView { need_response: false, ..c },
            HandshakeAction::Continue,
        ),
{
}

} // verus!
