//! The commands as values, the messages received, and what connection and
//! client tell each other.

use vstd::prelude::*;
use vstd::string::*;
use vstd::slice::slice_to_vec;
use vstd::utf8::*;
use bytes::BytesMut;
use crate::text::{decimal, push_decimal, push_word, spaced};

verus! {

pub const VERSION: &'static str = "  V2";
const PUB: &'static str = "PUB";
const MPUB: &'static str = "MPUB";
const DPUB: &'static str = "DPUB";
const SUB: &'static str = "SUB";
const TOUCH: &'static str = "TOUCH";
const RDY: &'static str = "RDY";
const FIN: &'static str = "FIN";
const CLS: &'static str = "CLS";
const AUTH: &'static str = "AUTH";
pub const NOP: &'static str = "NOP";
const IDENTIFY: &'static str = "IDENTIFY";
const REQ: &'static str = "REQ";

/// A command of the protocol: its line, and the bodies sent after it.
pub trait NsqCmd: Send {
    /// The text of the command line.
    spec fn spec_cmd(&self) -> Seq<char>;

    /// The bodies sent after the line.
    spec fn spec_msg(&self) -> Seq<Seq<u8>>;

    fn cmd(&self) -> (r: String)
        ensures
            r@ == self.spec_cmd(),
    ;

    fn msg(&self) -> (r: Vec<Vec<u8>>)
        ensures
            r.deep_view() == self.spec_msg(),
    ;

    fn as_cmd(&self) -> (r: Cmd)
        ensures
            r.cmd@ == self.spec_cmd(),
            r.msg.deep_view() == self.spec_msg(),
    {
        Cmd::new(self.cmd(), self.msg())
    }
}

/// A command ready to be written.
#[derive(Debug, Clone)]
pub struct Cmd {
    pub cmd: String,
    pub msg: Vec<Vec<u8>>,
}

impl Cmd {
    pub fn new(cmd: String, msg: Vec<Vec<u8>>) -> (r: Cmd)
        ensures
            r.cmd == cmd,
            r.msg == msg,
    {
        Cmd { cmd, msg }
    }
}

/// A copy of a list of bodies.
fn copy_bodies(v: &Vec<Vec<u8>>) -> (r: Vec<Vec<u8>>)
    ensures
        r.deep_view() == v.deep_view(),
{
    let mut out: Vec<Vec<u8>> = Vec::new();
    let mut i: usize = 0;
    while i < v.len()
        invariant
            0 <= i <= v.len(),
            out.deep_view() =~= v.deep_view().take(i as int),
        decreases v.len() - i,
    {
        let item = v[i].clone();
        assert(item.deep_view() =~= v[i as int].deep_view());
        let ghost before = out.deep_view();
        out.push(item);
        assert(out.deep_view() =~= before.push(item.deep_view()));
        assert(out.deep_view() =~= v.deep_view().take(i as int + 1));
        i = i + 1;
    }
    assert(v.deep_view().take(v.len() as int) =~= v.deep_view());
    out
}

impl NsqCmd for Cmd {
    open spec fn spec_cmd(&self) -> Seq<char> {
        self.cmd@
    }

    open spec fn spec_msg(&self) -> Seq<Seq<u8>> {
        self.msg.deep_view()
    }

    fn cmd(&self) -> (r: String) {
        self.cmd.clone()
    }

    fn msg(&self) -> (r: Vec<Vec<u8>>) {
        copy_bodies(&self.msg)
    }
}

/// A marker for what may be handed between threads as a message.
pub trait Message: Send + 'static {}

/// `FIN <id>`: the message is done.
pub struct Fin(pub String);

/// `TOUCH <id>`: the message needs more time.
pub struct Touch(pub String);

/// `REQ <id> <timeout>`: the message goes back to the queue.
pub struct Requeue(pub String, pub u32);

/// `PUB <topic>` with one body.
pub struct Pub(pub String, pub Vec<u8>);

/// `MPUB <topic>` with several bodies.
pub struct Mpub(pub String, pub Vec<Vec<u8>>);

/// `DPUB <topic> <defer>` with one body.
pub struct Dpub(pub String, pub u32, pub Vec<u8>);

/// `IDENTIFY` with the client's configuration as body.
pub struct Identify(pub String);

/// `SUB <topic> <channel>`
pub struct Subscribe(pub String, pub String);

/// `AUTH` with the secret as body.
pub struct Auth(pub String);

/// `NOP`
pub struct Nop;

/// `CLS`
pub struct Cls;

/// `RDY <count>`
pub struct Rdy(pub u32);

/// A message as the reader receives it.
#[derive(Debug, Clone)]
pub struct Msg {
    pub timeout: u64,
    pub timestamp: i64,
    pub attemps: u16,
    pub id: String,
    pub body: Vec<u8>,
}

/// A message frame as the connection received it, with the message timeout.
/// A frame with no bytes tells the readers that the connection closed.
#[derive(Debug, Clone)]
pub struct BytesMsg(pub u64, pub BytesMut);

/// The UTF-8 bytes of a text, as one body.
fn text_body(s: &String) -> (r: Vec<Vec<u8>>)
    ensures
        r.deep_view() == seq![encode_utf8(s@)],
{
    let b = slice_to_vec(s.as_str().as_bytes());
    assert(b.deep_view() =~= encode_utf8(s@));
    let mut v: Vec<Vec<u8>> = Vec::new();
    v.push(b);
    assert(v.deep_view()[0] == b.deep_view());
    assert(v.deep_view() =~= seq![encode_utf8(s@)]);
    v
}

/// One body, copied.
fn one_body(b: &Vec<u8>) -> (r: Vec<Vec<u8>>)
    ensures
        r.deep_view() == seq![b@],
{
    let c = b.clone();
    assert(c.deep_view() =~= b@);
    let mut v: Vec<Vec<u8>> = Vec::new();
    v.push(c);
    assert(v.deep_view()[0] == c.deep_view());
    assert(v.deep_view() =~= seq![b@]);
    v
}

/// No body.
fn no_body() -> (r: Vec<Vec<u8>>)
    ensures
        r.deep_view() == Seq::<Seq<u8>>::empty(),
{
    let v: Vec<Vec<u8>> = Vec::new();
    assert(v.deep_view() =~= Seq::<Seq<u8>>::empty());
    v
}

/// Each text as its UTF-8 bytes, one body per text.
fn text_bodies(ms: &Vec<String>) -> (r: Vec<Vec<u8>>)
    ensures
        r.deep_view() == ms@.map_values(|s: String| encode_utf8(s@)),
{
    let mut out: Vec<Vec<u8>> = Vec::new();
    let mut i: usize = 0;
    while i < ms.len()
        invariant
            0 <= i <= ms.len(),
            out.deep_view() =~= ms@.take(i as int).map_values(|s: String| encode_utf8(s@)),
        decreases ms.len() - i,
    {
        let b = slice_to_vec(ms[i].as_str().as_bytes());
        assert(b.deep_view() =~= encode_utf8(ms@[i as int]@));
        let ghost before = out.deep_view();
        out.push(b);
        assert(out.deep_view() =~= before.push(b.deep_view()));
        assert(ms@.take(i as int + 1).map_values(|s: String| encode_utf8(s@)) =~= ms@.take(
            i as int,
        ).map_values(|s: String| encode_utf8(s@)).push(encode_utf8(ms@[i as int]@)));
        i = i + 1;
    }
    assert(ms@.take(ms.len() as int) =~= ms@);
    out
}

/// A command as the builders make it: its line, then no body, the one text
/// as body, or each text as a body.
impl NsqCmd for crate::codec::Cmd {
    open spec fn spec_cmd(&self) -> Seq<char> {
        match self {
            crate::codec::Cmd::Command(c) => c@,
            crate::codec::Cmd::Msg(c, _) => c@,
            crate::codec::Cmd::MMsg(c, _) => c@,
        }
    }

    open spec fn spec_msg(&self) -> Seq<Seq<u8>> {
        match self {
            crate::codec::Cmd::Command(_) => Seq::empty(),
            crate::codec::Cmd::Msg(_, m) => seq![encode_utf8(m@)],
            crate::codec::Cmd::MMsg(_, ms) => ms@.map_values(|s: String| encode_utf8(s@)),
        }
    }

    fn cmd(&self) -> (r: String) {
        match self {
            crate::codec::Cmd::Command(c) => c.clone(),
            crate::codec::Cmd::Msg(c, _) => c.clone(),
            crate::codec::Cmd::MMsg(c, _) => c.clone(),
        }
    }

    fn msg(&self) -> (r: Vec<Vec<u8>>) {
        match self {
            crate::codec::Cmd::Command(_) => no_body(),
            crate::codec::Cmd::Msg(_, m) => text_body(m),
            crate::codec::Cmd::MMsg(_, ms) => text_bodies(ms),
        }
    }
}

impl NsqCmd for Auth {
    open spec fn spec_cmd(&self) -> Seq<char> {
        "AUTH"@
    }

    open spec fn spec_msg(&self) -> Seq<Seq<u8>> {
        seq![encode_utf8(self.0@)]
    }

    fn cmd(&self) -> (r: String) {
        AUTH.to_owned()
    }

    fn msg(&self) -> (r: Vec<Vec<u8>>) {
        text_body(&self.0)
    }
}

impl NsqCmd for Nop {
    open spec fn spec_cmd(&self) -> Seq<char> {
        "NOP"@
    }

    open spec fn spec_msg(&self) -> Seq<Seq<u8>> {
        Seq::empty()
    }

    fn cmd(&self) -> (r: String) {
        NOP.to_owned()
    }

    fn msg(&self) -> (r: Vec<Vec<u8>>) {
        no_body()
    }
}

impl NsqCmd for Subscribe {
    open spec fn spec_cmd(&self) -> Seq<char> {
        spaced(spaced("SUB"@, self.0@), self.1@)
    }

    open spec fn spec_msg(&self) -> Seq<Seq<u8>> {
        Seq::empty()
    }

    fn cmd(&self) -> (r: String) {
        let mut s = SUB.to_owned();
        push_word(&mut s, self.0.as_str());
        push_word(&mut s, self.1.as_str());
        s
    }

    fn msg(&self) -> (r: Vec<Vec<u8>>) {
        no_body()
    }
}

impl NsqCmd for Rdy {
    open spec fn spec_cmd(&self) -> Seq<char> {
        spaced("RDY"@, decimal(self.0 as nat))
    }

    open spec fn spec_msg(&self) -> Seq<Seq<u8>> {
        Seq::empty()
    }

    fn cmd(&self) -> (r: String) {
        let mut s = RDY.to_owned();
        proof {
            reveal_strlit(" ");
        }
        s.append(" ");
        push_decimal(&mut s, self.0 as u64);
        assert(s@ =~= spaced("RDY"@, decimal(self.0 as nat)));
        s
    }

    fn msg(&self) -> (r: Vec<Vec<u8>>) {
        no_body()
    }
}

impl NsqCmd for Cls {
    open spec fn spec_cmd(&self) -> Seq<char> {
        "CLS"@
    }

    open spec fn spec_msg(&self) -> Seq<Seq<u8>> {
        Seq::empty()
    }

    fn cmd(&self) -> (r: String) {
        CLS.to_owned()
    }

    fn msg(&self) -> (r: Vec<Vec<u8>>) {
        no_body()
    }
}

impl NsqCmd for Identify {
    open spec fn spec_cmd(&self) -> Seq<char> {
        "IDENTIFY"@
    }

    open spec fn spec_msg(&self) -> Seq<Seq<u8>> {
        seq![encode_utf8(self.0@)]
    }

    fn cmd(&self) -> (r: String) {
        IDENTIFY.to_owned()
    }

    fn msg(&self) -> (r: Vec<Vec<u8>>) {
        text_body(&self.0)
    }
}

impl NsqCmd for Fin {
    open spec fn spec_cmd(&self) -> Seq<char> {
        spaced("FIN"@, self.0@)
    }

    open spec fn spec_msg(&self) -> Seq<Seq<u8>> {
        Seq::empty()
    }

    fn cmd(&self) -> (r: String) {
        let mut s = FIN.to_owned();
        push_word(&mut s, self.0.as_str());
        s
    }

    fn msg(&self) -> (r: Vec<Vec<u8>>) {
        no_body()
    }
}

impl NsqCmd for Touch {
    open spec fn spec_cmd(&self) -> Seq<char> {
        spaced("TOUCH"@, self.0@)
    }

    open spec fn spec_msg(&self) -> Seq<Seq<u8>> {
        Seq::empty()
    }

    fn cmd(&self) -> (r: String) {
        let mut s = TOUCH.to_owned();
        push_word(&mut s, self.0.as_str());
        s
    }

    fn msg(&self) -> (r: Vec<Vec<u8>>) {
        no_body()
    }
}

impl NsqCmd for Requeue {
    open spec fn spec_cmd(&self) -> Seq<char> {
        spaced(spaced("REQ"@, self.0@), decimal(self.1 as nat))
    }

    open spec fn spec_msg(&self) -> Seq<Seq<u8>> {
        Seq::empty()
    }

    fn cmd(&self) -> (r: String) {
        let mut s = REQ.to_owned();
        push_word(&mut s, self.0.as_str());
        let ghost before = s@;
        proof {
            reveal_strlit(" ");
        }
        s.append(" ");
        push_decimal(&mut s, self.1 as u64);
        assert(s@ =~= spaced(before, decimal(self.1 as nat)));
        s
    }

    fn msg(&self) -> (r: Vec<Vec<u8>>) {
        no_body()
    }
}

impl NsqCmd for Pub {
    open spec fn spec_cmd(&self) -> Seq<char> {
        spaced("PUB"@, self.0@)
    }

    open spec fn spec_msg(&self) -> Seq<Seq<u8>> {
        seq![self.1@]
    }

    fn cmd(&self) -> (r: String) {
        let mut s = PUB.to_owned();
        push_word(&mut s, self.0.as_str());
        s
    }

    fn msg(&self) -> (r: Vec<Vec<u8>>) {
        one_body(&self.1)
    }
}

impl NsqCmd for Mpub {
    open spec fn spec_cmd(&self) -> Seq<char> {
        spaced("MPUB"@, self.0@)
    }

    open spec fn spec_msg(&self) -> Seq<Seq<u8>> {
        self.1.deep_view()
    }

    fn cmd(&self) -> (r: String) {
        let mut s = MPUB.to_owned();
        push_word(&mut s, self.0.as_str());
        s
    }

    fn msg(&self) -> (r: Vec<Vec<u8>>) {
        copy_bodies(&self.1)
    }
}

impl NsqCmd for Dpub {
    open spec fn spec_cmd(&self) -> Seq<char> {
        spaced(spaced("DPUB"@, self.0@), decimal(self.1 as nat))
    }

    open spec fn spec_msg(&self) -> Seq<Seq<u8>> {
        seq![self.2@]
    }

    fn cmd(&self) -> (r: String) {
        let mut s = DPUB.to_owned();
        push_word(&mut s, self.0.as_str());
        let ghost before = s@;
        proof {
            reveal_strlit(" ");
        }
        s.append(" ");
        push_decimal(&mut s, self.1 as u64);
        assert(s@ =~= spaced(before, decimal(self.1 as nat)));
        s
    }

    fn msg(&self) -> (r: Vec<Vec<u8>>) {
        one_body(&self.2)
    }
}

/// What the client asks of the connection.
#[derive(Debug)]
pub enum ConnMsg {
    Close,
    Connect(String),
    GetIsConnected,
}

/// Whether the connection is up, and since when.
#[derive(Debug)]
pub struct ConnInfo {
    pub connected: bool,
    pub last_time: i64,
}

/// When a message was last received and sent.
#[derive(Debug)]
pub struct MsgTimeInfo {
    pub last_time_recv: i64,
    pub last_time_sent: u32,
}

/// What the connection tells the client.
#[derive(Debug)]
pub enum ConnMsgInfo {
    IsConnected(ConnInfo),
    MsgInfo(MsgTimeInfo),
}

/// The line and the bodies of each command, letter by letter: the command's
/// name, then its arguments each after one space (a count in decimal), and
/// for `AUTH` and `IDENTIFY` the text, for the publications the bodies.
pub proof fn law_command_lines(
    id: String,
    topic: String,
    channel: String,
    text: String,
    t: u32,
    body: Vec<u8>,
    bodies: Vec<Vec<u8>>,
)
    ensures
        Fin(id).spec_cmd() == seq!['F', 'I', 'N', ' '] + id@,
        Fin(id).spec_msg().len() == 0,
        Touch(id).spec_cmd() == seq!['T', 'O', 'U', 'C', 'H', ' '] + id@,
        Touch(id).spec_msg().len() == 0,
        Requeue(id, t).spec_cmd() == seq!['R', 'E', 'Q', ' '] + id@ + seq![' '] + decimal(
            t as nat,
        ),
        Requeue(id, t).spec_msg().len() == 0,
        Subscribe(topic, channel).spec_cmd() == seq!['S', 'U', 'B', ' '] + topic@ + seq![' ']
            + channel@,
        Subscribe(topic, channel).spec_msg().len() == 0,
        Rdy(t).spec_cmd() == seq!['R', 'D', 'Y', ' '] + decimal(t as nat),
        Rdy(t).spec_msg().len() == 0,
        Nop.spec_cmd() == seq!['N', 'O', 'P'],
        Nop.spec_msg().len() == 0,
        Cls.spec_cmd() == seq!['C', 'L', 'S'],
        Cls.spec_msg().len() == 0,
        Auth(text).spec_cmd() == seq!['A', 'U', 'T', 'H'],
        Auth(text).spec_msg() == seq![encode_utf8(text@)],
        Identify(text).spec_cmd() == seq!['I', 'D', 'E', 'N', 'T', 'I', 'F', 'Y'],
        Identify(text).spec_msg() == seq![encode_utf8(text@)],
        Pub(topic, body).spec_cmd() == seq!['P', 'U', 'B', ' '] + topic@,
        Pub(topic, body).spec_msg() == seq![body@],
        Mpub(topic, bodies).spec_cmd() == seq!['M', 'P', 'U', 'B', ' '] + topic@,
        Mpub(topic, bodies).spec_msg() == bodies.deep_view(),
        Dpub(topic, t, body).spec_cmd() == seq!['D', 'P', 'U', 'B', ' '] + topic@ + seq![' ']
            + decimal(t as nat),
        Dpub(topic, t, body).spec_msg() == seq![body@],
{
    reveal_strlit("FIN");
    reveal_strlit("TOUCH");
    reveal_strlit("REQ");
    reveal_strlit("SUB");
    reveal_strlit("RDY");
    reveal_strlit("NOP");
    reveal_strlit("CLS");
    reveal_strlit("AUTH");
    reveal_strlit("IDENTIFY");
    reveal_strlit("PUB");
    reveal_strlit("MPUB");
    reveal_strlit("DPUB");
    assert(Fin(id).spec_cmd() =~= seq!['F', 'I', 'N', ' '] + id@);
    assert(Touch(id).spec_cmd() =~= seq!['T', 'O', 'U', 'C', 'H', ' '] + id@);
    assert(Requeue(id, t).spec_cmd() =~= seq!['R', 'E', 'Q', ' '] + id@ + seq![' '] + decimal(
        t as nat,
    ));
    assert(Subscribe(topic, channel).spec_cmd() =~= seq!['S', 'U', 'B', ' '] + topic@ + seq![' ']
        + channel@);
    assert(Rdy(t).spec_cmd() =~= seq!['R', 'D', 'Y', ' '] + decimal(t as nat));
    assert(Nop.spec_cmd() =~= seq!['N', 'O', 'P']);
    assert(Cls.spec_cmd() =~= seq!['C', 'L', 'S']);
    assert(Auth(text).spec_cmd() =~= seq!['A', 'U', 'T', 'H']);
    assert(Identify(text).spec_cmd() =~= seq!['I', 'D', 'E', 'N', 'T', 'I', 'F', 'Y']);
    assert(Pub(topic, body).spec_cmd() =~= seq!['P', 'U', 'B', ' '] + topic@);
    assert(Mpub(topic, bodies).spec_cmd() =~= seq!['M', 'P', 'U', 'B', ' '] + topic@);
    assert(Dpub(topic, t, body).spec_cmd() =~= seq!['D', 'P', 'U', 'B', ' '] + topic@ + seq![' ']
        + decimal(t as nat));
}

} // verus!
