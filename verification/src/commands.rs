//! Builders of the commands a client sends to nsqd, as `codec::Cmd` values.

use vstd::prelude::*;
use vstd::string::*;
use crate::codec::Cmd;
use crate::text::{decimal, push_decimal, push_word, spaced};

verus! {

pub const VERSION: &'static str = "  V2";
const PUB: &'static str = "PUB";
const MPUB: &'static str = "MPUB";
const DPUB: &'static str = "DPUB";
const SUB: &'static str = "SUB";
const TOUCH: &'static str = "TOUCH";
const RDY: &'static str = "RDY";
const FIN: &'static str = "FIN";
const CLS: &'static str = "CLS";
const NOP: &'static str = "NOP";
const IDENTIFY: &'static str = "IDENTIFY";
const REQ: &'static str = "REQ";
const AUTH: &'static str = "AUTH";

/// `SUB <topic> <channel>`
pub fn sub(topic: &str, channel: &str) -> (r: Cmd)
    ensures
        r matches Cmd::Command(s) && s@ == spaced(spaced("SUB"@, topic@), channel@),
{
    let mut s = SUB.to_owned();
    push_word(&mut s, topic);
    push_word(&mut s, channel);
    Cmd::Command(s)
}

/// `AUTH` with the secret as its body.
pub fn auth(secret: String) -> (r: Cmd)
    ensures
        r matches Cmd::Msg(c, m) && c@ == "AUTH"@ && m == secret,
{
    Cmd::Msg(AUTH.to_owned(), secret)
}

/// `NOP`
pub fn nop() -> (r: Cmd)
    ensures
        r matches Cmd::Command(s) && s@ == "NOP"@,
{
    Cmd::Command(NOP.to_owned())
}

/// `IDENTIFY` with the client's configuration (JSON) as its body.
pub fn identify(config: String) -> (r: Cmd)
    ensures
        r matches Cmd::Msg(c, m) && c@ == "IDENTIFY"@ && m == config,
{
    Cmd::Msg(IDENTIFY.to_owned(), config)
}

/// `FIN <id>`
pub fn fin(id: &str) -> (r: Cmd)
    ensures
        r matches Cmd::Command(s) && s@ == spaced("FIN"@, id@),
{
    let mut s = FIN.to_owned();
    push_word(&mut s, id);
    Cmd::Command(s)
}

/// `CLS`
pub fn cls() -> (r: Cmd)
    ensures
        r matches Cmd::Command(s) && s@ == "CLS"@,
{
    Cmd::Command(CLS.to_owned())
}

/// `RDY <count>`
pub fn rdy(i: u32) -> (r: Cmd)
    ensures
        r matches Cmd::Command(s) && s@ == spaced("RDY"@, decimal(i as nat)),
{
    let mut s = RDY.to_owned();
    proof {
        reveal_strlit(" ");
    }
    s.append(" ");
    push_decimal(&mut s, i as u64);
    assert(s@ =~= spaced("RDY"@, decimal(i as nat)));
    Cmd::Command(s)
}

/// `TOUCH <id>`
pub fn touch(id: &str) -> (r: Cmd)
    ensures
        r matches Cmd::Command(s) && s@ == spaced("TOUCH"@, id@),
{
    let mut s = TOUCH.to_owned();
    push_word(&mut s, id);
    Cmd::Command(s)
}

/// `REQ <id> <timeout>`, or `REQ <id>` without a timeout.
pub fn req(id: &str, timeout: Option<u32>) -> (r: Cmd)
    ensures
        r matches Cmd::Command(s) && s@ == match timeout {
            Some(t) => spaced(spaced("REQ"@, id@), decimal(t as nat)),
            None => spaced("REQ"@, id@),
        },
{
    let mut s = REQ.to_owned();
    push_word(&mut s, id);
    if timeout.is_some() {
        let t = timeout.unwrap();
        proof {
            reveal_strlit(" ");
        }
        let ghost before = s@;
        s.append(" ");
        push_decimal(&mut s, t as u64);
        assert(s@ =~= spaced(before, decimal(t as nat)));
        Cmd::Command(s)
    } else {
        Cmd::Command(s)
    }
}

/// `PUB <topic>` with `msg` as its body.
pub fn publish(topic: &str, msg: &str) -> (r: Cmd)
    ensures
        r matches Cmd::Msg(c, m) && c@ == spaced("PUB"@, topic@) && m@ == msg@,
{
    let mut s = PUB.to_owned();
    push_word(&mut s, topic);
    Cmd::Msg(s, msg.to_owned())
}

/// `MPUB <topic>` with the messages as its bodies.
pub fn mpub(topic: &str, msgs: Vec<String>) -> (r: Cmd)
    ensures
        r matches Cmd::MMsg(c, m) && c@ == spaced("MPUB"@, topic@) && m == msgs,
{
    let mut s = MPUB.to_owned();
    push_word(&mut s, topic);
    Cmd::MMsg(s, msgs)
}

/// `DPUB <topic> <defer_time>` with `msg` as its body.
pub fn dpub(topic: &str, defer_time: &str, msg: &str) -> (r: Cmd)
    ensures
        r matches Cmd::Msg(c, m) && c@ == spaced(spaced("DPUB"@, topic@), defer_time@) && m@
            == msg@,
{
    let mut s = DPUB.to_owned();
    push_word(&mut s, topic);
    push_word(&mut s, defer_time);
    Cmd::Msg(s, msg.to_owned())
}

} // verus!
