//! The decisions of a producer connection: how it answers nsqd's replies
//! during the handshake, the commands it writes, and which publication a
//! reply or a refusal of nsqd answers.

use vstd::prelude::*;
use vstd::string::*;
use crate::codec::Cmd;
use crate::commands;
use crate::config::Config;
use crate::text::{decimal, spaced};

verus! {

/// Where a producer stands with nsqd.
#[derive(Debug, PartialEq, Eq, Structural, Clone, Copy)]
pub enum ConnState {
    /// Negotiating: `IDENTIFY` was sent.
    Neg,
    /// Authenticated; subscribing next.
    Sub,
    /// Subscribed; the ready count next.
    Ready,
    Started,
}

/// What a producer does after a reply of nsqd.
#[derive(Debug, PartialEq, Eq, Structural, Clone, Copy)]
pub enum ProducerStep {
    /// Send `AUTH` (see `handle_auth`).
    Authenticate,
    /// Send `SUB` (see `handle_sub`).
    Subscribe,
    /// Send `RDY` with this count (see `handle_ready`).
    Ready(u32),
    /// The handshake is over.
    Started,
    /// The reply answers the oldest publication waiting for one: its id, or
    /// `None` when none is waiting.
    Deliver(Option<u64>),
}

/// What a producer does after an error on its connection.
#[derive(Debug, PartialEq, Eq, Structural, Clone, Copy)]
pub enum ErrorStep {
    /// nsqd refused a command: the oldest publication waiting (its id, or
    /// `None` when none is waiting) fails with that error, and the producer
    /// goes on.
    Fail(Option<u64>),
    /// Anything else: the producer stops.
    Stop,
}

/// A producer: where it publishes, where it stands with nsqd, and the
/// publications written and waiting for nsqd's reply, oldest first, by the
/// ids their senders gave them.
pub struct Producer {
    topic: String,
    channel: String,
    addr: String,
    config: Config<String>,
    state: ConnState,
    queue: Vec<u64>,
    auth: String,
}

/// A producer by its contents.
pub struct ProducerView {
    pub topic: Seq<char>,
    pub channel: Seq<char>,
    pub addr: Seq<char>,
    pub config: Config<String>,
    pub state: ConnState,
    /// The ids of the publications waiting for a reply, oldest first.
    pub queue: Seq<u64>,
    pub auth: Seq<char>,
}

impl View for Producer {
    type V = ProducerView;

    closed spec fn view(&self) -> ProducerView {
        ProducerView {
            topic: self.topic@,
            channel: self.channel@,
            addr: self.addr@,
            config: self.config,
            state: self.state,
            queue: self.queue@,
            auth: self.auth@,
        }
    }
}

impl Default for Producer {
    fn default() -> (r: Producer)
        ensures
            r@.topic.len() == 0,
            r@.channel.len() == 0,
            r@.addr.len() == 0,
            r@.auth.len() == 0,
            r@.config.has_default_settings(),
            r@.config.names_host(r@.config.hostname),
            r@.state == ConnState::Neg,
            r@.queue.len() == 0,
    {
        Producer {
            topic: String::new(),
            channel: String::new(),
            addr: String::new(),
            config: Config::default(),
            state: ConnState::Neg,
            queue: Vec::new(),
            auth: String::new(),
        }
    }
}

impl Producer {
    /// A producer for `topic` and `channel` at `addr`, with the given
    /// settings or the default ones, negotiating.
    pub fn new(
        topic: String,
        channel: String,
        addr: String,
        config: Option<Config<String>>,
        auth: String,
    ) -> (r: Producer)
        ensures
            r@.topic == topic@,
            r@.channel == channel@,
            r@.addr == addr@,
            r@.auth == auth@,
            match config {
                Some(c) => r@.config == c,
                None => r@.config.has_default_settings() && r@.config.names_host(r@.config.hostname),
            },
            r@.state == ConnState::Neg,
            r@.queue.len() == 0,
    {
        let cfg = match config {
            Some(cfg) => cfg,
            None => Config::default(),
        };
        Producer { addr, config: cfg, topic, channel, state: ConnState::Neg, queue: Vec::new(), auth }
    }

    /// The step after a reply of nsqd: while negotiating, authentication
    /// when nsqd requires it, else the handshake is over; then subscription,
    /// then a ready count of 0; once started, the reply answers the oldest
    /// publication waiting, which leaves the queue.
    /// `auth_required` is what nsqd answered to `IDENTIFY`.
    pub fn handle_response(&mut self, auth_required: bool) -> (r: ProducerStep)
        ensures
            match old(self)@.state {
                ConnState::Neg => if auth_required {
                    r == ProducerStep::Authenticate && final(self)@ == old(self)@
                } else {
                    r == ProducerStep::Started && final(self)@ == (ProducerView {
                        state: ConnState::Started,
                        ..old(self)@
                    })
                },
                ConnState::Sub => r == ProducerStep::Subscribe && final(self)@ == old(self)@,
                ConnState::Ready => r == ProducerStep::Ready(0) && final(self)@ == old(self)@,
                ConnState::Started => if old(self)@.queue.len() == 0 {
                    r == ProducerStep::Deliver(None) && final(self)@ == old(self)@
                } else {
                    r == ProducerStep::Deliver(Some(old(self)@.queue[0])) && final(self)@ == (
                    ProducerView { queue: old(self)@.queue.skip(1), ..old(self)@ })
                },
            },
    {
        match self.state {
            ConnState::Neg => {
                if auth_required {
                    ProducerStep::Authenticate
                } else {
                    self.state = ConnState::Started;
                    ProducerStep::Started
                }
            },
            ConnState::Sub => ProducerStep::Subscribe,
            ConnState::Ready => ProducerStep::Ready(0),
            ConnState::Started => ProducerStep::Deliver(self.pop_oldest()),
        }
    }

    /// Takes the oldest publication waiting, if any.
    fn pop_oldest(&mut self) -> (r: Option<u64>)
        ensures
            old(self)@.queue.len() == 0 ==> r is None && final(self)@ == old(self)@,
            old(self)@.queue.len() > 0 ==> r == Some(old(self)@.queue[0]) && final(self)@ == (
            ProducerView { queue: old(self)@.queue.skip(1), ..old(self)@ }),
    {
        if self.queue.len() == 0 {
            None
        } else {
            let id = self.queue.remove(0);
            assert(self.queue@ =~= old(self)@.queue.skip(1));
            Some(id)
        }
    }

    /// The step after an error on the connection: a refusal by nsqd
    /// (`remote`) fails the oldest publication waiting and the producer goes
    /// on; any other error stops it.
    pub fn handle_error(&mut self, remote: bool) -> (r: ErrorStep)
        ensures
            !remote ==> r == ErrorStep::Stop && final(self)@ == old(self)@,
            remote && old(self)@.queue.len() == 0 ==> r == ErrorStep::Fail(None) && final(self)@
                == old(self)@,
            remote && old(self)@.queue.len() > 0 ==> r == ErrorStep::Fail(
                Some(old(self)@.queue[0]),
            ) && final(self)@ == (ProducerView { queue: old(self)@.queue.skip(1), ..old(self)@ }),
    {
        if remote {
            ErrorStep::Fail(self.pop_oldest())
        } else {
            ErrorStep::Stop
        }
    }

    /// `AUTH` with the producer's secret when connected (`None`, and the
    /// producer stops, when not); subscription comes next either way.
    pub fn handle_auth(&mut self, connected: bool) -> (r: Option<Cmd>)
        ensures
            connected ==> (r matches Some(Cmd::Msg(c, m)) && c@ == "AUTH"@ && m@ == old(self)@.auth),
            !connected ==> r is None,
            final(self)@ == (ProducerView { state: ConnState::Sub, ..old(self)@ }),
    {
        let c = if connected {
            Some(commands::auth(self.auth.clone()))
        } else {
            None
        };
        self.state = ConnState::Sub;
        c
    }

    /// `SUB <topic> <channel>` when connected (`None` when not); the ready
    /// count comes next either way.
    pub fn handle_sub(&mut self, connected: bool) -> (r: Option<Cmd>)
        ensures
            connected ==> (r matches Some(Cmd::Command(s)) && s@ == spaced(
                spaced("SUB"@, old(self)@.topic),
                old(self)@.channel,
            )),
            !connected ==> r is None,
            final(self)@ == (ProducerView { state: ConnState::Ready, ..old(self)@ }),
    {
        let c = if connected {
            Some(commands::sub(self.topic.as_str(), self.channel.as_str()))
        } else {
            None
        };
        self.state = ConnState::Ready;
        c
    }

    /// `RDY <count>` when connected (`None` when not); the handshake is over
    /// either way.
    pub fn handle_ready(&mut self, connected: bool, count: u32) -> (r: Option<Cmd>)
        ensures
            connected ==> (r matches Some(Cmd::Command(s)) && s@ == spaced("RDY"@, decimal(count as nat))),
            !connected ==> r is None,
            final(self)@ == (ProducerView { state: ConnState::Started, ..old(self)@ }),
    {
        let c = if connected {
            Some(commands::rdy(count))
        } else {
            None
        };
        if self.state != ConnState::Started {
            self.state = ConnState::Started;
        }
        c
    }

    /// Publishes `msg` as the publication `id`: when connected, `PUB <topic>`
    /// with `msg` for body, and `id` waits for nsqd's reply behind those
    /// before it; when not connected, `None` (the publication fails as not
    /// connected) and nothing changes.
    pub fn handle_pub(&mut self, id: u64, connected: bool, msg: &str) -> (r: Option<Cmd>)
        ensures
            connected ==> (r matches Some(Cmd::Msg(c, m)) && c@ == spaced("PUB"@, old(self)@.topic)
                && m@ == msg@) && final(self)@ == (ProducerView {
                queue: old(self)@.queue.push(id),
                ..old(self)@
            }),
            !connected ==> r is None && final(self)@ == old(self)@,
    {
        if !connected {
            return None;
        }
        self.queue.push(id);
        Some(commands::publish(self.topic.as_str(), msg))
    }

    /// The ids of the publications waiting for a reply, oldest first.
    pub fn waiting(&self) -> (r: &[u64])
        ensures
            r@ == self@.queue,
    {
        self.queue.as_slice()
    }

    /// `NOP`, the answer to a heartbeat, when connected; `None` when not,
    /// and the producer stops to connect again.
    pub fn handle_heartbeat(&self, connected: bool) -> (r: Option<Cmd>)
        ensures
            connected ==> (r matches Some(Cmd::Command(s)) && s@ == "NOP"@),
            !connected ==> r is None,
    {
        if connected {
            Some(commands::nop())
        } else {
            None
        }
    }

    /// The address of nsqd.
    pub fn addr(&self) -> (r: &str)
        ensures
            r@ == self@.addr,
    {
        self.addr.as_str()
    }

    /// The producer's settings.
    pub fn config(&self) -> (r: &Config<String>)
        ensures
            *r == self@.config,
    {
        &self.config
    }

    /// Where the producer stands with nsqd.
    pub fn state(&self) -> (r: ConnState)
        ensures
            r == self@.state,
    {
        self.state
    }
}

} // verus!
