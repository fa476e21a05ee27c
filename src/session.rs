//! One analyzer's session: the compliance probe's verdict, the cadence of
//! polling a port, and the byte stream cut into link events and fed to the
//! link.

use crate::control::{ACK, ENQ, EOT, LF, NAK, STX};
use crate::fields::{lemma_pieces_prefix, pieces};
use crate::frame::append;
use crate::link::{deliveries_complete, link_step, Link, LinkAction, LinkConfig, LinkEvent, LinkState};
use crate::record::Record;
use vstd::prelude::*;

verus! {

/// Whether the answer to the probe's ENQ shows an ASTM peer: exactly one
/// octet, ACK.
pub open spec fn compliant_reply(reply: Seq<u8>) -> bool {
    reply.len() == 1 && reply[0] == ACK
}

/// Whether the answer to the probe's ENQ shows an ASTM peer: exactly one
/// octet, ACK. The prober then sends EOT and keeps the port.
pub fn probe_reply_compliant(reply: &[u8]) -> (r: bool)
    ensures
        r == compliant_reply(reply@),
{
    reply.len() == 1 && reply[0] == ACK
}

/// What a port poller does next, from two readings of the octets waiting
/// to be read, taken a moment apart.
#[derive(Debug, Clone, Copy, PartialEq, Eq, Structural)]
pub enum PollAction {
    /// Nothing waits: sleep long.
    Idle,
    /// Octets are still arriving: sleep briefly and look again.
    Settle,
    /// The count is steady: read what waits.
    Read,
    /// The count went down: look again at once.
    Recheck,
}

/// The poller's choice for the readings `before` and `after`.
pub open spec fn poll_choice(before: u32, after: u32) -> PollAction {
    if after == 0 {
        PollAction::Idle
    } else if after > before {
        PollAction::Settle
    } else if after == before {
        PollAction::Read
    } else {
        PollAction::Recheck
    }
}

/// What a port poller does next, from two readings of the octets waiting.
pub fn poll_decision(before: u32, after: u32) -> (r: PollAction)
    ensures
        r == poll_choice(before, after),
{
    if after == 0 {
        PollAction::Idle
    } else if after > before {
        PollAction::Settle
    } else if after == before {
        PollAction::Read
    } else {
        PollAction::Recheck
    }
}

/// The event that a single control octet stands for.
pub open spec fn control_event(b: u8) -> LinkEvent {
    if b == ENQ {
        LinkEvent::RxEnq
    } else if b == ACK {
        LinkEvent::RxAck
    } else if b == NAK {
        LinkEvent::RxNak
    } else if b == EOT {
        LinkEvent::RxEot
    } else {
        LinkEvent::RxOther(b)
    }
}

/// How many octets the first whole event of `buf` takes: one for an octet
/// other than STX; for a frame, STX through the first LF. `None` when
/// nothing was received or the frame has not ended yet.
pub open spec fn first_event_len(buf: Seq<u8>) -> Option<nat> {
    if buf.len() == 0 {
        None
    } else if buf[0] != STX {
        Some(1)
    } else if pieces(buf, LF).len() > 1 {
        Some(pieces(buf, LF)[0].len() + 1)
    } else {
        None
    }
}

/// Whether `ev` is the event that the first `n` octets of `buf` stand for.
pub open spec fn is_event_of(ev: LinkEvent, buf: Seq<u8>, n: nat) -> bool {
    if buf[0] != STX {
        ev == control_event(buf[0])
    } else {
        ev matches LinkEvent::RxFrame(f) && f@ == buf.take(n as int)
    }
}

/// The first whole event in received octets and how many octets it takes.
pub fn next_event(buf: &[u8]) -> (r: Option<(LinkEvent, usize)>)
    ensures
        match first_event_len(buf@) {
            None => r is None,
            Some(n) => r matches Some((ev, m)) && m == n && is_event_of(ev, buf@, n),
        },
        r matches Some((_, m)) ==> 0 < m <= buf@.len(),
{
    if buf.len() == 0 {
        return None;
    }
    let b = buf[0];
    if b != STX {
        let ev = if b == ENQ {
            LinkEvent::RxEnq
        } else if b == ACK {
            LinkEvent::RxAck
        } else if b == NAK {
            LinkEvent::RxNak
        } else if b == EOT {
            LinkEvent::RxEot
        } else {
            LinkEvent::RxOther(b)
        };
        return Some((ev, 1));
    }
    let mut i: usize = 1;
    proof {
        assert(buf@.take(1).drop_last() == Seq::<u8>::empty());
        assert(buf@.take(1) == seq![STX]);
        assert(pieces(Seq::<u8>::empty(), LF) == seq![Seq::<u8>::empty()]);
        assert(seq![Seq::<u8>::empty()].update(0, Seq::<u8>::empty().push(STX)) == seq![buf@.take(1)]);
    }
    while i < buf.len()
        invariant
            1 <= i <= buf@.len(),
            buf@[0] == STX,
            pieces(buf@.take(i as int), LF) == seq![buf@.take(i as int)],
        decreases buf@.len() - i,
    {
        proof {
            assert(buf@.take(i as int + 1).drop_last() == buf@.take(i as int));
            assert(buf@.take(i as int + 1).last() == buf@[i as int]);
        }
        if buf[i] == LF {
            let mut frame: Vec<u8> = Vec::new();
            append(&mut frame, &buf[0..i + 1]);
            proof {
                lemma_pieces_prefix(buf@, LF, i as int + 1, buf@.len() as int);
                assert(buf@.take(buf@.len() as int) == buf@);
                assert(pieces(buf@.take(i as int + 1), LF) == seq![buf@.take(i as int), Seq::<u8>::empty()]);
                assert(pieces(buf@, LF)[0] == buf@.take(i as int));
            }
            return Some((LinkEvent::RxFrame(frame), i + 1));
        }
        proof {
            assert(buf@.take(i as int).push(buf@[i as int]) == buf@.take(i as int + 1));
        }
        i = i + 1;
    }
    proof {
        assert(buf@.take(i as int) == buf@);
    }
    None
}

/// How many octets the first `k` whole events of `buf` take.
pub open spec fn consumed(buf: Seq<u8>, k: nat) -> nat
    decreases k,
{
    if k == 0 {
        0
    } else {
        let prev = consumed(buf, (k - 1) as nat);
        match first_event_len(buf.skip(prev as int)) {
            Some(n) => prev + n,
            None => prev,
        }
    }
}

/// One entry of a run of the link: the event, the link after it, and the
/// actions it asked for.
pub type RunStep = (LinkEvent, Link, Seq<LinkAction>);

/// The link after the run `t` that started at `link`.
pub open spec fn run_end(link: Link, t: Seq<RunStep>) -> Link {
    if t.len() == 0 {
        link
    } else {
        t.last().1
    }
}

/// The actions of the run `t`, in order.
pub open spec fn run_actions(t: Seq<RunStep>) -> Seq<LinkAction>
    decreases t.len(),
{
    if t.len() == 0 {
        Seq::empty()
    } else {
        run_actions(t.drop_last()) + t.last().2
    }
}

/// Whether `t` is a run of the link from `link` over the first `t.len()`
/// whole events of `buf`: each entry's event is the next whole event, and
/// the link steps by the transition table.
pub open spec fn is_run(link: Link, buf: Seq<u8>, t: Seq<RunStep>) -> bool
    decreases t.len(),
{
    if t.len() == 0 {
        true
    } else {
        let init = t.drop_last();
        let rest = buf.skip(consumed(buf, init.len()) as int);
        &&& is_run(link, buf, init)
        &&& consumed(buf, init.len()) <= buf.len()
        &&& first_event_len(rest) is Some
        &&& is_event_of(t.last().0, rest, first_event_len(rest)->0)
        &&& link_step(run_end(link, init), t.last().1, t.last().0, t.last().2)
    }
}

/// A session with one analyzer: the link, and the octets received but not
/// yet taken up as an event.
#[derive(Debug)]
pub struct Session {
    link: Link,
    received: Vec<u8>,
}

impl Session {
    /// The invariant of the session.
    pub closed spec fn wf(&self) -> bool {
        self.link.wf()
    }

    /// The link this session drives.
    pub closed spec fn link_of(&self) -> Link {
        self.link
    }

    /// The octets received but not yet taken up as an event.
    pub closed spec fn received_of(&self) -> Seq<u8> {
        self.received@
    }

    /// A session in Neutral with the given limits.
    pub fn new(config: LinkConfig) -> (r: Session)
        requires
            config.valid(),
        ensures
            r.wf(),
            r.link_of().state_of() == LinkState::Neutral,
            r.link_of().config_of() == config,
            r.link_of().frames_of().len() == 0,
            r.received_of().len() == 0,
    {
        Session { link: Link::new(config), received: Vec::new() }
    }

    /// The link this session drives.
    pub fn link(&self) -> (r: &Link)
        ensures
            *r == self.link_of(),
    {
        &self.link
    }

    /// How long to wait for octets before calling `on_timeout`; `None` to
    /// wait without limit.
    pub fn timeout_ms(&self) -> (r: Option<u64>)
        ensures
            r == self.link_of().timeout_for(),
    {
        self.link.timeout_ms()
    }

    /// Takes up received octets: every whole event in what was kept and
    /// `data` goes to the link, in order, and the actions come back in order;
    /// an unfinished frame is kept for the next call. Every message handed
    /// upwards begins with a Header and ends with a MessageTerminator.
    pub fn receive(&mut self, data: &[u8]) -> (actions: Vec<LinkAction>)
        requires
            old(self).wf(),
        ensures
            final(self).wf(),
            exists|t: Seq<RunStep>|
                #[trigger] is_run(old(self).link_of(), old(self).received_of() + data@, t)
                    && final(self).link_of() == run_end(old(self).link_of(), t) && consumed(
                    old(self).received_of() + data@,
                    t.len(),
                ) <= old(self).received_of().len() + data@.len() && final(self).received_of() == (
                old(self).received_of() + data@).skip(
                    consumed(old(self).received_of() + data@, t.len()) as int,
                ) && actions@ == run_actions(t),
            first_event_len(final(self).received_of()) is None,
            deliveries_complete(actions@),
    {
        append(&mut self.received, data);
        let ghost link0 = self.link;
        let ghost buf0 = self.received@;
        let ghost mut t: Seq<RunStep> = Seq::empty();
        let mut actions: Vec<LinkAction> = Vec::new();
        proof {
            assert(buf0.skip(0) == buf0);
        }
        loop
            invariant
                self.wf(),
                deliveries_complete(actions@),
                is_run(link0, buf0, t),
                self.link == run_end(link0, t),
                consumed(buf0, t.len()) <= buf0.len(),
                self.received@ == buf0.skip(consumed(buf0, t.len()) as int),
                actions@ == run_actions(t),
            ensures
                first_event_len(self.received@) is None,
                deliveries_complete(actions@),
                is_run(link0, buf0, t),
                self.link == run_end(link0, t),
                consumed(buf0, t.len()) <= buf0.len(),
                self.received@ == buf0.skip(consumed(buf0, t.len()) as int),
                actions@ == run_actions(t),
            decreases self.received@.len(),
        {
            match next_event(self.received.as_slice()) {
                None => break,
                Some((event, n)) => {
                    let ghost ev = event;
                    let mut rest: Vec<u8> = Vec::new();
                    append(&mut rest, &self.received.as_slice()[n..self.received.len()]);
                    let ghost old_received = self.received@;
                    self.received = rest;
                    let mut more = self.link.step(event);
                    let ghost before = actions@;
                    let ghost added = more@;
                    actions.append(&mut more);
                    proof {
                        let off = consumed(buf0, t.len());
                        let t2 = t.push((ev, self.link, added));
                        assert(t2.drop_last() == t);
                        assert(old_received == buf0.skip(off as int));
                        assert(consumed(buf0, t2.len()) == off + n);
                        assert(self.received@ == buf0.skip(off + n));
                        assert(is_run(link0, buf0, t2));
                        assert(run_actions(t2) == before + added);
                        t = t2;
                        assert forall|i: int| 0 <= i < actions@.len() implies (
                        #[trigger] actions@[i] matches LinkAction::Deliver(v)
                            ==> crate::message::is_complete(v@)) by {
                            if i < before.len() {
                                assert(actions@[i] == before[i]);
                            } else {
                                assert(actions@[i] == added[i - before.len()]);
                            }
                        }
                    }
                },
            }
        }
        proof {
            assert(buf0 == old(self).received_of() + data@);
            assert(link0 == old(self).link_of());
            assert(is_run(old(self).link_of(), old(self).received_of() + data@, t));
        }
        actions
    }

    /// Asks to send a complete message of records.
    pub fn send_message(&mut self, records: Vec<Record>) -> (actions: Vec<LinkAction>)
        requires
            old(self).wf(),
        ensures
            final(self).wf(),
            crate::link::link_step(
                old(self).link_of(),
                final(self).link_of(),
                LinkEvent::TxRequested(records),
                actions@,
            ),
    {
        self.link.step(LinkEvent::TxRequested(records))
    }

    /// Reports that the timeout named by `timeout_ms` ran out.
    pub fn on_timeout(&mut self) -> (actions: Vec<LinkAction>)
        requires
            old(self).wf(),
        ensures
            final(self).wf(),
            crate::link::link_step(old(self).link_of(), final(self).link_of(), LinkEvent::Timer, actions@),
    {
        self.link.step(LinkEvent::Timer)
    }
}

/// Parity of the serial line.
#[derive(Debug, Clone, Copy, PartialEq, Eq, Structural)]
pub enum ParityMode {
    Disabled,
    Even,
    Odd,
}

/// Flow control of the serial line.
#[derive(Debug, Clone, Copy, PartialEq, Eq, Structural)]
pub enum FlowMode {
    Software,
    Hardware,
    Disabled,
}

/// The line parameters a session opens its port with.
#[derive(Debug, Clone, Copy, PartialEq, Eq, Structural)]
pub struct SerialSettings {
    pub baud_rate: u32,
    /// Always eight data bits.
    pub data_bits: u8,
    pub parity: ParityMode,
    /// One or two stop bits.
    pub stop_bits: u8,
    pub flow_control: FlowMode,
    pub read_timeout_ms: u64,
}

impl SerialSettings {
    /// 115200 baud, 8 data bits, no parity, 1 stop bit, software flow
    /// control, and a 30 s read timeout.
    pub fn standard() -> (r: SerialSettings)
        ensures
            r.baud_rate == 115200,
            r.data_bits == 8,
            r.parity == ParityMode::Disabled,
            r.stop_bits == 1,
            r.flow_control == FlowMode::Software,
            r.read_timeout_ms == 30000,
    {
        SerialSettings {
            baud_rate: 115200,
            data_bits: 8,
            parity: ParityMode::Disabled,
            stop_bits: 1,
            flow_control: FlowMode::Software,
            read_timeout_ms: 30000,
        }
    }
}

} // verus!
