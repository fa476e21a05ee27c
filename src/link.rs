//! The E1381 link state machine, as a function from state and event to the
//! next state and the actions to perform. Whoever owns the port performs the
//! actions, waits for bytes or for the timeout that `timeout_ms` names, and
//! hands back what happened as an event.
//!
//! The host always yields on contention: an ENQ that arrives while the host's
//! own ENQ is pending is acknowledged, and the pending message waits.

use crate::control::{ACK, ENQ, EOT, ETX, NAK};
use crate::record::{kind_of_letter, RecordKind};
use crate::fields::vecs_view;
use crate::frame::{
    append, decode_frame, encode_message, frame_ok, frame_text, message_frames,
    MAX_FRAME_PAYLOAD,
};
use crate::message::{
    is_complete, is_complete_message, letters_valid, message_payload, message_payload_of,
    raws_of, record_texts, records_from_payload, records_of,
};
use crate::record::Record;
use vstd::prelude::*;

verus! {

/// The state of the link.
#[derive(Debug, Clone, Copy, PartialEq, Eq, Structural)]
pub enum LinkState {
    /// Idle: neither side holds the line.
    Neutral,
    /// The host sent ENQ and waits for the analyzer's answer.
    Establish,
    /// The analyzer holds the line and sends frames.
    TransferIn,
    /// The host holds the line and sends frames.
    TransferOut,
}

/// What the port, the timer or the application reports to the link.
#[derive(Debug)]
pub enum LinkEvent {
    RxEnq,
    RxAck,
    RxNak,
    RxEot,
    /// The octets of a received frame, from STX through LF.
    RxFrame(Vec<u8>),
    /// Any other received octet.
    RxOther(u8),
    /// The application asks to send a message.
    TxRequested(Vec<Record>),
    /// The timeout named by `timeout_ms` ran out.
    Timer,
}

/// Outcomes of the link that the session reports upwards.
#[derive(Debug, Clone, Copy, PartialEq, Eq, Structural)]
pub enum LinkNotice {
    /// A message was sent and acknowledged frame by frame.
    MessageSent,
    /// The analyzer refused the line too many times.
    EstablishFailed,
    /// A frame was refused too many times, or too many bad frames came in.
    TransferFailed,
    /// The analyzer fell silent while sending.
    LinkTimeout,
    /// An octet came that the current state does not allow.
    ProtocolViolation,
    /// A message is already waiting to be sent.
    Busy,
    /// A message to send does not begin with a Header and end with a MessageTerminator.
    InvalidMessage,
    /// A received message was discarded: a line without a record-type letter,
    /// or no Header first or no MessageTerminator last.
    MessageRejected,
}

/// What the owner of the port is asked to do, in order.
#[derive(Debug, PartialEq)]
pub enum LinkAction {
    /// Write one control octet.
    Send(u8),
    /// Write a frame.
    SendFrame(Vec<u8>),
    /// Hand a complete received message upwards.
    Deliver(Vec<Record>),
    /// Report an outcome upwards.
    Notify(LinkNotice),
}

/// The limits the link works with.
#[derive(Debug, Clone, Copy, PartialEq, Eq, Structural)]
pub struct LinkConfig {
    /// The most text octets in one frame.
    pub max_frame_payload: usize,
    /// How many refusals of one ENQ or one frame, or bad frames in a row, end a phase.
    pub max_retransmissions: u8,
    /// Wait before sending ENQ again after a refusal.
    pub t1_backoff_ms: u64,
    /// Wait for an answer to ENQ or to a frame.
    pub t2_response_ms: u64,
    /// Wait for the next frame while receiving.
    pub t3_inactivity_ms: u64,
}

impl LinkConfig {
    /// Whether the limits allow the link to work.
    pub open spec fn valid(&self) -> bool {
        self.max_frame_payload > 0 && self.max_retransmissions > 0
    }

    /// The standard limits: 240 octets a frame, 6 tries, and T1, T2, T3 of
    /// 2, 15 and 30 seconds.
    pub fn standard() -> (r: LinkConfig)
        ensures
            r.valid(),
            r.max_frame_payload == MAX_FRAME_PAYLOAD,
            r.max_retransmissions == 6,
            r.t1_backoff_ms == 2000,
            r.t2_response_ms == 15000,
            r.t3_inactivity_ms == 30000,
    {
        LinkConfig {
            max_frame_payload: MAX_FRAME_PAYLOAD,
            max_retransmissions: 6,
            t1_backoff_ms: 2000,
            t2_response_ms: 15000,
            t3_inactivity_ms: 30000,
        }
    }
}

/// Whether every message that `actions` hand upwards is complete.
pub open spec fn deliveries_complete(actions: Seq<LinkAction>) -> bool {
    forall|i: int|
        0 <= i < actions.len() ==> (#[trigger] actions[i] matches LinkAction::Deliver(v)
            ==> is_complete(v@))
}

/// Whether `actions` is exactly one frame write of `f`.
pub open spec fn sends_frame(actions: Seq<LinkAction>, f: Seq<u8>) -> bool {
    &&& actions.len() == 1
    &&& actions[0] matches LinkAction::SendFrame(g)
    &&& g@ == f
}

/// The frames that carry a message of `records`.
pub open spec fn frames_for(records: Seq<Record>, max: nat) -> Seq<Seq<u8>> {
    message_frames(message_payload_of(raws_of(records)), max)
}

/// The frame number that precedes `n` modulo 8.
pub open spec fn previous_number(n: u8) -> u8 {
    ((n + 7) % 8) as u8
}

/// The link between the host and one analyzer.
#[derive(Debug)]
pub struct Link {
    state: LinkState,
    config: LinkConfig,
    outgoing: Vec<Vec<u8>>,
    next_frame: usize,
    attempts: u8,
    backing_off: bool,
    incoming: Vec<u8>,
    expected: u8,
    last_payload: Vec<u8>,
    bad_frames: u8,
}

impl Link {
    /// The state of the link.
    pub closed spec fn state_of(&self) -> LinkState {
        self.state
    }

    /// The limits the link works with.
    pub closed spec fn config_of(&self) -> LinkConfig {
        self.config
    }

    /// The frames of the message waiting to be sent; empty when none waits.
    pub closed spec fn frames_of(&self) -> Seq<Seq<u8>> {
        vecs_view(self.outgoing@)
    }

    /// The index of the frame being sent.
    pub closed spec fn next_frame_of(&self) -> nat {
        self.next_frame as nat
    }

    /// Refusals so far of the current ENQ or frame.
    pub closed spec fn attempts_of(&self) -> nat {
        self.attempts as nat
    }

    /// Whether the host waits T1 before sending ENQ again.
    pub closed spec fn backing_off_of(&self) -> bool {
        self.backing_off
    }

    /// The text of the message received so far.
    pub closed spec fn incoming_of(&self) -> Seq<u8> {
        self.incoming@
    }

    /// The number of the next frame expected from the analyzer.
    pub closed spec fn expected_of(&self) -> u8 {
        self.expected
    }

    /// The text of the frame accepted last.
    pub closed spec fn last_payload_of(&self) -> Seq<u8> {
        self.last_payload@
    }

    /// Bad frames received in a row.
    pub closed spec fn bad_frames_of(&self) -> nat {
        self.bad_frames as nat
    }

    /// The invariant of the link.
    pub closed spec fn wf(&self) -> bool {
        &&& self.config.valid()
        &&& self.expected < 8
        &&& self.attempts < self.config.max_retransmissions
        &&& self.bad_frames < self.config.max_retransmissions
        &&& (self.state == LinkState::Establish ==> self.outgoing@.len() > 0)
        &&& (self.state == LinkState::TransferOut ==> self.next_frame < self.outgoing@.len())
    }

    /// Whether nothing but the receiving side changed between `self` and `other`.
    pub open spec fn same_sending(&self, other: &Link) -> bool {
        &&& other.frames_of() == self.frames_of()
        &&& other.next_frame_of() == self.next_frame_of()
        &&& other.config_of() == self.config_of()
    }

    /// A link in Neutral with nothing to send.
    pub fn new(config: LinkConfig) -> (r: Link)
        requires
            config.valid(),
        ensures
            r.wf(),
            r.state_of() == LinkState::Neutral,
            r.config_of() == config,
            r.frames_of().len() == 0,
            r.incoming_of().len() == 0,
            r.expected_of() == 1,
    {
        Link {
            state: LinkState::Neutral,
            config,
            outgoing: Vec::new(),
            next_frame: 0,
            attempts: 0,
            backing_off: false,
            incoming: Vec::new(),
            expected: 1,
            last_payload: Vec::new(),
            bad_frames: 0,
        }
    }

    /// The state of the link.
    pub fn state(&self) -> (r: LinkState)
        ensures
            r == self.state_of(),
    {
        self.state
    }

    /// Whether a message waits to be sent.
    pub fn has_pending(&self) -> (r: bool)
        ensures
            r == (self.frames_of().len() > 0),
    {
        self.outgoing.len() > 0
    }

    /// How long to wait for the next octet before reporting `Timer`: T1
    /// while a waiting message is to be retried or while backing off, T2 for
    /// an answer, T3 while receiving; `None` to wait without limit.
    pub open spec fn timeout_for(&self) -> Option<u64> {
        match self.state_of() {
            LinkState::Neutral => if self.frames_of().len() > 0 {
                Some(self.config_of().t1_backoff_ms)
            } else {
                None
            },
            LinkState::Establish => Some(
                if self.backing_off_of() {
                    self.config_of().t1_backoff_ms
                } else {
                    self.config_of().t2_response_ms
                },
            ),
            LinkState::TransferOut => Some(self.config_of().t2_response_ms),
            LinkState::TransferIn => Some(self.config_of().t3_inactivity_ms),
        }
    }

    /// How long to wait for the next octet before reporting `Timer`; `None`
    /// to wait without limit.
    pub fn timeout_ms(&self) -> (r: Option<u64>)
        ensures
            r == self.timeout_for(),
    {
        match self.state {
            LinkState::Neutral => {
                if self.outgoing.len() > 0 {
                    Some(self.config.t1_backoff_ms)
                } else {
                    None
                }
            },
            LinkState::Establish => {
                if self.backing_off {
                    Some(self.config.t1_backoff_ms)
                } else {
                    Some(self.config.t2_response_ms)
                }
            },
            LinkState::TransferOut => Some(self.config.t2_response_ms),
            LinkState::TransferIn => Some(self.config.t3_inactivity_ms),
        }
    }
}

/// A copy of `v`.
fn copy_of(v: &Vec<u8>) -> (r: Vec<u8>)
    ensures
        r@ == v@,
{
    let mut out: Vec<u8> = Vec::new();
    append(&mut out, v.as_slice());
    out
}

/// Whether the record texts of a received message make a complete message:
/// a Header first and a MessageTerminator last.
pub open spec fn texts_complete(texts: Seq<Seq<u8>>) -> bool {
    &&& texts.len() >= 2
    &&& kind_of_letter(texts[0][0]) == Some(RecordKind::Header)
    &&& kind_of_letter(texts[texts.len() - 1][0]) == Some(RecordKind::MessageTerminator)
}

/// Whether `new` keeps the sending side and limits of `old` and sits in
/// `state` with an empty receive buffer.
pub open spec fn receive_reset(old: Link, new: Link, state: LinkState) -> bool {
    &&& new.wf()
    &&& old.same_sending(&new)
    &&& new.state_of() == state
    &&& new.incoming_of().len() == 0
}

/// Whether `new` is `old` gone back to Neutral with its pending message dropped.
pub open spec fn dropped_to_neutral(old: Link, new: Link) -> bool {
    &&& new.wf()
    &&& new.state_of() == LinkState::Neutral
    &&& new.frames_of().len() == 0
    &&& new.config_of() == old.config_of()
}

/// A request to send a message: refused while another waits or when it is
/// not complete; otherwise its frames wait, and from Neutral the host sends ENQ.
pub open spec fn request_step(old: Link, new: Link, records: Seq<Record>, actions: Seq<LinkAction>) -> bool {
    if old.frames_of().len() > 0 {
        new == old && actions == seq![LinkAction::Notify(LinkNotice::Busy)]
    } else if !is_complete(records) {
        new == old && actions == seq![LinkAction::Notify(LinkNotice::InvalidMessage)]
    } else {
        &&& new.wf()
        &&& new.frames_of() == frames_for(records, old.config_of().max_frame_payload as nat)
        &&& new.config_of() == old.config_of()
        &&& if old.state_of() == LinkState::Neutral {
            &&& new.state_of() == LinkState::Establish
            &&& new.attempts_of() == 0
            &&& !new.backing_off_of()
            &&& actions == seq![LinkAction::Send(ENQ)]
        } else {
            &&& new.state_of() == old.state_of()
            &&& new.incoming_of() == old.incoming_of()
            &&& new.expected_of() == old.expected_of()
            &&& actions.len() == 0
        }
    }
}

/// Neutral: ENQ from the analyzer is acknowledged and it takes the line; the
/// timer starts establishment when a message waits.
pub open spec fn neutral_step(old: Link, new: Link, event: LinkEvent, actions: Seq<LinkAction>) -> bool {
    match event {
        LinkEvent::RxEnq => {
            &&& receive_reset(old, new, LinkState::TransferIn)
            &&& new.expected_of() == 1
            &&& actions == seq![LinkAction::Send(ACK)]
        },
        LinkEvent::Timer => if old.frames_of().len() > 0 {
            &&& new.wf()
            &&& old.same_sending(&new)
            &&& new.state_of() == LinkState::Establish
            &&& new.attempts_of() == 0
            &&& !new.backing_off_of()
            &&& actions == seq![LinkAction::Send(ENQ)]
        } else {
            new == old && actions.len() == 0
        },
        _ => new == old && actions.len() == 0,
    }
}

/// A refused or unanswered ENQ: back off, or give up after the last try.
pub open spec fn enq_refused(old: Link, new: Link, actions: Seq<LinkAction>) -> bool {
    if old.attempts_of() + 1 >= old.config_of().max_retransmissions {
        dropped_to_neutral(old, new) && actions == seq![
            LinkAction::Notify(LinkNotice::EstablishFailed),
        ]
    } else {
        &&& new.wf()
        &&& old.same_sending(&new)
        &&& new.state_of() == LinkState::Establish
        &&& new.backing_off_of()
        &&& new.attempts_of() == old.attempts_of() + 1
        &&& actions.len() == 0
    }
}

/// Establish: ACK opens the transfer with the first frame; ENQ from the
/// analyzer wins the line (the host yields); NAK or silence backs off.
pub open spec fn establish_step(old: Link, new: Link, event: LinkEvent, actions: Seq<LinkAction>) -> bool {
    match event {
        LinkEvent::RxAck => {
            &&& new.wf()
            &&& new.frames_of() == old.frames_of()
            &&& new.config_of() == old.config_of()
            &&& new.state_of() == LinkState::TransferOut
            &&& new.next_frame_of() == 0
            &&& new.attempts_of() == 0
            &&& sends_frame(actions, old.frames_of()[0])
        },
        LinkEvent::RxEnq => {
            &&& receive_reset(old, new, LinkState::TransferIn)
            &&& new.expected_of() == 1
            &&& actions == seq![LinkAction::Send(ACK)]
        },
        LinkEvent::RxNak => enq_refused(old, new, actions),
        LinkEvent::Timer => if old.backing_off_of() {
            &&& new.wf()
            &&& old.same_sending(&new)
            &&& new.state_of() == LinkState::Establish
            &&& !new.backing_off_of()
            &&& new.attempts_of() == old.attempts_of()
            &&& actions == seq![LinkAction::Send(ENQ)]
        } else {
            enq_refused(old, new, actions)
        },
        _ => dropped_to_neutral(old, new) && actions == seq![
            LinkAction::Notify(LinkNotice::ProtocolViolation),
        ],
    }
}

/// TransferOut: ACK moves to the next frame or, after the last, ends with
/// EOT; NAK or silence sends the same frame again, up to the limit.
pub open spec fn transfer_out_step(old: Link, new: Link, event: LinkEvent, actions: Seq<LinkAction>) -> bool {
    match event {
        LinkEvent::RxAck => if old.next_frame_of() + 1 == old.frames_of().len() {
            dropped_to_neutral(old, new) && actions == seq![
                LinkAction::Send(EOT),
                LinkAction::Notify(LinkNotice::MessageSent),
            ]
        } else {
            &&& new.wf()
            &&& new.state_of() == LinkState::TransferOut
            &&& new.frames_of() == old.frames_of()
            &&& new.next_frame_of() == old.next_frame_of() + 1
            &&& new.attempts_of() == 0
            &&& sends_frame(actions, old.frames_of()[old.next_frame_of() + 1int])
        },
        LinkEvent::RxNak | LinkEvent::Timer => if old.attempts_of() + 1
            >= old.config_of().max_retransmissions {
            dropped_to_neutral(old, new) && actions == seq![
                LinkAction::Send(EOT),
                LinkAction::Notify(LinkNotice::TransferFailed),
            ]
        } else {
            &&& new.wf()
            &&& new.state_of() == LinkState::TransferOut
            &&& old.same_sending(&new)
            &&& new.attempts_of() == old.attempts_of() + 1
            &&& sends_frame(actions, old.frames_of()[old.next_frame_of() as int])
        },
        _ => dropped_to_neutral(old, new) && actions == seq![
            LinkAction::Send(EOT),
            LinkAction::Notify(LinkNotice::ProtocolViolation),
        ],
    }
}

/// A frame received in TransferIn.
pub open spec fn frame_in_step(old: Link, new: Link, f: Seq<u8>, actions: Seq<LinkAction>) -> bool {
    if frame_ok(f) && f[1] - 0x30 == old.expected_of() {
        let text = old.incoming_of() + frame_text(f);
        &&& new.wf()
        &&& old.same_sending(&new)
        &&& new.state_of() == LinkState::TransferIn
        &&& new.expected_of() == (old.expected_of() + 1) % 8
        &&& new.bad_frames_of() == 0
        &&& new.last_payload_of() == frame_text(f)
        &&& if f[f.len() - 5] == ETX {
            &&& new.incoming_of().len() == 0
            &&& actions.len() == 2
            &&& actions[0] == LinkAction::Send(ACK)
            &&& if letters_valid(record_texts(text)) && texts_complete(record_texts(text)) {
                actions[1] matches LinkAction::Deliver(v) && records_of(v@, record_texts(text))
            } else {
                actions[1] == LinkAction::Notify(LinkNotice::MessageRejected)
            }
        } else {
            new.incoming_of() == text && actions == seq![LinkAction::Send(ACK)]
        }
    } else if frame_ok(f) && f[1] - 0x30 == previous_number(old.expected_of()) && frame_text(f)
        == old.last_payload_of() {
        new == old && actions == seq![LinkAction::Send(ACK)]
    } else if old.bad_frames_of() + 1 >= old.config_of().max_retransmissions {
        receive_reset(old, new, LinkState::Neutral) && actions == seq![
            LinkAction::Send(NAK),
            LinkAction::Notify(LinkNotice::TransferFailed),
        ]
    } else {
        &&& new.wf()
        &&& old.same_sending(&new)
        &&& new.state_of() == LinkState::TransferIn
        &&& new.bad_frames_of() == old.bad_frames_of() + 1
        &&& new.incoming_of() == old.incoming_of()
        &&& new.expected_of() == old.expected_of()
        &&& new.last_payload_of() == old.last_payload_of()
        &&& actions == seq![LinkAction::Send(NAK)]
    }
}

/// TransferIn: frames are acknowledged and collected, a repeated frame is
/// acknowledged once more without being kept, a bad one is refused; EOT or
/// silence ends the phase and drops a partial message.
pub open spec fn transfer_in_step(old: Link, new: Link, event: LinkEvent, actions: Seq<LinkAction>) -> bool {
    match event {
        LinkEvent::RxFrame(b) => frame_in_step(old, new, b@, actions),
        LinkEvent::RxEot => receive_reset(old, new, LinkState::Neutral) && actions.len() == 0,
        LinkEvent::Timer => receive_reset(old, new, LinkState::Neutral) && actions == seq![
            LinkAction::Notify(LinkNotice::LinkTimeout),
        ],
        _ => new == old && actions.len() == 0,
    }
}

/// One step of the link: the whole transition table.
pub open spec fn link_step(old: Link, new: Link, event: LinkEvent, actions: Seq<LinkAction>) -> bool {
    match event {
        LinkEvent::TxRequested(records) => request_step(old, new, records@, actions),
        _ => match old.state_of() {
            LinkState::Neutral => neutral_step(old, new, event, actions),
            LinkState::Establish => establish_step(old, new, event, actions),
            LinkState::TransferOut => transfer_out_step(old, new, event, actions),
            LinkState::TransferIn => transfer_in_step(old, new, event, actions),
        },
    }
}

/// The actions `[a]`.
fn one(a: LinkAction) -> (r: Vec<LinkAction>)
    ensures
        r@ == seq![a],
{
    let mut v: Vec<LinkAction> = Vec::new();
    v.push(a);
    v
}

/// The actions `[a, b]`.
fn two(a: LinkAction, b: LinkAction) -> (r: Vec<LinkAction>)
    ensures
        r@ == seq![a, b],
{
    let mut v: Vec<LinkAction> = Vec::new();
    v.push(a);
    v.push(b);
    v
}

/// Whether two octet sequences are equal.
fn same_octets(a: &[u8], b: &[u8]) -> (r: bool)
    ensures
        r == (a@ == b@),
{
    if a.len() != b.len() {
        return false;
    }
    let mut i: usize = 0;
    while i < a.len()
        invariant
            a@.len() == b@.len(),
            i <= a@.len(),
            forall|j: int| 0 <= j < i ==> a@[j] == b@[j],
        decreases a@.len() - i,
    {
        if a[i] != b[i] {
            return false;
        }
        i = i + 1;
    }
    proof {
        assert(a@ == b@);
    }
    true
}

/// A complete message gives at least one frame.
proof fn lemma_frames_nonempty(records: Seq<Record>, max: nat)
    requires
        records.len() > 0,
        max > 0,
    ensures
        frames_for(records, max).len() > 0,
{
    let raws = raws_of(records);
    assert(raws.len() > 0);
    let payload = message_payload_of(raws);
    assert(payload.len() > 0);
    assert(crate::frame::segments(payload, max).len() > 0);
}

impl Link {
    /// Forgets the message being received.
    fn reset_receive(&mut self)
        ensures
            final(self).incoming_of().len() == 0,
            final(self).expected_of() == 1,
            final(self).bad_frames_of() == 0,
            final(self).state == old(self).state,
            final(self).config == old(self).config,
            final(self).outgoing == old(self).outgoing,
            final(self).next_frame == old(self).next_frame,
            final(self).attempts == old(self).attempts,
            final(self).backing_off == old(self).backing_off,
    {
        self.incoming = Vec::new();
        self.last_payload = Vec::new();
        self.expected = 1;
        self.bad_frames = 0;
    }

    /// Drops the message waiting to be sent and goes back to Neutral.
    fn drop_to_neutral(&mut self)
        requires
            old(self).wf(),
        ensures
            dropped_to_neutral(*old(self), *final(self)),
    {
        self.state = LinkState::Neutral;
        self.outgoing = Vec::new();
        self.next_frame = 0;
        self.attempts = 0;
        self.backing_off = false;
    }

    fn request(&mut self, records: Vec<Record>) -> (actions: Vec<LinkAction>)
        requires
            old(self).wf(),
        ensures
            final(self).wf(),
            request_step(*old(self), *final(self), records@, actions@),
            deliveries_complete(actions@),
    {
        if self.outgoing.len() > 0 {
            return one(LinkAction::Notify(LinkNotice::Busy));
        }
        if !is_complete_message(&records) {
            return one(LinkAction::Notify(LinkNotice::InvalidMessage));
        }
        let payload = message_payload(&records);
        let frames = encode_message(payload.as_slice(), self.config.max_frame_payload);
        proof {
            lemma_frames_nonempty(records@, self.config.max_frame_payload as nat);
        }
        self.outgoing = frames;
        self.next_frame = 0;
        if self.state == LinkState::Neutral {
            self.state = LinkState::Establish;
            self.attempts = 0;
            self.backing_off = false;
            one(LinkAction::Send(ENQ))
        } else {
            Vec::new()
        }
    }

    fn on_neutral(&mut self, event: LinkEvent) -> (actions: Vec<LinkAction>)
        requires
            old(self).wf(),
            old(self).state_of() == LinkState::Neutral,
        ensures
            final(self).wf(),
            neutral_step(*old(self), *final(self), event, actions@),
            deliveries_complete(actions@),
    {
        match event {
            LinkEvent::RxEnq => {
                self.state = LinkState::TransferIn;
                self.reset_receive();
                one(LinkAction::Send(ACK))
            },
            LinkEvent::Timer => {
                if self.outgoing.len() > 0 {
                    self.state = LinkState::Establish;
                    self.attempts = 0;
                    self.backing_off = false;
                    one(LinkAction::Send(ENQ))
                } else {
                    Vec::new()
                }
            },
            _ => Vec::new(),
        }
    }

    fn refuse_enq(&mut self) -> (actions: Vec<LinkAction>)
        requires
            old(self).wf(),
            old(self).state_of() == LinkState::Establish,
        ensures
            enq_refused(*old(self), *final(self), actions@),
            final(self).wf(),
            deliveries_complete(actions@),
    {
        if self.attempts + 1 >= self.config.max_retransmissions {
            self.drop_to_neutral();
            one(LinkAction::Notify(LinkNotice::EstablishFailed))
        } else {
            self.attempts = self.attempts + 1;
            self.backing_off = true;
            Vec::new()
        }
    }

    fn on_establish(&mut self, event: LinkEvent) -> (actions: Vec<LinkAction>)
        requires
            old(self).wf(),
            old(self).state_of() == LinkState::Establish,
        ensures
            final(self).wf(),
            establish_step(*old(self), *final(self), event, actions@),
            deliveries_complete(actions@),
    {
        match event {
            LinkEvent::RxAck => {
                self.state = LinkState::TransferOut;
                self.next_frame = 0;
                self.attempts = 0;
                self.backing_off = false;
                one(LinkAction::SendFrame(copy_of(&self.outgoing[0])))
            },
            LinkEvent::RxEnq => {
                self.state = LinkState::TransferIn;
                self.attempts = 0;
                self.backing_off = false;
                self.reset_receive();
                one(LinkAction::Send(ACK))
            },
            LinkEvent::RxNak => self.refuse_enq(),
            LinkEvent::Timer => {
                if self.backing_off {
                    self.backing_off = false;
                    one(LinkAction::Send(ENQ))
                } else {
                    self.refuse_enq()
                }
            },
            _ => {
                self.drop_to_neutral();
                one(LinkAction::Notify(LinkNotice::ProtocolViolation))
            },
        }
    }

    fn resend_frame(&mut self) -> (actions: Vec<LinkAction>)
        requires
            old(self).wf(),
            old(self).state_of() == LinkState::TransferOut,
        ensures
            final(self).wf(),
            deliveries_complete(actions@),
            if old(self).attempts_of() + 1 >= old(self).config_of().max_retransmissions {
                dropped_to_neutral(*old(self), *final(self)) && actions@ == seq![
                    LinkAction::Send(EOT),
                    LinkAction::Notify(LinkNotice::TransferFailed),
                ]
            } else {
                &&& final(self).state_of() == LinkState::TransferOut
                &&& old(self).same_sending(&*final(self))
                &&& final(self).attempts_of() == old(self).attempts_of() + 1
                &&& sends_frame(actions@, old(self).frames_of()[old(self).next_frame_of() as int])
            },
    {
        if self.attempts + 1 >= self.config.max_retransmissions {
            self.drop_to_neutral();
            two(LinkAction::Send(EOT), LinkAction::Notify(LinkNotice::TransferFailed))
        } else {
            self.attempts = self.attempts + 1;
            one(LinkAction::SendFrame(copy_of(&self.outgoing[self.next_frame])))
        }
    }

    fn on_transfer_out(&mut self, event: LinkEvent) -> (actions: Vec<LinkAction>)
        requires
            old(self).wf(),
            old(self).state_of() == LinkState::TransferOut,
        ensures
            final(self).wf(),
            transfer_out_step(*old(self), *final(self), event, actions@),
            deliveries_complete(actions@),
    {
        match event {
            LinkEvent::RxAck => {
                assert(self.next_frame < self.outgoing.len());
                if self.next_frame + 1 == self.outgoing.len() {
                    self.drop_to_neutral();
                    two(LinkAction::Send(EOT), LinkAction::Notify(LinkNotice::MessageSent))
                } else {
                    self.next_frame = self.next_frame + 1;
                    self.attempts = 0;
                    one(LinkAction::SendFrame(copy_of(&self.outgoing[self.next_frame])))
                }
            },
            LinkEvent::RxNak => self.resend_frame(),
            LinkEvent::Timer => self.resend_frame(),
            _ => {
                self.drop_to_neutral();
                two(LinkAction::Send(EOT), LinkAction::Notify(LinkNotice::ProtocolViolation))
            },
        }
    }

    fn refuse_frame(&mut self) -> (actions: Vec<LinkAction>)
        requires
            old(self).wf(),
            old(self).state_of() == LinkState::TransferIn,
        ensures
            final(self).wf(),
            deliveries_complete(actions@),
            if old(self).bad_frames_of() + 1 >= old(self).config_of().max_retransmissions {
                receive_reset(*old(self), *final(self), LinkState::Neutral) && actions@ == seq![
                    LinkAction::Send(NAK),
                    LinkAction::Notify(LinkNotice::TransferFailed),
                ]
            } else {
                &&& old(self).same_sending(&*final(self))
                &&& final(self).state_of() == LinkState::TransferIn
                &&& final(self).bad_frames_of() == old(self).bad_frames_of() + 1
                &&& final(self).incoming_of() == old(self).incoming_of()
                &&& final(self).expected_of() == old(self).expected_of()
                &&& final(self).last_payload_of() == old(self).last_payload_of()
                &&& actions@ == seq![LinkAction::Send(NAK)]
            },
    {
        if self.bad_frames + 1 >= self.config.max_retransmissions {
            self.state = LinkState::Neutral;
            self.reset_receive();
            two(LinkAction::Send(NAK), LinkAction::Notify(LinkNotice::TransferFailed))
        } else {
            self.bad_frames = self.bad_frames + 1;
            one(LinkAction::Send(NAK))
        }
    }

    /// The actions that end a received message whose text is `text`.
    fn finish_message(text: &[u8]) -> (actions: Vec<LinkAction>)
        ensures
            deliveries_complete(actions@),
            actions@.len() == 2,
            actions@[0] == LinkAction::Send(ACK),
            if letters_valid(record_texts(text@)) && texts_complete(record_texts(text@)) {
                actions@[1] matches LinkAction::Deliver(v) && records_of(v@, record_texts(text@))
            } else {
                actions@[1] == LinkAction::Notify(LinkNotice::MessageRejected)
            },
    {
        let texts = Ghost(record_texts(text@));
        match records_from_payload(text) {
            Ok(v) => {
                proof {
                    if v@.len() >= 2 {
                        assert(v@[0].is_record(
                            kind_of_letter(texts@[0][0])->0,
                            crate::message::record_buffer(0, texts@[0]),
                        ));
                        let last = v@.len() - 1;
                        assert(v@[last].is_record(
                            kind_of_letter(texts@[last][0])->0,
                            crate::message::record_buffer(last, texts@[last]),
                        ));
                        assert(kind_of_letter(texts@[0][0]) is Some);
                        assert(kind_of_letter(texts@[last][0]) is Some);
                    }
                }
                if is_complete_message(&v) {
                    let r = two(LinkAction::Send(ACK), LinkAction::Deliver(v));
                    proof {
                        assert forall|i: int| 0 <= i < r@.len() implies (#[trigger] r@[i] matches LinkAction::Deliver(w)
                            ==> is_complete(w@)) by {
                            if i == 1 {
                                assert(r@[1] == LinkAction::Deliver(v));
                            }
                        }
                    }
                    r
                } else {
                    let r = two(LinkAction::Send(ACK), LinkAction::Notify(LinkNotice::MessageRejected));
                    proof {
                        assert(!(r@[0] is Deliver) && !(r@[1] is Deliver));
                    }
                    r
                }
            },
            Err(_) => {
                let r = two(LinkAction::Send(ACK), LinkAction::Notify(LinkNotice::MessageRejected));
                proof {
                    assert(!(r@[0] is Deliver) && !(r@[1] is Deliver));
                }
                r
            },
        }
    }

    fn on_frame(&mut self, bytes: Vec<u8>) -> (actions: Vec<LinkAction>)
        requires
            old(self).wf(),
            old(self).state_of() == LinkState::TransferIn,
        ensures
            final(self).wf(),
            frame_in_step(*old(self), *final(self), bytes@, actions@),
            deliveries_complete(actions@),
    {
        match decode_frame(bytes.as_slice()) {
            Ok(f) => {
                if f.number == self.expected {
                    append(&mut self.incoming, f.payload.as_slice());
                    self.last_payload = f.payload;
                    self.expected = (self.expected + 1) % 8;
                    self.bad_frames = 0;
                    if f.is_last {
                        let text = copy_of(&self.incoming);
                        self.incoming = Vec::new();
                        Link::finish_message(text.as_slice())
                    } else {
                        one(LinkAction::Send(ACK))
                    }
                } else if f.number == (self.expected + 7) % 8 && same_octets(
                    f.payload.as_slice(),
                    self.last_payload.as_slice(),
                ) {
                    one(LinkAction::Send(ACK))
                } else {
                    self.refuse_frame()
                }
            },
            Err(_) => self.refuse_frame(),
        }
    }

    fn on_transfer_in(&mut self, event: LinkEvent) -> (actions: Vec<LinkAction>)
        requires
            old(self).wf(),
            old(self).state_of() == LinkState::TransferIn,
        ensures
            final(self).wf(),
            transfer_in_step(*old(self), *final(self), event, actions@),
            deliveries_complete(actions@),
    {
        match event {
            LinkEvent::RxFrame(bytes) => self.on_frame(bytes),
            LinkEvent::RxEot => {
                self.state = LinkState::Neutral;
                self.reset_receive();
                Vec::new()
            },
            LinkEvent::Timer => {
                self.state = LinkState::Neutral;
                self.reset_receive();
                one(LinkAction::Notify(LinkNotice::LinkTimeout))
            },
            _ => Vec::new(),
        }
    }

    /// Performs one step of the link: the new state and the actions follow
    /// the transition table `link_step`, and every message handed upwards
    /// begins with a Header and ends with a MessageTerminator.
    pub fn step(&mut self, event: LinkEvent) -> (actions: Vec<LinkAction>)
        requires
            old(self).wf(),
        ensures
            final(self).wf(),
            link_step(*old(self), *final(self), event, actions@),
            deliveries_complete(actions@),
    {
        match event {
            LinkEvent::TxRequested(records) => self.request(records),
            _ => match self.state {
                LinkState::Neutral => self.on_neutral(event),
                LinkState::Establish => self.on_establish(event),
                LinkState::TransferOut => self.on_transfer_out(event),
                LinkState::TransferIn => self.on_transfer_in(event),
            },
        }
    }
}

} // verus!
