use astm_comms::control::{ACK, ENQ, EOT, NAK};
use astm_comms::link::LinkConfig;
use astm_comms::{
    decode_frame, encode_frame, field_in_message, next_event, poll_decision,
    probe_reply_compliant, records_from_payload, Link, LinkAction, LinkEvent, LinkNotice,
    LinkState, PollAction, Record, RecordError, RecordKind, Session,
};

const HEAD: &[u8] = b"\x021H|\\^&|||c111^Roche|||||host||P|1|20230525164933\r";
const END: &[u8] = b"\x022L|1|N\r";

fn message() -> Vec<Record> {
    vec![Record::parse_from_buf(HEAD).unwrap(), Record::parse_from_buf(END).unwrap()]
}

fn link_in_transfer_out() -> (Link, Vec<u8>) {
    let mut link = Link::new(LinkConfig::standard());
    assert_eq!(link.step(LinkEvent::TxRequested(message())), vec![LinkAction::Send(ENQ)]);
    let actions = link.step(LinkEvent::RxAck);
    assert_eq!(link.state(), LinkState::TransferOut);
    let frame = match &actions[..] {
        [LinkAction::SendFrame(f)] => f.clone(),
        other => panic!("unexpected actions {:?}", other),
    };
    (link, frame)
}

#[test]
fn contention_yields_to_the_analyzer() {
    let mut link = Link::new(LinkConfig::standard());
    let actions = link.step(LinkEvent::TxRequested(message()));
    assert_eq!(actions, vec![LinkAction::Send(ENQ)]);
    assert_eq!(link.state(), LinkState::Establish);
    let actions = link.step(LinkEvent::RxEnq);
    assert_eq!(actions, vec![LinkAction::Send(ACK)]);
    assert_eq!(link.state(), LinkState::TransferIn);
    assert!(link.has_pending());

    assert_eq!(link.step(LinkEvent::RxEot), vec![]);
    assert_eq!(link.state(), LinkState::Neutral);
    assert_eq!(link.timeout_ms(), Some(2000));
    assert_eq!(link.step(LinkEvent::Timer), vec![LinkAction::Send(ENQ)]);
    assert_eq!(link.state(), LinkState::Establish);
}

#[test]
fn message_is_sent_frame_by_frame() {
    let (mut link, frame) = link_in_transfer_out();
    let decoded = decode_frame(&frame).unwrap();
    assert_eq!(decoded.number, 1);
    assert!(decoded.is_last);
    assert_eq!(decoded.payload, b"H|\\^&|||c111^Roche|||||host||P|1|20230525164933\rL|1|N\r".to_vec());
    let actions = link.step(LinkEvent::RxAck);
    assert_eq!(actions, vec![LinkAction::Send(EOT), LinkAction::Notify(LinkNotice::MessageSent)]);
    assert_eq!(link.state(), LinkState::Neutral);
    assert!(!link.has_pending());
    assert_eq!(link.timeout_ms(), None);
}

#[test]
fn nak_resends_the_same_frame() {
    let (mut link, frame) = link_in_transfer_out();
    for _ in 0..5 {
        assert_eq!(link.step(LinkEvent::RxNak), vec![LinkAction::SendFrame(frame.clone())]);
    }
    let actions = link.step(LinkEvent::RxNak);
    assert_eq!(actions, vec![LinkAction::Send(EOT), LinkAction::Notify(LinkNotice::TransferFailed)]);
    assert_eq!(link.state(), LinkState::Neutral);
}

#[test]
fn timeout_while_sending_counts_as_nak() {
    let (mut link, frame) = link_in_transfer_out();
    assert_eq!(link.timeout_ms(), Some(15000));
    assert_eq!(link.step(LinkEvent::Timer), vec![LinkAction::SendFrame(frame)]);
}

#[test]
fn refused_establishment_backs_off_then_fails() {
    let mut link = Link::new(LinkConfig::standard());
    link.step(LinkEvent::TxRequested(message()));
    for _ in 0..5 {
        assert_eq!(link.step(LinkEvent::RxNak), vec![]);
        assert_eq!(link.timeout_ms(), Some(2000));
        assert_eq!(link.step(LinkEvent::Timer), vec![LinkAction::Send(ENQ)]);
        assert_eq!(link.timeout_ms(), Some(15000));
    }
    assert_eq!(link.step(LinkEvent::RxNak), vec![LinkAction::Notify(LinkNotice::EstablishFailed)]);
    assert_eq!(link.state(), LinkState::Neutral);
    assert!(!link.has_pending());
}

#[test]
fn unexpected_octet_during_establishment() {
    let mut link = Link::new(LinkConfig::standard());
    link.step(LinkEvent::TxRequested(message()));
    assert_eq!(link.step(LinkEvent::RxOther(b'x')), vec![LinkAction::Notify(LinkNotice::ProtocolViolation)]);
    assert_eq!(link.state(), LinkState::Neutral);
}

#[test]
fn second_message_is_refused_while_one_waits() {
    let mut link = Link::new(LinkConfig::standard());
    link.step(LinkEvent::TxRequested(message()));
    assert_eq!(link.step(LinkEvent::TxRequested(message())), vec![LinkAction::Notify(LinkNotice::Busy)]);
}

#[test]
fn incomplete_message_is_not_sent() {
    let mut link = Link::new(LinkConfig::standard());
    let only_header = vec![Record::parse_from_buf(HEAD).unwrap()];
    assert_eq!(
        link.step(LinkEvent::TxRequested(only_header)),
        vec![LinkAction::Notify(LinkNotice::InvalidMessage)]
    );
    assert_eq!(link.state(), LinkState::Neutral);
}

#[test]
fn receiving_side_naks_bad_frames_and_skips_repeats() {
    let mut link = Link::new(LinkConfig::standard());
    assert_eq!(link.step(LinkEvent::RxEnq), vec![LinkAction::Send(ACK)]);
    let first = encode_frame(1, b"H|\\^&\r", false);
    let mut broken = first.clone();
    broken[3] = b'!';
    assert_eq!(link.step(LinkEvent::RxFrame(broken)), vec![LinkAction::Send(NAK)]);
    assert_eq!(link.step(LinkEvent::RxFrame(first.clone())), vec![LinkAction::Send(ACK)]);
    assert_eq!(link.step(LinkEvent::RxFrame(first)), vec![LinkAction::Send(ACK)]);
    let last = encode_frame(2, b"L|1|N\r", true);
    let actions = link.step(LinkEvent::RxFrame(last));
    assert_eq!(actions.len(), 2);
    assert_eq!(actions[0], LinkAction::Send(ACK));
    match &actions[1] {
        LinkAction::Deliver(v) => {
            assert_eq!(v.len(), 2);
            assert_eq!(v[0].raw_bytes(), b"\x021H|\\^&\r");
            assert_eq!(v[1].raw_bytes(), b"\x022L|1|N\r");
        }
        other => panic!("unexpected action {:?}", other),
    }
}

#[test]
fn six_bad_frames_abort_the_transfer() {
    let mut link = Link::new(LinkConfig::standard());
    link.step(LinkEvent::RxEnq);
    for _ in 0..5 {
        assert_eq!(link.step(LinkEvent::RxFrame(b"\x02garbage\r\n".to_vec())), vec![LinkAction::Send(NAK)]);
    }
    assert_eq!(
        link.step(LinkEvent::RxFrame(b"\x02garbage\r\n".to_vec())),
        vec![LinkAction::Send(NAK), LinkAction::Notify(LinkNotice::TransferFailed)]
    );
    assert_eq!(link.state(), LinkState::Neutral);
}

#[test]
fn partial_message_is_dropped_on_eot_or_silence() {
    let mut link = Link::new(LinkConfig::standard());
    link.step(LinkEvent::RxEnq);
    link.step(LinkEvent::RxFrame(encode_frame(1, b"H|\\^&\r", false)));
    assert_eq!(link.step(LinkEvent::RxEot), vec![]);
    assert_eq!(link.state(), LinkState::Neutral);

    link.step(LinkEvent::RxEnq);
    assert_eq!(link.timeout_ms(), Some(30000));
    link.step(LinkEvent::RxFrame(encode_frame(1, b"H|\\^&\r", false)));
    assert_eq!(link.step(LinkEvent::Timer), vec![LinkAction::Notify(LinkNotice::LinkTimeout)]);
    // after the reset, a message starts afresh with frame 1
    link.step(LinkEvent::RxEnq);
    link.step(LinkEvent::RxFrame(encode_frame(1, b"H|\\^&\r", false)));
    let actions = link.step(LinkEvent::RxFrame(encode_frame(2, b"L|1\r", true)));
    assert!(matches!(&actions[1], LinkAction::Deliver(v) if v.len() == 2));
}

#[test]
fn message_without_terminator_is_rejected() {
    let mut link = Link::new(LinkConfig::standard());
    link.step(LinkEvent::RxEnq);
    let actions = link.step(LinkEvent::RxFrame(encode_frame(1, b"H|\\^&\rP|1\r", true)));
    assert_eq!(actions, vec![LinkAction::Send(ACK), LinkAction::Notify(LinkNotice::MessageRejected)]);
    let actions = link.step(LinkEvent::RxFrame(encode_frame(2, b"H|\\^&\rX|1\rL|1\r", true)));
    assert_eq!(actions, vec![LinkAction::Send(ACK), LinkAction::Notify(LinkNotice::MessageRejected)]);
}

#[test]
fn payload_lines_become_records() {
    let records = records_from_payload(b"H|\\^&\rP|1\r\rL|1|N\r").unwrap();
    assert_eq!(records.len(), 3);
    assert_eq!(records[1].kind(), RecordKind::Patient);
    assert_eq!(records[1].raw_bytes(), b"\x022P|1\r");
    assert_eq!(records[2].raw_bytes(), b"\x023L|1|N\r");
    assert!(matches!(records_from_payload(b"H|\rZ|1\r"), Err(RecordError::MalformedRecord(_))));
    assert_eq!(records_from_payload(b"").unwrap().len(), 0);
}

#[test]
fn fields_are_read_with_the_header_delimiters() {
    let message = vec![
        Record::parse_from_buf(b"\x021H!@#$\r").unwrap(),
        Record::parse_from_buf(b"\x022P!7!a|b!c\r").unwrap(),
        Record::parse_from_buf(b"\x023L!1!N\r").unwrap(),
    ];
    assert_eq!(field_in_message(&message, 1, 1), Some(&b"7"[..]));
    assert_eq!(field_in_message(&message, 1, 2), Some(&b"a|b"[..]));
    assert_eq!(field_in_message(&message, 2, 2), Some(&b"N"[..]));
    assert_eq!(field_in_message(&message, 2, 3), None);
}

#[test]
fn received_octets_become_events() {
    assert!(next_event(b"").is_none());
    assert!(matches!(next_event(&[ENQ, 9]), Some((LinkEvent::RxEnq, 1))));
    assert!(matches!(next_event(&[ACK]), Some((LinkEvent::RxAck, 1))));
    assert!(matches!(next_event(&[NAK]), Some((LinkEvent::RxNak, 1))));
    assert!(matches!(next_event(&[EOT]), Some((LinkEvent::RxEot, 1))));
    assert!(matches!(next_event(b"z"), Some((LinkEvent::RxOther(b'z'), 1))));
    assert!(next_event(b"\x021H|\r\x17").is_none());
    match next_event(b"\x021H|\r\x1712\r\n\x04") {
        Some((LinkEvent::RxFrame(f), 10)) => assert_eq!(f, b"\x021H|\r\x1712\r\n".to_vec()),
        other => panic!("unexpected event {:?}", other),
    }
}

#[test]
fn session_takes_up_split_input() {
    let mut session = Session::new(LinkConfig::standard());
    assert_eq!(session.receive(&[ENQ]), vec![LinkAction::Send(ACK)]);
    let frame = encode_frame(1, b"H|\\^&\rL|1|N\r", true);
    assert_eq!(session.receive(&frame[..5]), vec![]);
    let actions = session.receive(&frame[5..]);
    assert_eq!(actions.len(), 2);
    assert!(matches!(&actions[1], LinkAction::Deliver(v) if v.len() == 2));
    assert_eq!(session.receive(&[EOT]), vec![]);
    assert_eq!(session.link().state(), LinkState::Neutral);
    assert_eq!(session.timeout_ms(), None);
    assert_eq!(session.send_message(message()), vec![LinkAction::Send(ENQ)]);
    assert_eq!(session.on_timeout(), vec![]);
    assert_eq!(session.on_timeout(), vec![LinkAction::Send(ENQ)]);
}

#[test]
fn probe_wants_a_single_ack() {
    assert!(probe_reply_compliant(&[ACK]));
    assert!(!probe_reply_compliant(&[NAK]));
    assert!(!probe_reply_compliant(&[ACK, ACK]));
    assert!(!probe_reply_compliant(&[]));
}

#[test]
fn poll_cadence() {
    assert_eq!(poll_decision(0, 0), PollAction::Idle);
    assert_eq!(poll_decision(3, 0), PollAction::Idle);
    assert_eq!(poll_decision(3, 8), PollAction::Settle);
    assert_eq!(poll_decision(8, 8), PollAction::Read);
    assert_eq!(poll_decision(8, 3), PollAction::Recheck);
}
