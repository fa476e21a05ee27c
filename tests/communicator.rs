use astm_comms::control::{ACK, ENQ, EOT, ETB, ETX};
use astm_comms::link::LinkConfig;
use astm_comms::{
    checksum, checksum_of_region, decode_frame, encode_frame, encode_message, hex_pair,
    is_complete_message, split_to_records, FrameError, Header, LinkAction, MessageTerminator,
    Record, RecordKind, Session,
};

const HEAD_RECORD: &[u8] = &[
    2, 49, 72, 124, 92, 94, 38, 124, 124, 124, 99, 49, 49, 49, 94, 82, 111, 99, 104, 101, 94, 99,
    49, 49, 49, 94, 52, 46, 50, 46, 50, 46, 49, 55, 51, 48, 94, 49, 94, 49, 51, 48, 56, 53, 124,
    124, 124, 124, 124, 104, 111, 115, 116, 124, 82, 83, 85, 80, 76, 94, 66, 65, 84, 67, 72, 124,
    80, 124, 49, 124, 50, 48, 50, 51, 48, 53, 50, 53, 49, 54, 52, 57, 51, 51, 13, 23, 70, 68, 13,
    10,
];
const PATIENT_RECORD: &[u8] = &[2, 50, 80, 124, 49, 124, 124, 13, 23, 52, 66, 13, 10];
const ORDER_RECORD: &[u8] = &[
    2, 51, 79, 124, 49, 124, 80, 67, 67, 67, 49, 94, 53, 50, 53, 48, 50, 55, 48, 48, 94, 50, 48,
    50, 51, 49, 50, 51, 49, 124, 49, 51, 57, 49, 124, 94, 94, 94, 55, 49, 50, 124, 124, 124, 124,
    124, 124, 124, 81, 124, 124, 124, 124, 124, 124, 124, 124, 124, 124, 124, 50, 48, 50, 51, 48,
    53, 50, 53, 49, 54, 52, 57, 51, 51, 124, 124, 124, 70, 13, 23, 48, 50, 13, 10,
];
const RESULT_RECORD: &[u8] = &[
    2, 52, 82, 124, 49, 124, 94, 94, 94, 55, 49, 50, 124, 48, 46, 57, 124, 109, 103, 47, 100, 76,
    124, 49, 46, 48, 92, 48, 46, 57, 92, 49, 46, 48, 124, 78, 124, 124, 82, 124, 124, 36, 83, 89,
    83, 36, 124, 124, 50, 48, 50, 51, 48, 52, 50, 56, 49, 56, 52, 49, 49, 54, 13, 23, 67, 55, 13,
    10,
];
const COMMENT_RECORD: &[u8] = &[2, 53, 67, 124, 49, 124, 73, 124, 124, 73, 13, 23, 52, 70, 13, 10];
const TERMINATION_RECORD: &[u8] = &[2, 54, 76, 124, 49, 124, 78, 13, 3, 48, 57, 13, 10];

#[test]
fn sending_multiple_records_for_splitting() {
    let message = vec![
        Record::parse_from_buf(HEAD_RECORD).expect("failed to parse buffer"),
        Record::parse_from_buf(PATIENT_RECORD).expect("failed to parse buffer"),
        Record::parse_from_buf(ORDER_RECORD).expect("failed to parse buffer"),
        Record::parse_from_buf(RESULT_RECORD).expect("failed to parse buffer"),
        Record::parse_from_buf(COMMENT_RECORD).expect("failed to parse buffer"),
        Record::parse_from_buf(TERMINATION_RECORD).expect("failed to parse buffer"),
    ];

    assert!(is_complete_message(&message));
    for record in message {
        assert!(record.inner().len() > 1);
    }
}

#[test]
fn checksum_calculates_correct_value() {
    let input = [02, b'\x31', b'\x54', b'\x65', b'\x73', b'\x74', 03, 52, 70, 13, 10];
    assert_eq!(checksum(&input), (b'D', b'4'))
}

#[test]
fn checksum_calculates_correct_value_for_record_types() {
    assert_eq!(checksum(HEAD_RECORD), (b'F', b'D'))
}

#[test]
fn checksum_of_a_minimal_region() {
    assert_eq!(checksum_of_region(&[b'1', b'T', b'e', b's', b't', ETX]), (b'D', b'4'));
}

#[test]
fn checksum_keeps_leading_zero_and_uppercase() {
    assert_eq!(hex_pair(0), (b'0', b'0'));
    assert_eq!(hex_pair(10), (b'0', b'A'));
    assert_eq!(hex_pair(255), (b'F', b'F'));
    assert_eq!(hex_pair(0x0D), (b'0', b'D'));
    assert_eq!(checksum_of_region(&[]), (b'0', b'0'));
    assert_eq!(checksum_of_region(&[10]), (b'0', b'A'));
    assert_eq!(checksum_of_region(&[200, 55]), (b'F', b'F'));
    assert_eq!(checksum_of_region(&[200, 56]), (b'0', b'0'));
}

#[test]
fn sample_frames_verify() {
    for frame in [HEAD_RECORD, PATIENT_RECORD, ORDER_RECORD, RESULT_RECORD, COMMENT_RECORD, TERMINATION_RECORD] {
        let decoded = decode_frame(frame).expect("sample frame verifies");
        assert_eq!(decoded.payload, frame[2..frame.len() - 5].to_vec());
    }
    let last = decode_frame(TERMINATION_RECORD).unwrap();
    assert_eq!(last.number, 6);
    assert!(last.is_last);
    let first = decode_frame(HEAD_RECORD).unwrap();
    assert_eq!(first.number, 1);
    assert!(!first.is_last);
}

#[test]
fn split_to_records_parses_a_frame() {
    let record = split_to_records(TERMINATION_RECORD);
    assert_eq!(record.kind(), RecordKind::MessageTerminator);
    assert_eq!(record.raw_bytes(), TERMINATION_RECORD);
}

#[test]
fn end_to_end_message_is_delivered_once() {
    let mut session = Session::new(LinkConfig::standard());
    let mut input: Vec<u8> = vec![ENQ];
    for frame in [HEAD_RECORD, PATIENT_RECORD, ORDER_RECORD, RESULT_RECORD, COMMENT_RECORD, TERMINATION_RECORD] {
        input.extend_from_slice(frame);
    }
    input.push(EOT);
    let actions = session.receive(&input);

    let acks = actions.iter().filter(|a| **a == LinkAction::Send(ACK)).count();
    assert_eq!(acks, 7);
    let deliveries: Vec<&Vec<Record>> = actions
        .iter()
        .filter_map(|a| match a {
            LinkAction::Deliver(v) => Some(v),
            _ => None,
        })
        .collect();
    assert_eq!(deliveries.len(), 1);
    assert_eq!(actions.len(), 8);
    let records = deliveries[0];
    let kinds: Vec<RecordKind> = records.iter().map(|r| r.kind()).collect();
    assert_eq!(
        kinds,
        vec![
            RecordKind::Header,
            RecordKind::Patient,
            RecordKind::TestOrder,
            RecordKind::ResultR,
            RecordKind::Comment,
            RecordKind::MessageTerminator
        ]
    );
    assert_eq!(records[0].raw_bytes(), &HEAD_RECORD[..HEAD_RECORD.len() - 5]);

    let mut records = match actions.into_iter().find(|a| matches!(a, LinkAction::Deliver(_))) {
        Some(LinkAction::Deliver(v)) => v,
        _ => unreachable!(),
    };
    let end = records.pop().unwrap();
    let header = Header::new(records.remove(0));
    assert_eq!(header.sent_at(), Some(&b"20230525164933"[..]));
    let end = MessageTerminator::new(end, header.delimiters());
    assert_eq!(end.termination_code(), Some(&b"N"[..]));
}

#[test]
fn frames_round_trip() {
    let frame = encode_frame(7, b"P|1||\r", false);
    assert_eq!(frame[0], 2);
    assert_eq!(frame[1], b'7');
    assert_eq!(frame[frame.len() - 5], ETB);
    let decoded = decode_frame(&frame).unwrap();
    assert_eq!(decoded.number, 7);
    assert_eq!(decoded.payload, b"P|1||\r".to_vec());
    assert!(!decoded.is_last);

    let rebuilt = encode_frame(2, b"P|1||\r", false);
    assert_eq!(rebuilt, PATIENT_RECORD.to_vec());
    let rebuilt = encode_frame(6, b"L|1|N\r", true);
    assert_eq!(rebuilt, TERMINATION_RECORD.to_vec());
}

#[test]
fn lowercase_checksum_is_accepted() {
    let mut frame = PATIENT_RECORD.to_vec();
    frame[10] = b'b';
    assert!(decode_frame(&frame).is_ok());
}

#[test]
fn bad_frames_are_refused() {
    let mut wrong_sum = PATIENT_RECORD.to_vec();
    wrong_sum[10] = b'C';
    assert_eq!(decode_frame(&wrong_sum), Err(FrameError::BadFrame));
    let mut no_stx = PATIENT_RECORD.to_vec();
    no_stx[0] = 1;
    assert_eq!(decode_frame(&no_stx), Err(FrameError::BadFrame));
    let mut bad_number = PATIENT_RECORD.to_vec();
    bad_number[1] = b'8';
    assert_eq!(decode_frame(&bad_number), Err(FrameError::BadFrame));
    let mut bad_end = PATIENT_RECORD.to_vec();
    bad_end[12] = 13;
    assert_eq!(decode_frame(&bad_end), Err(FrameError::BadFrame));
    let mut bad_terminator = PATIENT_RECORD.to_vec();
    bad_terminator[8] = 4;
    assert_eq!(decode_frame(&bad_terminator), Err(FrameError::BadFrame));
    assert_eq!(decode_frame(&PATIENT_RECORD[..6]), Err(FrameError::BadFrame));
}

#[test]
fn frame_payload_without_cr_is_accepted() {
    let frame = encode_frame(3, b"partial", false);
    assert_eq!(decode_frame(&frame).unwrap().payload, b"partial".to_vec());
}

#[test]
fn payload_of_max_length_fits_one_frame() {
    let payload = vec![b'x'; 240];
    let frames = encode_message(&payload, 240);
    assert_eq!(frames.len(), 1);
    assert_eq!(frames[0][frames[0].len() - 5], ETX);

    let payload = vec![b'x'; 241];
    let frames = encode_message(&payload, 240);
    assert_eq!(frames.len(), 2);
    assert_eq!(frames[0][frames[0].len() - 5], ETB);
    assert_eq!(frames[1][frames[1].len() - 5], ETX);
    assert_eq!(decode_frame(&frames[0]).unwrap().payload.len(), 240);
    assert_eq!(decode_frame(&frames[1]).unwrap().payload.len(), 1);
}

#[test]
fn frame_numbers_cycle_modulo_eight() {
    let payload = vec![b'x'; 2000];
    let frames = encode_message(&payload, 240);
    assert_eq!(frames.len(), 9);
    let numbers: Vec<u8> = frames.iter().map(|f| decode_frame(f).unwrap().number).collect();
    assert_eq!(numbers, vec![1, 2, 3, 4, 5, 6, 7, 0, 1]);
    for f in &frames {
        let (c1, c2) = checksum(f);
        assert_eq!((f[f.len() - 4], f[f.len() - 3]), (c1, c2));
        assert!(!f[f.len() - 4].is_ascii_lowercase() && !f[f.len() - 3].is_ascii_lowercase());
    }
}

#[test]
fn frames_split_on_record_boundaries() {
    let mut payload = vec![b'a'; 5];
    payload.push(13);
    payload.extend_from_slice(&[b'b'; 5]);
    payload.push(13);
    let frames = encode_message(&payload, 8);
    let texts: Vec<Vec<u8>> = frames.iter().map(|f| decode_frame(f).unwrap().payload).collect();
    assert_eq!(texts, vec![b"aaaaa\r".to_vec(), b"bbbbb\r".to_vec()]);

    let long = vec![b'z'; 20];
    let frames = encode_message(&long, 8);
    let sizes: Vec<usize> = frames.iter().map(|f| decode_frame(f).unwrap().payload.len()).collect();
    assert_eq!(sizes, vec![8, 8, 4]);
}
