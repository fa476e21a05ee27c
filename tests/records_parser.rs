use astm_comms::{Delimiters, Header, MessageTerminator, Patient, Record, RecordError, ResultR, TestOrder};

const HEAD_RECORD: &[u8] = &[
    2, 49, 72, 124, 92, 94, 38, 124, 124, 124, 99, 49, 49, 49, 94, 82, 111, 99, 104, 101, 94, 99,
    49, 49, 49, 94, 52, 46, 50, 46, 50, 46, 49, 55, 51, 48, 94, 49, 94, 49, 51, 48, 56, 53, 124,
    124, 124, 124, 124, 104, 111, 115, 116, 124, 82, 83, 85, 80, 76, 94, 66, 65, 84, 67, 72, 124,
    80, 124, 49, 124, 50, 48, 50, 51, 48, 53, 50, 53, 49, 54, 52, 57, 51, 51, 13, 23, 70, 68, 13,
    10,
];
const PATIENT_RECORD: &[u8] = &[2, 50, 80, 124, 49, 124, 124, 13, 23, 52, 66, 13, 10];
const ORDER_RECORD: &[u8] = &[
    2, 51, 79, 124, 49, 124, 80, 67, 67, 67, 49, 94, 53, 50, 53, 48, 50, 55, 48, 48, 94, 50, 48,
    50, 51, 49, 50, 51, 49, 124, 49, 51, 57, 49, 124, 94, 94, 94, 55, 49, 50, 124, 124, 124, 124,
    124, 124, 124, 81, 124, 124, 124, 124, 124, 124, 124, 124, 124, 124, 124, 50, 48, 50, 51, 48,
    53, 50, 53, 49, 54, 52, 57, 51, 51, 124, 124, 124, 70, 13, 23, 48, 50, 13, 10,
];
const RESULT_RECORD: &[u8] = &[
    2, 52, 82, 124, 49, 124, 94, 94, 94, 55, 49, 50, 124, 48, 46, 57, 124, 109, 103, 47, 100, 76,
    124, 49, 46, 48, 92, 48, 46, 57, 92, 49, 46, 48, 124, 78, 124, 124, 82, 124, 124, 36, 83, 89,
    83, 36, 124, 124, 50, 48, 50, 51, 48, 52, 50, 56, 49, 56, 52, 49, 49, 54, 13, 23, 67, 55, 13,
    10,
];
const COMMENT_RECORD: &[u8] = &[2, 53, 67, 124, 49, 124, 73, 124, 124, 73, 13, 23, 52, 70, 13, 10];
const TERMINATION_RECORD: &[u8] = &[2, 54, 76, 124, 49, 124, 78, 13, 3, 48, 57, 13, 10];

#[test]
fn can_parse_records() {
    let output = Record::parse_from_buf(HEAD_RECORD).expect("failed to parse string");
    match output {
        Record::Header(k) => assert!(k.len() > 1),
        _ => panic!("Failed to parse header record \n {:?}", HEAD_RECORD),
    }

    let output = Record::parse_from_buf(PATIENT_RECORD).expect("failed to parse string");
    match output {
        Record::Patient(k) => assert!(k.len() > 1),
        _ => panic!("Failed to parse patient record \n {:?}", PATIENT_RECORD),
    }

    let output = Record::parse_from_buf(ORDER_RECORD).expect("failed to parse string");
    match output {
        Record::TestOrder(k) => assert!(k.len() > 1),
        _ => panic!("Failed to parse order record \n {:?}", ORDER_RECORD),
    }

    let output = Record::parse_from_buf(RESULT_RECORD).expect("failed to parse string");
    match output {
        Record::ResultR(k) => {
            assert!(k.len() > 1);
        }
        _ => panic!("Failed to parse result record \n {:?}", RESULT_RECORD),
    }

    let output = Record::parse_from_buf(COMMENT_RECORD).expect("failed to parse string");
    match output {
        Record::Comment(k) => assert!(k.len() > 1),
        _ => panic!("Failed to parse comment record \n {:?}", COMMENT_RECORD),
    }

    let output = Record::parse_from_buf(TERMINATION_RECORD).expect("failed to parse string");
    match output {
        Record::MessageTerminator(k) => assert!(k.len() > 1),
        _ => panic!("Failed to parse result record \n {:?}", TERMINATION_RECORD),
    }
}

#[test]
fn invalid_inputs_are_adequately_handles() {
    let input = b"14";
    let input1 = b"";
    let input2 = b"ajdf";

    assert!(Record::parse_from_buf(input).is_err());
    assert!(Record::parse_from_buf(input1).is_err());
    assert!(Record::parse_from_buf(input2).is_err());
}

#[test]
fn short_buffers_are_invalid_input() {
    assert!(matches!(Record::parse_from_buf(b"14"), Err(RecordError::InvalidInput(_))));
    assert!(matches!(Record::parse_from_buf(b""), Err(RecordError::InvalidInput(_))));
}

#[test]
fn unknown_letters_are_malformed_records() {
    assert!(matches!(Record::parse_from_buf(b"ajdf"), Err(RecordError::MalformedRecord(_))));
    assert!(matches!(Record::parse_from_buf(b"\x021X|1"), Err(RecordError::MalformedRecord(_))));
}

#[test]
fn classification_ignores_case() {
    let upper = Record::parse_from_buf(PATIENT_RECORD).unwrap();
    assert!(matches!(upper, Record::Patient(_)));
    let lower: &[u8] = &[2, b'2', b'p', b'|', b'1', b'|', b'|', 13, 23, b'4', b'B', 13, 10];
    assert!(matches!(Record::parse_from_buf(lower).unwrap(), Record::Patient(_)));
    let kinds: [(&[u8], fn(&Record) -> bool); 9] = [
        (b"\x021h|", |r| matches!(r, Record::Header(_))),
        (b"\x021o|", |r| matches!(r, Record::TestOrder(_))),
        (b"\x021r|", |r| matches!(r, Record::ResultR(_))),
        (b"\x021c|", |r| matches!(r, Record::Comment(_))),
        (b"\x021q|", |r| matches!(r, Record::RequestInformation(_))),
        (b"\x021s|", |r| matches!(r, Record::Scientific(_))),
        (b"\x021l|", |r| matches!(r, Record::MessageTerminator(_))),
        (b"\x021M|", |r| matches!(r, Record::ManufacturerInformation(_))),
        (b"\x021P|", |r| matches!(r, Record::Patient(_))),
    ];
    for (buf, is_kind) in kinds {
        assert!(is_kind(&Record::parse_from_buf(buf).unwrap()));
    }
}

#[test]
fn parsed_records_keep_every_octet() {
    let record = Record::parse_from_buf(RESULT_RECORD).unwrap();
    assert_eq!(record.raw_bytes(), RESULT_RECORD);
    let bytes = record.inner();
    assert_eq!(&bytes[..], RESULT_RECORD);
}

#[test]
fn parsing_twice_gives_equal_records() {
    let a = Record::parse_from_buf(ORDER_RECORD).unwrap();
    let b = Record::parse_from_buf(ORDER_RECORD).unwrap();
    assert_eq!(a, b);
    let c = Record::parse_from_buf(RESULT_RECORD).unwrap();
    assert_ne!(a, c);
}

#[test]
fn header_declares_its_delimiters() {
    let header = Header::new(Record::parse_from_buf(HEAD_RECORD).unwrap());
    let d = header.delimiters();
    assert_eq!(d.field(), b'|');
    assert_eq!(d.repeat(), b'\\');
    assert_eq!(d.component(), b'^');
    assert_eq!(d.escape(), b'&');
    assert_eq!(header.message_control_id(), None);
    assert_eq!(header.access_password(), None);
    assert_eq!(header.sender_id(), Some(&b"c111^Roche^c111^4.2.2.1730^1^13085"[..]));
    assert_eq!(header.receiver_id(), Some(&b"host"[..]));
    assert_eq!(header.special_instructions(), Some(&b"RSUPL^BATCH"[..]));
    assert_eq!(header.processing_id(), Some(&b"P"[..]));
    assert_eq!(header.version_number(), Some(&b"1"[..]));
    assert_eq!(header.sent_at(), Some(&b"20230525164933"[..]));
}

#[test]
fn short_header_takes_default_delimiters() {
    let header = Header::new(Record::parse_from_buf(b"\x021H|").unwrap());
    let d = header.delimiters();
    assert_eq!((d.field(), d.repeat(), d.component(), d.escape()), (b'|', b'\\', b'^', b'&'));

    let header = Header::new(Record::parse_from_buf(b"\x021H|||").unwrap());
    let d = header.delimiters();
    assert_eq!((d.field(), d.repeat(), d.component(), d.escape()), (b'|', b'|', b'|', b'&'));
    assert_eq!(header.message_control_id(), None);
}

#[test]
fn header_with_own_delimiters() {
    let header = Header::new(Record::parse_from_buf(b"\x021H!@#$!!!lab#one!\r").unwrap());
    let d = header.delimiters();
    assert_eq!((d.field(), d.repeat(), d.component(), d.escape()), (b'!', b'@', b'#', b'$'));
    let sender = header.sender_id().unwrap();
    assert_eq!(sender, b"lab#one");
    assert_eq!(d.component_at(sender, 0), Some(&b"lab"[..]));
    assert_eq!(d.component_at(sender, 1), Some(&b"one"[..]));
    assert_eq!(d.component_at(sender, 2), None);
}

#[test]
fn typed_records_read_their_fields() {
    let header = Header::new(Record::parse_from_buf(HEAD_RECORD).unwrap());

    let patient = Patient::new(Record::parse_from_buf(PATIENT_RECORD).unwrap(), header.delimiters());
    assert_eq!(patient.sequence_number(), Some(&b"1"[..]));
    assert_eq!(patient.doctors_id(), None);
    assert_eq!(patient.lab_id(), None);
    assert_eq!(patient.dosage_category(), None);

    let order = TestOrder::new(Record::parse_from_buf(ORDER_RECORD).unwrap(), header.delimiters());
    assert_eq!(order.sequence_number(), Some(&b"1"[..]));
    assert_eq!(order.specimen_id(), Some(&b"PCCC1^52502700^20231231"[..]));
    assert_eq!(order.instrument_specimen_id(), Some(&b"1391"[..]));
    assert_eq!(order.universal_test_id(), Some(&b"^^^712"[..]));
    assert_eq!(order.action_code(), Some(&b"Q"[..]));
    assert_eq!(order.result_reported_modified_at(), Some(&b"20230525164933"[..]));
    assert_eq!(order.report_type(), Some(&b"F"[..]));

    let result = ResultR::new(Record::parse_from_buf(RESULT_RECORD).unwrap(), header.delimiters());
    assert_eq!(result.measurement_value(), Some(&b"0.9"[..]));
    assert_eq!(result.units(), Some(&b"mg/dL"[..]));
    let ranges = result.reference_ranges().unwrap();
    assert_eq!(ranges, b"1.0\\0.9\\1.0");
    let d = header.delimiters();
    assert_eq!(d.repeat_at(ranges, 1), Some(&b"0.9"[..]));
    assert_eq!(result.abnormal_flag(), Some(&b"N"[..]));
    assert_eq!(result.status_code(), Some(&b"R"[..]));
    assert_eq!(result.operator_identification(), Some(&b"$SYS$"[..]));
    assert_eq!(result.test_completed_at(), Some(&b"20230428184116"[..]));
    assert_eq!(result.instrument_identification(), None);

    let end = MessageTerminator::new(Record::parse_from_buf(TERMINATION_RECORD).unwrap(), header.delimiters());
    assert_eq!(end.sequence_number(), Some(&b"1"[..]));
    assert_eq!(end.termination_code(), Some(&b"N"[..]));
    assert!(end.is_normal_termination());
}

#[test]
fn empty_termination_code_means_normal() {
    let field = b'|';
    let (r, c, e) = (b'\\', b'^', b'&');
    let absent = MessageTerminator::new(
        Record::parse_from_buf(b"\x027L|1\r").unwrap(),
        Delimiters::new(&field, &r, &c, &e),
    );
    assert_eq!(absent.termination_code(), None);
    assert!(absent.is_normal_termination());
    let empty = MessageTerminator::new(
        Record::parse_from_buf(b"\x027L|1|\r").unwrap(),
        Delimiters::new(&field, &r, &c, &e),
    );
    assert!(empty.is_normal_termination());
    let error = MessageTerminator::new(
        Record::parse_from_buf(b"\x027L|1|E\r").unwrap(),
        Delimiters::new(&field, &r, &c, &e),
    );
    assert_eq!(error.termination_code(), Some(&b"E"[..]));
    assert!(!error.is_normal_termination());
}

#[test]
fn encoded_fields_read_back() {
    let field = b'!';
    let (r, c, e) = (b'\\', b'^', b'&');
    let d = Delimiters::new(&field, &r, &c, &e);
    let fields: Vec<Vec<u8>> = vec![
        b"\x023R".to_vec(),
        b"2".to_vec(),
        b"^^^712".to_vec(),
        b"".to_vec(),
        b"mg/dL".to_vec(),
    ];
    let raw = astm_comms::record::encode_fields(&fields, &d);
    assert_eq!(raw, b"\x023R!2!^^^712!!mg/dL\r".to_vec());
    let result = ResultR::new(Record::parse_from_buf(&raw).unwrap(), Delimiters::new(&field, &r, &c, &e));
    assert_eq!(result.sequence_number(), Some(&b"2"[..]));
    assert_eq!(result.universal_test_id(), Some(&b"^^^712"[..]));
    assert_eq!(result.measurement_value(), None);
    assert_eq!(result.units(), Some(&b"mg/dL"[..]));
    assert_eq!(result.reference_ranges(), None);
}
