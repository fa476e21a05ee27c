//! The typed views of records: the Header, which declares the delimiters,
//! and the record kinds whose fields are read with a message's delimiters.
//! Field numbers count from 1 at the piece that holds the type letter, so
//! field `k` is piece `k - 1` of the record text.

use crate::fields::opt_view;
use crate::record::{
    bytes_content, bytes_slice, declared_delimiters, delimiters_in, field_at, record_field,
    Delimiters, Record, RecordKind,
};
use bytes::Bytes;
use vstd::prelude::*;

verus! {

/// The octets of a non-Header record and the delimiters of its message.
#[derive(Debug)]
struct BaseRecord<'a> {
    raw_data: Bytes,
    delimiter: Delimiters<'a>,
}

impl<'a> BaseRecord<'a> {
    /// The raw octets of the record.
    pub closed spec fn raw(&self) -> Seq<u8> {
        bytes_content(self.raw_data)
    }

    /// The delimiters the record is read with.
    pub closed spec fn delimiters_used(&self) -> (u8, u8, u8, u8) {
        self.delimiter.octets()
    }

    pub fn new(bytes: Bytes, delimiter: Delimiters<'a>) -> (r: BaseRecord<'a>)
        ensures
            r.raw() == bytes_content(bytes),
            r.delimiters_used() == delimiter.octets(),
    {
        BaseRecord { raw_data: bytes, delimiter }
    }

    /// Piece `position` of the record text, split by the field delimiter.
    fn at_field_pos(&self, position: usize) -> (r: Option<&[u8]>)
        ensures
            opt_view(r) == record_field(self.raw(), self.delimiters_used().0, position as nat),
    {
        field_at(bytes_slice(&self.raw_data), self.delimiter.field(), position)
    }
}

/// The Header record of a message, with the delimiters it declares.
#[derive(Debug)]
pub struct Header {
    raw_data: Bytes,
    field_delim: u8,
    repeat_delim: u8,
    component_delim: u8,
    escape_delim: u8,
}

impl Header {
    /// The raw octets of this Header.
    pub closed spec fn raw(&self) -> Seq<u8> {
        bytes_content(self.raw_data)
    }

    /// The delimiters this Header declares, as (field, repeat, component, escape).
    pub closed spec fn declared(&self) -> (u8, u8, u8, u8) {
        (self.field_delim, self.repeat_delim, self.component_delim, self.escape_delim)
    }

    /// Piece `n` of this Header's text, split by its field delimiter.
    pub open spec fn field(&self, n: nat) -> Option<Seq<u8>> {
        record_field(self.raw(), self.declared().0, n)
    }

    /// Reads the delimiters at positions 3 to 6 of a Header record; an
    /// absent position takes its default (`|`, `\`, `^`, `&`).
    pub fn new(record: Record) -> (r: Header)
        requires
            record.kind_of() == RecordKind::Header,
        ensures
            r.raw() == record.raw(),
            r.declared() == declared_delimiters(record.raw()),
    {
        match record {
            Record::Header(bytes) => {
                let (field_delim, repeat_delim, component_delim, escape_delim) =
                    delimiters_in(bytes_slice(&bytes));
                Header { raw_data: bytes, field_delim, repeat_delim, component_delim, escape_delim }
            },
            _ => vstd::pervasive::unreached(),
        }
    }

    /// The delimiters this Header declares, for the other records of its message.
    pub fn delimiters(&self) -> (r: Delimiters<'_>)
        ensures
            r.octets() == self.declared(),
    {
        Delimiters::new(&self.field_delim, &self.repeat_delim, &self.component_delim, &self.escape_delim)
    }

    /// Piece `pos` of this Header's text, split by its field delimiter.
    fn at_field_position(&self, pos: usize) -> (r: Option<&[u8]>)
        ensures
            opt_view(r) == self.field(pos as nat),
    {
        field_at(bytes_slice(&self.raw_data), self.field_delim, pos)
    }

    /// Message control id: field 3.
    pub fn message_control_id(&self) -> (r: Option<&[u8]>)
        ensures
            opt_view(r) == self.field(2),
    {
        self.at_field_position(2)
    }

    /// Access password: field 4.
    pub fn access_password(&self) -> (r: Option<&[u8]>)
        ensures
            opt_view(r) == self.field(3),
    {
        self.at_field_position(3)
    }

    /// Sender id: field 5.
    pub fn sender_id(&self) -> (r: Option<&[u8]>)
        ensures
            opt_view(r) == self.field(4),
    {
        self.at_field_position(4)
    }

    /// Sender street address: field 6.
    pub fn sender_street_address(&self) -> (r: Option<&[u8]>)
        ensures
            opt_view(r) == self.field(5),
    {
        self.at_field_position(5)
    }

    /// Reserved field: field 7.
    pub fn reserved_field(&self) -> (r: Option<&[u8]>)
        ensures
            opt_view(r) == self.field(6),
    {
        self.at_field_position(6)
    }

    /// Sender telephone: field 8.
    pub fn sender_telephone(&self) -> (r: Option<&[u8]>)
        ensures
            opt_view(r) == self.field(7),
    {
        self.at_field_position(7)
    }

    /// Sender characteristics: field 9.
    pub fn sender_characteristics(&self) -> (r: Option<&[u8]>)
        ensures
            opt_view(r) == self.field(8),
    {
        self.at_field_position(8)
    }

    /// Receiver id: field 10.
    pub fn receiver_id(&self) -> (r: Option<&[u8]>)
        ensures
            opt_view(r) == self.field(9),
    {
        self.at_field_position(9)
    }

    /// Special instructions: field 11.
    pub fn special_instructions(&self) -> (r: Option<&[u8]>)
        ensures
            opt_view(r) == self.field(10),
    {
        self.at_field_position(10)
    }

    /// Processing id: field 12.
    pub fn processing_id(&self) -> (r: Option<&[u8]>)
        ensures
            opt_view(r) == self.field(11),
    {
        self.at_field_position(11)
    }

    /// Version number: field 13.
    pub fn version_number(&self) -> (r: Option<&[u8]>)
        ensures
            opt_view(r) == self.field(12),
    {
        self.at_field_position(12)
    }

    /// Sent at: field 14.
    pub fn sent_at(&self) -> (r: Option<&[u8]>)
        ensures
            opt_view(r) == self.field(13),
    {
        self.at_field_position(13)
    }
}

/// A Patient record.
#[derive(Debug)]
pub struct Patient<'a>(BaseRecord<'a>);

impl<'a> Patient<'a> {
    /// The raw octets of this record.
    pub closed spec fn raw(&self) -> Seq<u8> {
        self.0.raw()
    }

    /// The delimiters this record is read with.
    pub closed spec fn delimiters_used(&self) -> (u8, u8, u8, u8) {
        self.0.delimiters_used()
    }

    /// Piece `n` of this record's text, split by the field delimiter in use.
    pub open spec fn field(&self, n: nat) -> Option<Seq<u8>> {
        record_field(self.raw(), self.delimiters_used().0, n)
    }

    /// Reads a Patient record with the delimiters of its message.
    pub fn new(record: Record, delimiter: Delimiters<'a>) -> (r: Patient<'a>)
        requires
            record.kind_of() == RecordKind::Patient,
        ensures
            r.raw() == record.raw(),
            r.delimiters_used() == delimiter.octets(),
    {
        match record {
            Record::Patient(bytes) => Patient(BaseRecord::new(bytes, delimiter)),
            _ => vstd::pervasive::unreached(),
        }
    }

    /// Sequence number: field 2.
    pub fn sequence_number(&self) -> (r: Option<&[u8]>)
        ensures
            opt_view(r) == self.field(1),
    {
        self.0.at_field_pos(1)
    }

    /// Doctors id: field 3.
    pub fn doctors_id(&self) -> (r: Option<&[u8]>)
        ensures
            opt_view(r) == self.field(2),
    {
        self.0.at_field_pos(2)
    }

    /// Lab id: field 4.
    pub fn lab_id(&self) -> (r: Option<&[u8]>)
        ensures
            opt_view(r) == self.field(3),
    {
        self.0.at_field_pos(3)
    }

    /// Other id: field 5.
    pub fn other_id(&self) -> (r: Option<&[u8]>)
        ensures
            opt_view(r) == self.field(4),
    {
        self.0.at_field_pos(4)
    }

    /// Name: field 6.
    pub fn name(&self) -> (r: Option<&[u8]>)
        ensures
            opt_view(r) == self.field(5),
    {
        self.0.at_field_pos(5)
    }

    /// Mothers maiden name: field 7.
    pub fn mothers_maiden_name(&self) -> (r: Option<&[u8]>)
        ensures
            opt_view(r) == self.field(6),
    {
        self.0.at_field_pos(6)
    }

    /// Date of birth: field 8.
    pub fn date_of_birth(&self) -> (r: Option<&[u8]>)
        ensures
            opt_view(r) == self.field(7),
    {
        self.0.at_field_pos(7)
    }

    /// Gender: field 9.
    pub fn gender(&self) -> (r: Option<&[u8]>)
        ensures
            opt_view(r) == self.field(8),
    {
        self.0.at_field_pos(8)
    }

    /// Ethnic origin: field 10.
    pub fn ethnic_origin(&self) -> (r: Option<&[u8]>)
        ensures
            opt_view(r) == self.field(9),
    {
        self.0.at_field_pos(9)
    }

    /// Address: field 11.
    pub fn address(&self) -> (r: Option<&[u8]>)
        ensures
            opt_view(r) == self.field(10),
    {
        self.0.at_field_pos(10)
    }

    /// Reserved field: field 12.
    pub fn reserved_field(&self) -> (r: Option<&[u8]>)
        ensures
            opt_view(r) == self.field(11),
    {
        self.0.at_field_pos(11)
    }

    /// Telephone number: field 13.
    pub fn telephone_number(&self) -> (r: Option<&[u8]>)
        ensures
            opt_view(r) == self.field(12),
    {
        self.0.at_field_pos(12)
    }

    /// Physician id: field 14.
    pub fn physician_id(&self) -> (r: Option<&[u8]>)
        ensures
            opt_view(r) == self.field(13),
    {
        self.0.at_field_pos(13)
    }

    /// Special field 1: field 15.
    pub fn special_field_1(&self) -> (r: Option<&[u8]>)
        ensures
            opt_view(r) == self.field(14),
    {
        self.0.at_field_pos(14)
    }

    /// Special field 2: field 16.
    pub fn special_field_2(&self) -> (r: Option<&[u8]>)
        ensures
            opt_view(r) == self.field(15),
    {
        self.0.at_field_pos(15)
    }

    /// Height: field 17.
    pub fn height(&self) -> (r: Option<&[u8]>)
        ensures
            opt_view(r) == self.field(16),
    {
        self.0.at_field_pos(16)
    }

    /// Weight: field 18.
    pub fn weight(&self) -> (r: Option<&[u8]>)
        ensures
            opt_view(r) == self.field(17),
    {
        self.0.at_field_pos(17)
    }

    /// Suspected diagnosis: field 19.
    pub fn suspected_diagnosis(&self) -> (r: Option<&[u8]>)
        ensures
            opt_view(r) == self.field(18),
    {
        self.0.at_field_pos(18)
    }

    /// Active medications: field 20.
    pub fn active_medications(&self) -> (r: Option<&[u8]>)
        ensures
            opt_view(r) == self.field(19),
    {
        self.0.at_field_pos(19)
    }

    /// Diet status: field 21.
    pub fn diet_status(&self) -> (r: Option<&[u8]>)
        ensures
            opt_view(r) == self.field(20),
    {
        self.0.at_field_pos(20)
    }

    /// Practice field 1: field 22.
    pub fn practice_field_1(&self) -> (r: Option<&[u8]>)
        ensures
            opt_view(r) == self.field(21),
    {
        self.0.at_field_pos(21)
    }

    /// Practice field 2: field 23.
    pub fn practice_field_2(&self) -> (r: Option<&[u8]>)
        ensures
            opt_view(r) == self.field(22),
    {
        self.0.at_field_pos(22)
    }

    /// Admission discharge date: field 24.
    pub fn admission_discharge_date(&self) -> (r: Option<&[u8]>)
        ensures
            opt_view(r) == self.field(23),
    {
        self.0.at_field_pos(23)
    }

    /// Admission status: field 25.
    pub fn admission_status(&self) -> (r: Option<&[u8]>)
        ensures
            opt_view(r) == self.field(24),
    {
        self.0.at_field_pos(24)
    }

    /// Location: field 26.
    pub fn location(&self) -> (r: Option<&[u8]>)
        ensures
            opt_view(r) == self.field(25),
    {
        self.0.at_field_pos(25)
    }

    /// Nature alternative diagnostic code and classifiers: field 27.
    pub fn nature_alternative_diagnostic_code_and_classifiers(&self) -> (r: Option<&[u8]>)
        ensures
            opt_view(r) == self.field(26),
    {
        self.0.at_field_pos(26)
    }

    /// Alternate diagnostic code: field 28.
    pub fn alternate_diagnostic_code(&self) -> (r: Option<&[u8]>)
        ensures
            opt_view(r) == self.field(27),
    {
        self.0.at_field_pos(27)
    }

    /// Religion: field 29.
    pub fn religion(&self) -> (r: Option<&[u8]>)
        ensures
            opt_view(r) == self.field(28),
    {
        self.0.at_field_pos(28)
    }

    /// Marital status: field 30.
    pub fn marital_status(&self) -> (r: Option<&[u8]>)
        ensures
            opt_view(r) == self.field(29),
    {
        self.0.at_field_pos(29)
    }

    /// Isolation status: field 31.
    pub fn isolation_status(&self) -> (r: Option<&[u8]>)
        ensures
            opt_view(r) == self.field(30),
    {
        self.0.at_field_pos(30)
    }

    /// Language: field 32.
    pub fn language(&self) -> (r: Option<&[u8]>)
        ensures
            opt_view(r) == self.field(31),
    {
        self.0.at_field_pos(31)
    }

    /// Hospital service: field 33.
    pub fn hospital_service(&self) -> (r: Option<&[u8]>)
        ensures
            opt_view(r) == self.field(32),
    {
        self.0.at_field_pos(32)
    }

    /// Hospital institution: field 34.
    pub fn hospital_institution(&self) -> (r: Option<&[u8]>)
        ensures
            opt_view(r) == self.field(33),
    {
        self.0.at_field_pos(33)
    }

    /// Dosage category: field 35.
    pub fn dosage_category(&self) -> (r: Option<&[u8]>)
        ensures
            opt_view(r) == self.field(34),
    {
        self.0.at_field_pos(34)
    }
}

/// A TestOrder record.
#[derive(Debug)]
pub struct TestOrder<'a>(BaseRecord<'a>);

impl<'a> TestOrder<'a> {
    /// The raw octets of this record.
    pub closed spec fn raw(&self) -> Seq<u8> {
        self.0.raw()
    }

    /// The delimiters this record is read with.
    pub closed spec fn delimiters_used(&self) -> (u8, u8, u8, u8) {
        self.0.delimiters_used()
    }

    /// Piece `n` of this record's text, split by the field delimiter in use.
    pub open spec fn field(&self, n: nat) -> Option<Seq<u8>> {
        record_field(self.raw(), self.delimiters_used().0, n)
    }

    /// Reads a TestOrder record with the delimiters of its message.
    pub fn new(record: Record, delimiter: Delimiters<'a>) -> (r: TestOrder<'a>)
        requires
            record.kind_of() == RecordKind::TestOrder,
        ensures
            r.raw() == record.raw(),
            r.delimiters_used() == delimiter.octets(),
    {
        match record {
            Record::TestOrder(bytes) => TestOrder(BaseRecord::new(bytes, delimiter)),
            _ => vstd::pervasive::unreached(),
        }
    }

    /// Sequence number: field 2.
    pub fn sequence_number(&self) -> (r: Option<&[u8]>)
        ensures
            opt_view(r) == self.field(1),
    {
        self.0.at_field_pos(1)
    }

    /// Specimen id: field 3.
    pub fn specimen_id(&self) -> (r: Option<&[u8]>)
        ensures
            opt_view(r) == self.field(2),
    {
        self.0.at_field_pos(2)
    }

    /// Instrument specimen id: field 4.
    pub fn instrument_specimen_id(&self) -> (r: Option<&[u8]>)
        ensures
            opt_view(r) == self.field(3),
    {
        self.0.at_field_pos(3)
    }

    /// Universal test id: field 5.
    pub fn universal_test_id(&self) -> (r: Option<&[u8]>)
        ensures
            opt_view(r) == self.field(4),
    {
        self.0.at_field_pos(4)
    }

    /// Priority: field 6.
    pub fn priority(&self) -> (r: Option<&[u8]>)
        ensures
            opt_view(r) == self.field(5),
    {
        self.0.at_field_pos(5)
    }

    /// Requested date time: field 7.
    pub fn requested_date_time(&self) -> (r: Option<&[u8]>)
        ensures
            opt_view(r) == self.field(6),
    {
        self.0.at_field_pos(6)
    }

    /// Collection date time: field 8.
    pub fn collection_date_time(&self) -> (r: Option<&[u8]>)
        ensures
            opt_view(r) == self.field(7),
    {
        self.0.at_field_pos(7)
    }

    /// Collection end date time: field 9.
    pub fn collection_end_date_time(&self) -> (r: Option<&[u8]>)
        ensures
            opt_view(r) == self.field(8),
    {
        self.0.at_field_pos(8)
    }

    /// Collection volume: field 10.
    pub fn collection_volume(&self) -> (r: Option<&[u8]>)
        ensures
            opt_view(r) == self.field(9),
    {
        self.0.at_field_pos(9)
    }

    /// Collector id: field 11.
    pub fn collector_id(&self) -> (r: Option<&[u8]>)
        ensures
            opt_view(r) == self.field(10),
    {
        self.0.at_field_pos(10)
    }

    /// Action code: field 12.
    pub fn action_code(&self) -> (r: Option<&[u8]>)
        ensures
            opt_view(r) == self.field(11),
    {
        self.0.at_field_pos(11)
    }

    /// Danger code: field 13.
    pub fn danger_code(&self) -> (r: Option<&[u8]>)
        ensures
            opt_view(r) == self.field(12),
    {
        self.0.at_field_pos(12)
    }

    /// Clinical information: field 14.
    pub fn clinical_information(&self) -> (r: Option<&[u8]>)
        ensures
            opt_view(r) == self.field(13),
    {
        self.0.at_field_pos(13)
    }

    /// Specimen received at: field 15.
    pub fn specimen_received_at(&self) -> (r: Option<&[u8]>)
        ensures
            opt_view(r) == self.field(14),
    {
        self.0.at_field_pos(14)
    }

    /// Specimen descriptor: field 16.
    pub fn specimen_descriptor(&self) -> (r: Option<&[u8]>)
        ensures
            opt_view(r) == self.field(15),
    {
        self.0.at_field_pos(15)
    }

    /// Ordering physician: field 17.
    pub fn ordering_physician(&self) -> (r: Option<&[u8]>)
        ensures
            opt_view(r) == self.field(16),
    {
        self.0.at_field_pos(16)
    }

    /// Physician contact number: field 18.
    pub fn physician_contact_number(&self) -> (r: Option<&[u8]>)
        ensures
            opt_view(r) == self.field(17),
    {
        self.0.at_field_pos(17)
    }

    /// User field 1: field 19.
    pub fn user_field_1(&self) -> (r: Option<&[u8]>)
        ensures
            opt_view(r) == self.field(18),
    {
        self.0.at_field_pos(18)
    }

    /// User field 2: field 20.
    pub fn user_field_2(&self) -> (r: Option<&[u8]>)
        ensures
            opt_view(r) == self.field(19),
    {
        self.0.at_field_pos(19)
    }

    /// Laboratory field 1: field 21.
    pub fn laboratory_field_1(&self) -> (r: Option<&[u8]>)
        ensures
            opt_view(r) == self.field(20),
    {
        self.0.at_field_pos(20)
    }

    /// Laboratory field 2: field 22.
    pub fn laboratory_field_2(&self) -> (r: Option<&[u8]>)
        ensures
            opt_view(r) == self.field(21),
    {
        self.0.at_field_pos(21)
    }

    /// Result reported modified at: field 23.
    pub fn result_reported_modified_at(&self) -> (r: Option<&[u8]>)
        ensures
            opt_view(r) == self.field(22),
    {
        self.0.at_field_pos(22)
    }

    /// Instrument charge: field 24.
    pub fn instrument_charge(&self) -> (r: Option<&[u8]>)
        ensures
            opt_view(r) == self.field(23),
    {
        self.0.at_field_pos(23)
    }

    /// Instrument section id: field 25.
    pub fn instrument_section_id(&self) -> (r: Option<&[u8]>)
        ensures
            opt_view(r) == self.field(24),
    {
        self.0.at_field_pos(24)
    }

    /// Report type: field 26.
    pub fn report_type(&self) -> (r: Option<&[u8]>)
        ensures
            opt_view(r) == self.field(25),
    {
        self.0.at_field_pos(25)
    }

    /// Reserved field: field 27.
    pub fn reserved_field(&self) -> (r: Option<&[u8]>)
        ensures
            opt_view(r) == self.field(26),
    {
        self.0.at_field_pos(26)
    }

    /// Location of specimen collection: field 28.
    pub fn location_of_specimen_collection(&self) -> (r: Option<&[u8]>)
        ensures
            opt_view(r) == self.field(27),
    {
        self.0.at_field_pos(27)
    }

    /// Nosocomical infection flag: field 29.
    pub fn nosocomical_infection_flag(&self) -> (r: Option<&[u8]>)
        ensures
            opt_view(r) == self.field(28),
    {
        self.0.at_field_pos(28)
    }

    /// Specimen service: field 30.
    pub fn specimen_service(&self) -> (r: Option<&[u8]>)
        ensures
            opt_view(r) == self.field(29),
    {
        self.0.at_field_pos(29)
    }

    /// Specimen institution: field 31.
    pub fn specimen_institution(&self) -> (r: Option<&[u8]>)
        ensures
            opt_view(r) == self.field(30),
    {
        self.0.at_field_pos(30)
    }
}

/// A Result record.
#[derive(Debug)]
pub struct ResultR<'a>(BaseRecord<'a>);

impl<'a> ResultR<'a> {
    /// The raw octets of this record.
    pub closed spec fn raw(&self) -> Seq<u8> {
        self.0.raw()
    }

    /// The delimiters this record is read with.
    pub closed spec fn delimiters_used(&self) -> (u8, u8, u8, u8) {
        self.0.delimiters_used()
    }

    /// Piece `n` of this record's text, split by the field delimiter in use.
    pub open spec fn field(&self, n: nat) -> Option<Seq<u8>> {
        record_field(self.raw(), self.delimiters_used().0, n)
    }

    /// Reads a ResultR record with the delimiters of its message.
    pub fn new(record: Record, delimiter: Delimiters<'a>) -> (r: ResultR<'a>)
        requires
            record.kind_of() == RecordKind::ResultR,
        ensures
            r.raw() == record.raw(),
            r.delimiters_used() == delimiter.octets(),
    {
        match record {
            Record::ResultR(bytes) => ResultR(BaseRecord::new(bytes, delimiter)),
            _ => vstd::pervasive::unreached(),
        }
    }

    /// Sequence number: field 2.
    pub fn sequence_number(&self) -> (r: Option<&[u8]>)
        ensures
            opt_view(r) == self.field(1),
    {
        self.0.at_field_pos(1)
    }

    /// Universal test id: field 3.
    pub fn universal_test_id(&self) -> (r: Option<&[u8]>)
        ensures
            opt_view(r) == self.field(2),
    {
        self.0.at_field_pos(2)
    }

    /// Measurement value: field 4.
    pub fn measurement_value(&self) -> (r: Option<&[u8]>)
        ensures
            opt_view(r) == self.field(3),
    {
        self.0.at_field_pos(3)
    }

    /// Units: field 5.
    pub fn units(&self) -> (r: Option<&[u8]>)
        ensures
            opt_view(r) == self.field(4),
    {
        self.0.at_field_pos(4)
    }

    /// Reference ranges: field 6.
    pub fn reference_ranges(&self) -> (r: Option<&[u8]>)
        ensures
            opt_view(r) == self.field(5),
    {
        self.0.at_field_pos(5)
    }

    /// Abnormal flag: field 7.
    pub fn abnormal_flag(&self) -> (r: Option<&[u8]>)
        ensures
            opt_view(r) == self.field(6),
    {
        self.0.at_field_pos(6)
    }

    /// Nature of abnormality testing: field 8.
    pub fn nature_of_abnormality_testing(&self) -> (r: Option<&[u8]>)
        ensures
            opt_view(r) == self.field(7),
    {
        self.0.at_field_pos(7)
    }

    /// Status code: field 9.
    pub fn status_code(&self) -> (r: Option<&[u8]>)
        ensures
            opt_view(r) == self.field(8),
    {
        self.0.at_field_pos(8)
    }

    /// Change in normative value date: field 10.
    pub fn change_in_normative_value_date(&self) -> (r: Option<&[u8]>)
        ensures
            opt_view(r) == self.field(9),
    {
        self.0.at_field_pos(9)
    }

    /// Operator identification: field 11.
    pub fn operator_identification(&self) -> (r: Option<&[u8]>)
        ensures
            opt_view(r) == self.field(10),
    {
        self.0.at_field_pos(10)
    }

    /// Test started at: field 12.
    pub fn test_started_at(&self) -> (r: Option<&[u8]>)
        ensures
            opt_view(r) == self.field(11),
    {
        self.0.at_field_pos(11)
    }

    /// Test completed at: field 13.
    pub fn test_completed_at(&self) -> (r: Option<&[u8]>)
        ensures
            opt_view(r) == self.field(12),
    {
        self.0.at_field_pos(12)
    }

    /// Instrument identification: field 14.
    pub fn instrument_identification(&self) -> (r: Option<&[u8]>)
        ensures
            opt_view(r) == self.field(13),
    {
        self.0.at_field_pos(13)
    }
}

/// A Comment record.
#[derive(Debug)]
pub struct Comment<'a>(BaseRecord<'a>);

impl<'a> Comment<'a> {
    /// The raw octets of this record.
    pub closed spec fn raw(&self) -> Seq<u8> {
        self.0.raw()
    }

    /// The delimiters this record is read with.
    pub closed spec fn delimiters_used(&self) -> (u8, u8, u8, u8) {
        self.0.delimiters_used()
    }

    /// Piece `n` of this record's text, split by the field delimiter in use.
    pub open spec fn field(&self, n: nat) -> Option<Seq<u8>> {
        record_field(self.raw(), self.delimiters_used().0, n)
    }

    /// Reads a Comment record with the delimiters of its message.
    pub fn new(record: Record, delimiter: Delimiters<'a>) -> (r: Comment<'a>)
        requires
            record.kind_of() == RecordKind::Comment,
        ensures
            r.raw() == record.raw(),
            r.delimiters_used() == delimiter.octets(),
    {
        match record {
            Record::Comment(bytes) => Comment(BaseRecord::new(bytes, delimiter)),
            _ => vstd::pervasive::unreached(),
        }
    }

    /// Sequence number: field 2.
    pub fn sequence_number(&self) -> (r: Option<&[u8]>)
        ensures
            opt_view(r) == self.field(1),
    {
        self.0.at_field_pos(1)
    }

    /// Source comment: field 3.
    pub fn source_comment(&self) -> (r: Option<&[u8]>)
        ensures
            opt_view(r) == self.field(2),
    {
        self.0.at_field_pos(2)
    }

    /// Text comment: field 4.
    pub fn text_comment(&self) -> (r: Option<&[u8]>)
        ensures
            opt_view(r) == self.field(3),
    {
        self.0.at_field_pos(3)
    }
}

/// A RequestInformation (query) record.
#[derive(Debug)]
pub struct RequestInformation<'a>(BaseRecord<'a>);

impl<'a> RequestInformation<'a> {
    /// The raw octets of this record.
    pub closed spec fn raw(&self) -> Seq<u8> {
        self.0.raw()
    }

    /// The delimiters this record is read with.
    pub closed spec fn delimiters_used(&self) -> (u8, u8, u8, u8) {
        self.0.delimiters_used()
    }

    /// Piece `n` of this record's text, split by the field delimiter in use.
    pub open spec fn field(&self, n: nat) -> Option<Seq<u8>> {
        record_field(self.raw(), self.delimiters_used().0, n)
    }

    /// Reads a RequestInformation record with the delimiters of its message.
    pub fn new(record: Record, delimiter: Delimiters<'a>) -> (r: RequestInformation<'a>)
        requires
            record.kind_of() == RecordKind::RequestInformation,
        ensures
            r.raw() == record.raw(),
            r.delimiters_used() == delimiter.octets(),
    {
        match record {
            Record::RequestInformation(bytes) => RequestInformation(BaseRecord::new(bytes, delimiter)),
            _ => vstd::pervasive::unreached(),
        }
    }

    /// Sequence number: field 2.
    pub fn sequence_number(&self) -> (r: Option<&[u8]>)
        ensures
            opt_view(r) == self.field(1),
    {
        self.0.at_field_pos(1)
    }

    /// Starting range id: field 3.
    pub fn starting_range_id(&self) -> (r: Option<&[u8]>)
        ensures
            opt_view(r) == self.field(2),
    {
        self.0.at_field_pos(2)
    }

    /// Ending range id: field 4.
    pub fn ending_range_id(&self) -> (r: Option<&[u8]>)
        ensures
            opt_view(r) == self.field(3),
    {
        self.0.at_field_pos(3)
    }

    /// Universal test id: field 5.
    pub fn universal_test_id(&self) -> (r: Option<&[u8]>)
        ensures
            opt_view(r) == self.field(4),
    {
        self.0.at_field_pos(4)
    }

    /// Nature of time limits: field 6.
    pub fn nature_of_time_limits(&self) -> (r: Option<&[u8]>)
        ensures
            opt_view(r) == self.field(5),
    {
        self.0.at_field_pos(5)
    }

    /// Beginning request results date time: field 7.
    pub fn beginning_request_results_date_time(&self) -> (r: Option<&[u8]>)
        ensures
            opt_view(r) == self.field(6),
    {
        self.0.at_field_pos(6)
    }

    /// Ending request results date time: field 8.
    pub fn ending_request_results_date_time(&self) -> (r: Option<&[u8]>)
        ensures
            opt_view(r) == self.field(7),
    {
        self.0.at_field_pos(7)
    }

    /// Requesting physician name: field 9.
    pub fn requesting_physician_name(&self) -> (r: Option<&[u8]>)
        ensures
            opt_view(r) == self.field(8),
    {
        self.0.at_field_pos(8)
    }

    /// Requesting physician telephone: field 10.
    pub fn requesting_physician_telephone(&self) -> (r: Option<&[u8]>)
        ensures
            opt_view(r) == self.field(9),
    {
        self.0.at_field_pos(9)
    }

    /// User field 1: field 11.
    pub fn user_field_1(&self) -> (r: Option<&[u8]>)
        ensures
            opt_view(r) == self.field(10),
    {
        self.0.at_field_pos(10)
    }

    /// User field 2: field 12.
    pub fn user_field_2(&self) -> (r: Option<&[u8]>)
        ensures
            opt_view(r) == self.field(11),
    {
        self.0.at_field_pos(11)
    }

    /// Request information status codes: field 13.
    pub fn request_information_status_codes(&self) -> (r: Option<&[u8]>)
        ensures
            opt_view(r) == self.field(12),
    {
        self.0.at_field_pos(12)
    }
}

/// A MessageTerminator record, the last of a message.
#[derive(Debug)]
pub struct MessageTerminator<'a>(BaseRecord<'a>);

impl<'a> MessageTerminator<'a> {
    /// The raw octets of this record.
    pub closed spec fn raw(&self) -> Seq<u8> {
        self.0.raw()
    }

    /// The delimiters this record is read with.
    pub closed spec fn delimiters_used(&self) -> (u8, u8, u8, u8) {
        self.0.delimiters_used()
    }

    /// Piece `n` of this record's text, split by the field delimiter in use.
    pub open spec fn field(&self, n: nat) -> Option<Seq<u8>> {
        record_field(self.raw(), self.delimiters_used().0, n)
    }

    /// Reads a MessageTerminator record with the delimiters of its message.
    pub fn new(record: Record, delimiter: Delimiters<'a>) -> (r: MessageTerminator<'a>)
        requires
            record.kind_of() == RecordKind::MessageTerminator,
        ensures
            r.raw() == record.raw(),
            r.delimiters_used() == delimiter.octets(),
    {
        match record {
            Record::MessageTerminator(bytes) => MessageTerminator(BaseRecord::new(bytes, delimiter)),
            _ => vstd::pervasive::unreached(),
        }
    }

    /// Sequence number: field 2.
    pub fn sequence_number(&self) -> (r: Option<&[u8]>)
        ensures
            opt_view(r) == self.field(1),
    {
        self.0.at_field_pos(1)
    }

    /// Termination code: field 3.
    pub fn termination_code(&self) -> (r: Option<&[u8]>)
        ensures
            opt_view(r) == self.field(2),
    {
        self.0.at_field_pos(2)
    }

    /// Whether the message ended normally: an absent termination code means `N`.
    pub fn is_normal_termination(&self) -> (r: bool)
        ensures
            r == (self.field(2) is None || self.field(2) == Some(seq![0x4Eu8])),
    {
        match self.termination_code() {
            None => true,
            Some(code) => {
                let r = code.len() == 1 && code[0] == 0x4E;
                proof {
                    if r {
                        assert(code@ == seq![0x4Eu8]);
                    }
                }
                r
            },
        }
    }
}

/// A Scientific record.
#[derive(Debug)]
pub struct Scientific<'a>(BaseRecord<'a>);

impl<'a> Scientific<'a> {
    /// The raw octets of this record.
    pub closed spec fn raw(&self) -> Seq<u8> {
        self.0.raw()
    }

    /// The delimiters this record is read with.
    pub closed spec fn delimiters_used(&self) -> (u8, u8, u8, u8) {
        self.0.delimiters_used()
    }

    /// Piece `n` of this record's text, split by the field delimiter in use.
    pub open spec fn field(&self, n: nat) -> Option<Seq<u8>> {
        record_field(self.raw(), self.delimiters_used().0, n)
    }

    /// Reads a Scientific record with the delimiters of its message.
    pub fn new(record: Record, delimiter: Delimiters<'a>) -> (r: Scientific<'a>)
        requires
            record.kind_of() == RecordKind::Scientific,
        ensures
            r.raw() == record.raw(),
            r.delimiters_used() == delimiter.octets(),
    {
        match record {
            Record::Scientific(bytes) => Scientific(BaseRecord::new(bytes, delimiter)),
            _ => vstd::pervasive::unreached(),
        }
    }

    /// Sequence number: field 2.
    pub fn sequence_number(&self) -> (r: Option<&[u8]>)
        ensures
            opt_view(r) == self.field(1),
    {
        self.0.at_field_pos(1)
    }

    /// Analytical method: field 3.
    pub fn analytical_method(&self) -> (r: Option<&[u8]>)
        ensures
            opt_view(r) == self.field(2),
    {
        self.0.at_field_pos(2)
    }

    /// Instrumentation: field 4.
    pub fn instrumentation(&self) -> (r: Option<&[u8]>)
        ensures
            opt_view(r) == self.field(3),
    {
        self.0.at_field_pos(3)
    }

    /// Reagents: field 5.
    pub fn reagents(&self) -> (r: Option<&[u8]>)
        ensures
            opt_view(r) == self.field(4),
    {
        self.0.at_field_pos(4)
    }

    /// Units of measure: field 6.
    pub fn units_of_measure(&self) -> (r: Option<&[u8]>)
        ensures
            opt_view(r) == self.field(5),
    {
        self.0.at_field_pos(5)
    }

    /// Quality control: field 7.
    pub fn quality_control(&self) -> (r: Option<&[u8]>)
        ensures
            opt_view(r) == self.field(6),
    {
        self.0.at_field_pos(6)
    }

    /// Specimen descriptor: field 8.
    pub fn specimen_descriptor(&self) -> (r: Option<&[u8]>)
        ensures
            opt_view(r) == self.field(7),
    {
        self.0.at_field_pos(7)
    }

    /// Reserved field: field 9.
    pub fn reserved_field(&self) -> (r: Option<&[u8]>)
        ensures
            opt_view(r) == self.field(8),
    {
        self.0.at_field_pos(8)
    }

    /// Container: field 10.
    pub fn container(&self) -> (r: Option<&[u8]>)
        ensures
            opt_view(r) == self.field(9),
    {
        self.0.at_field_pos(9)
    }

    /// Specimen id: field 11.
    pub fn specimen_id(&self) -> (r: Option<&[u8]>)
        ensures
            opt_view(r) == self.field(10),
    {
        self.0.at_field_pos(10)
    }

    /// Analyte: field 12.
    pub fn analyte(&self) -> (r: Option<&[u8]>)
        ensures
            opt_view(r) == self.field(11),
    {
        self.0.at_field_pos(11)
    }

    /// Measured value: field 13.
    pub fn measured_value(&self) -> (r: Option<&[u8]>)
        ensures
            opt_view(r) == self.field(12),
    {
        self.0.at_field_pos(12)
    }

    /// Result units: field 14.
    pub fn result_units(&self) -> (r: Option<&[u8]>)
        ensures
            opt_view(r) == self.field(13),
    {
        self.0.at_field_pos(13)
    }

    /// Collection date time: field 15.
    pub fn collection_date_time(&self) -> (r: Option<&[u8]>)
        ensures
            opt_view(r) == self.field(14),
    {
        self.0.at_field_pos(14)
    }

    /// Result date time: field 16.
    pub fn result_date_time(&self) -> (r: Option<&[u8]>)
        ensures
            opt_view(r) == self.field(15),
    {
        self.0.at_field_pos(15)
    }

    /// Analytical preprocessing steps: field 17.
    pub fn analytical_preprocessing_steps(&self) -> (r: Option<&[u8]>)
        ensures
            opt_view(r) == self.field(16),
    {
        self.0.at_field_pos(16)
    }

    /// Patient diagnosis: field 18.
    pub fn patient_diagnosis(&self) -> (r: Option<&[u8]>)
        ensures
            opt_view(r) == self.field(17),
    {
        self.0.at_field_pos(17)
    }

    /// Patient date of birth: field 19.
    pub fn patient_date_of_birth(&self) -> (r: Option<&[u8]>)
        ensures
            opt_view(r) == self.field(18),
    {
        self.0.at_field_pos(18)
    }

    /// Patient gener: field 20.
    pub fn patient_gener(&self) -> (r: Option<&[u8]>)
        ensures
            opt_view(r) == self.field(19),
    {
        self.0.at_field_pos(19)
    }

    /// Patient ethnicity: field 21.
    pub fn patient_ethnicity(&self) -> (r: Option<&[u8]>)
        ensures
            opt_view(r) == self.field(20),
    {
        self.0.at_field_pos(20)
    }
}

/// A ManufacturerInformation record.
#[derive(Debug)]
pub struct ManufacturerInformation<'a>(BaseRecord<'a>);

impl<'a> ManufacturerInformation<'a> {
    /// The raw octets of this record.
    pub closed spec fn raw(&self) -> Seq<u8> {
        self.0.raw()
    }

    /// The delimiters this record is read with.
    pub closed spec fn delimiters_used(&self) -> (u8, u8, u8, u8) {
        self.0.delimiters_used()
    }

    /// Piece `n` of this record's text, split by the field delimiter in use.
    pub open spec fn field(&self, n: nat) -> Option<Seq<u8>> {
        record_field(self.raw(), self.delimiters_used().0, n)
    }

    /// Reads a ManufacturerInformation record with the delimiters of its message.
    pub fn new(record: Record, delimiter: Delimiters<'a>) -> (r: ManufacturerInformation<'a>)
        requires
            record.kind_of() == RecordKind::ManufacturerInformation,
        ensures
            r.raw() == record.raw(),
            r.delimiters_used() == delimiter.octets(),
    {
        match record {
            Record::ManufacturerInformation(bytes) => ManufacturerInformation(BaseRecord::new(bytes, delimiter)),
            _ => vstd::pervasive::unreached(),
        }
    }

    /// Sequence number: field 2.
    pub fn sequence_number(&self) -> (r: Option<&[u8]>)
        ensures
            opt_view(r) == self.field(1),
    {
        self.0.at_field_pos(1)
    }
}

} // verus!
