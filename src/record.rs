//! E1394 records: classification by type letter, the delimiters that a Header
//! declares, and access to the fields of each record kind.
//!
//! A record buffer is laid out as a single-record frame: STX, a frame digit,
//! the record-type letter, then the rest of the record text, which ends at
//! the first CR. The Header declares its delimiters in the four octets after
//! its letter.

use crate::control::CR;
use crate::fields::{
    field_of, join, join_fields, nth_field, opt_view, record_text, record_text_of, vecs_view,
};
use bytes::Bytes;
use vstd::prelude::*;

verus! {

#[verifier::external_type_specification]
#[verifier::external_body]
pub struct ExBytes(Bytes);

/// The octets that a `Bytes` buffer holds.
pub uninterp spec fn bytes_content(b: Bytes) -> Seq<u8>;

/// Relies on `bytes::Bytes::copy_from_slice`: the new buffer holds a copy of `data`.
#[verifier::external_body]
fn copy_bytes(data: &[u8]) -> (r: Bytes)
    ensures
        bytes_content(r) == data@,
{
    Bytes::copy_from_slice(data)
}

/// Relies on `<bytes::Bytes as AsRef<[u8]>>::as_ref`: the slice of the buffer's octets.
#[verifier::external_body]
pub(crate) fn bytes_slice(b: &Bytes) -> (r: &[u8])
    ensures
        r@ == bytes_content(*b),
{
    b.as_ref()
}

/// The kind of a record, named by its type letter.
#[derive(Debug, Clone, Copy, PartialEq, Eq, Structural)]
pub enum RecordKind {
    Header,
    Patient,
    TestOrder,
    ResultR,
    Comment,
    RequestInformation,
    Scientific,
    MessageTerminator,
    ManufacturerInformation,
}

/// The kind named by a type letter, in either case.
pub open spec fn kind_of_letter(b: u8) -> Option<RecordKind> {
    if b == 0x48 || b == 0x68 {
        Some(RecordKind::Header)
    } else if b == 0x50 || b == 0x70 {
        Some(RecordKind::Patient)
    } else if b == 0x4F || b == 0x6F {
        Some(RecordKind::TestOrder)
    } else if b == 0x52 || b == 0x72 {
        Some(RecordKind::ResultR)
    } else if b == 0x43 || b == 0x63 {
        Some(RecordKind::Comment)
    } else if b == 0x51 || b == 0x71 {
        Some(RecordKind::RequestInformation)
    } else if b == 0x53 || b == 0x73 {
        Some(RecordKind::Scientific)
    } else if b == 0x4C || b == 0x6C {
        Some(RecordKind::MessageTerminator)
    } else if b == 0x4D || b == 0x6D {
        Some(RecordKind::ManufacturerInformation)
    } else {
        None
    }
}

/// The kind named by a type letter, in either case.
pub fn letter_kind(b: u8) -> (r: Option<RecordKind>)
    ensures
        r == kind_of_letter(b),
{
    match b {
        0x68 | 0x48 => Some(RecordKind::Header), // h, H
        0x70 | 0x50 => Some(RecordKind::Patient), // p, P
        0x6F | 0x4F => Some(RecordKind::TestOrder), // o, O
        0x72 | 0x52 => Some(RecordKind::ResultR), // r, R
        0x63 | 0x43 => Some(RecordKind::Comment), // c, C
        0x71 | 0x51 => Some(RecordKind::RequestInformation), // q, Q
        0x73 | 0x53 => Some(RecordKind::Scientific), // s, S
        0x6C | 0x4C => Some(RecordKind::MessageTerminator), // l, L
        0x6D | 0x4D => Some(RecordKind::ManufacturerInformation), // m, M
        _ => None,
    }
}

/// A record, tagged by kind, owning its raw octets.
#[derive(Debug, PartialEq)]
pub enum Record {
    Header(Bytes),
    Patient(Bytes),
    TestOrder(Bytes),
    ResultR(Bytes),
    Comment(Bytes),
    RequestInformation(Bytes),
    Scientific(Bytes),
    MessageTerminator(Bytes),
    ManufacturerInformation(Bytes),
}

/// Why a buffer is not a record.
#[derive(Debug)]
pub enum RecordError {
    /// The buffer is shorter than three octets.
    InvalidInput(String),
    /// The octet at position 2 is not a record-type letter.
    MalformedRecord(String),
}

impl Record {
    /// The kind of this record.
    pub open spec fn kind_of(&self) -> RecordKind {
        match self {
            Record::Header(_) => RecordKind::Header,
            Record::Patient(_) => RecordKind::Patient,
            Record::TestOrder(_) => RecordKind::TestOrder,
            Record::ResultR(_) => RecordKind::ResultR,
            Record::Comment(_) => RecordKind::Comment,
            Record::RequestInformation(_) => RecordKind::RequestInformation,
            Record::Scientific(_) => RecordKind::Scientific,
            Record::MessageTerminator(_) => RecordKind::MessageTerminator,
            Record::ManufacturerInformation(_) => RecordKind::ManufacturerInformation,
        }
    }

    /// The buffer of this record.
    pub open spec fn payload(&self) -> Bytes {
        match self {
            Record::Header(x) => *x,
            Record::Patient(x) => *x,
            Record::TestOrder(x) => *x,
            Record::ResultR(x) => *x,
            Record::Comment(x) => *x,
            Record::RequestInformation(x) => *x,
            Record::Scientific(x) => *x,
            Record::MessageTerminator(x) => *x,
            Record::ManufacturerInformation(x) => *x,
        }
    }

    /// The raw octets of this record.
    pub open spec fn raw(&self) -> Seq<u8> {
        bytes_content(self.payload())
    }

    /// A record of the given kind holding `raw`.
    pub open spec fn is_record(&self, kind: RecordKind, raw: Seq<u8>) -> bool {
        self.kind_of() == kind && self.raw() == raw
    }

    /// Classifies `buf_slice` by the letter at position 2 (in either case) and
    /// keeps a copy of all its octets.
    pub fn parse_from_buf(buf_slice: &[u8]) -> (r: Result<Record, RecordError>)
        ensures
            buf_slice@.len() < 3 ==> r matches Err(RecordError::InvalidInput(_)),
            buf_slice@.len() >= 3 && kind_of_letter(buf_slice@[2]) is None ==> r matches Err(
                RecordError::MalformedRecord(_),
            ),
            buf_slice@.len() >= 3 && kind_of_letter(buf_slice@[2]) is Some ==> (r matches Ok(rec)
                && rec.is_record(kind_of_letter(buf_slice@[2])->0, buf_slice@)),
    {
        if buf_slice.len() < 3 {
            return Err(RecordError::InvalidInput("provided buffer is not an ASTM record".to_owned()));
        }
        match letter_kind(buf_slice[2]) {
            Some(kind) => Ok(Record::from_kind(kind, copy_bytes(buf_slice))),
            None => Err(
                RecordError::MalformedRecord("record type letter is not an ASTM record type".to_owned()),
            ),
        }
    }

    /// The record of `kind` that owns `bytes`.
    pub fn from_kind(kind: RecordKind, bytes: Bytes) -> (r: Record)
        ensures
            r.kind_of() == kind,
            r.payload() == bytes,
    {
        match kind {
            RecordKind::Header => Record::Header(bytes),
            RecordKind::Patient => Record::Patient(bytes),
            RecordKind::TestOrder => Record::TestOrder(bytes),
            RecordKind::ResultR => Record::ResultR(bytes),
            RecordKind::Comment => Record::Comment(bytes),
            RecordKind::RequestInformation => Record::RequestInformation(bytes),
            RecordKind::Scientific => Record::Scientific(bytes),
            RecordKind::MessageTerminator => Record::MessageTerminator(bytes),
            RecordKind::ManufacturerInformation => Record::ManufacturerInformation(bytes),
        }
    }

    /// The kind of this record.
    pub fn kind(&self) -> (r: RecordKind)
        ensures
            r == self.kind_of(),
    {
        match self {
            Record::Header(_) => RecordKind::Header,
            Record::Patient(_) => RecordKind::Patient,
            Record::TestOrder(_) => RecordKind::TestOrder,
            Record::ResultR(_) => RecordKind::ResultR,
            Record::Comment(_) => RecordKind::Comment,
            Record::RequestInformation(_) => RecordKind::RequestInformation,
            Record::Scientific(_) => RecordKind::Scientific,
            Record::MessageTerminator(_) => RecordKind::MessageTerminator,
            Record::ManufacturerInformation(_) => RecordKind::ManufacturerInformation,
        }
    }

    /// The raw octets of this record, borrowed.
    pub fn raw_bytes(&self) -> (r: &[u8])
        ensures
            r@ == self.raw(),
    {
        match self {
            Record::Header(x) => bytes_slice(x),
            Record::Patient(x) => bytes_slice(x),
            Record::TestOrder(x) => bytes_slice(x),
            Record::ResultR(x) => bytes_slice(x),
            Record::Comment(x) => bytes_slice(x),
            Record::RequestInformation(x) => bytes_slice(x),
            Record::Scientific(x) => bytes_slice(x),
            Record::MessageTerminator(x) => bytes_slice(x),
            Record::ManufacturerInformation(x) => bytes_slice(x),
        }
    }

    /// The buffer of this record, given up.
    pub fn inner(self) -> (r: Bytes)
        ensures
            r == self.payload(),
    {
        match self {
            Record::Header(x) => x,
            Record::Patient(x) => x,
            Record::TestOrder(x) => x,
            Record::ResultR(x) => x,
            Record::Comment(x) => x,
            Record::RequestInformation(x) => x,
            Record::Scientific(x) => x,
            Record::MessageTerminator(x) => x,
            Record::ManufacturerInformation(x) => x,
        }
    }
}

/// The default field delimiter `|`.
pub const DEFAULT_FIELD: u8 = 0x7C;

/// The default repeat delimiter `\`.
pub const DEFAULT_REPEAT: u8 = 0x5C;

/// The default component delimiter `^`.
pub const DEFAULT_COMPONENT: u8 = 0x5E;

/// The default escape delimiter `&`.
pub const DEFAULT_ESCAPE: u8 = 0x26;

/// The octet at `i`, or `default` where `raw` is too short.
pub open spec fn octet_or(raw: Seq<u8>, i: int, default: u8) -> u8 {
    if 0 <= i < raw.len() {
        raw[i]
    } else {
        default
    }
}

/// The delimiters that a Header's octets declare, as (field, repeat,
/// component, escape): positions 3 to 6, each defaulting when absent.
pub open spec fn declared_delimiters(raw: Seq<u8>) -> (u8, u8, u8, u8) {
    (
        octet_or(raw, 3, DEFAULT_FIELD),
        octet_or(raw, 4, DEFAULT_REPEAT),
        octet_or(raw, 5, DEFAULT_COMPONENT),
        octet_or(raw, 6, DEFAULT_ESCAPE),
    )
}

/// The octet at `i`, or `default` where `raw` is too short.
fn octet_at_or(raw: &[u8], i: usize, default: u8) -> (r: u8)
    ensures
        r == octet_or(raw@, i as int, default),
{
    if i < raw.len() {
        raw[i]
    } else {
        default
    }
}

/// The delimiters that a Header's octets declare, as (field, repeat,
/// component, escape).
pub fn delimiters_in(raw: &[u8]) -> (r: (u8, u8, u8, u8))
    ensures
        r == declared_delimiters(raw@),
{
    (
        octet_at_or(raw, 3, DEFAULT_FIELD),
        octet_at_or(raw, 4, DEFAULT_REPEAT),
        octet_at_or(raw, 5, DEFAULT_COMPONENT),
        octet_at_or(raw, 6, DEFAULT_ESCAPE),
    )
}

/// The four delimiters of a message, borrowed from the Header that declares them.
#[derive(Debug)]
pub struct Delimiters<'a> {
    field: &'a u8,
    repeat: &'a u8,
    component: &'a u8,
    escape: &'a u8,
}

impl<'a> Delimiters<'a> {
    /// The delimiters as (field, repeat, component, escape).
    pub closed spec fn octets(&self) -> (u8, u8, u8, u8) {
        (*self.field, *self.repeat, *self.component, *self.escape)
    }

    /// The delimiters (field, repeat, component, escape) that a message uses.
    pub fn new(field: &'a u8, repeat: &'a u8, component: &'a u8, escape: &'a u8) -> (r: Delimiters<'a>)
        ensures
            r.octets() == (*field, *repeat, *component, *escape),
    {
        Delimiters { field, repeat, component, escape }
    }

    /// The field delimiter.
    pub fn field(&self) -> (r: u8)
        ensures
            r == self.octets().0,
    {
        *self.field
    }

    /// The repeat delimiter.
    pub fn repeat(&self) -> (r: u8)
        ensures
            r == self.octets().1,
    {
        *self.repeat
    }

    /// The component delimiter.
    pub fn component(&self) -> (r: u8)
        ensures
            r == self.octets().2,
    {
        *self.component
    }

    /// The escape delimiter.
    pub fn escape(&self) -> (r: u8)
        ensures
            r == self.octets().3,
    {
        *self.escape
    }

    /// The n-th repeat within a field (0-based); empty or missing is absent.
    pub fn repeat_at<'b>(&self, field: &'b [u8], n: usize) -> (r: Option<&'b [u8]>)
        ensures
            opt_view(r) == field_of(field@, self.octets().1, n as nat),
    {
        nth_field(field, *self.repeat, n)
    }

    /// The n-th component within a field or a repeat (0-based); empty or
    /// missing is absent. Escape sequences are left as they stand.
    pub fn component_at<'b>(&self, field: &'b [u8], n: usize) -> (r: Option<&'b [u8]>)
        ensures
            opt_view(r) == field_of(field@, self.octets().2, n as nat),
    {
        nth_field(field, *self.component, n)
    }
}

/// The n-th field of a record's raw octets, split by `d`.
pub open spec fn record_field(raw: Seq<u8>, d: u8, n: nat) -> Option<Seq<u8>> {
    field_of(record_text(raw), d, n)
}

/// The n-th field of a record's raw octets, split by `d`: counted from the
/// piece that holds the record-type letter; empty or missing is absent.
pub fn field_at(raw: &[u8], d: u8, n: usize) -> (r: Option<&[u8]>)
    ensures
        opt_view(r) == record_field(raw@, d, n as nat),
{
    nth_field(record_text_of(raw), d, n)
}

/// The octets of a record made of `fields`: the fields joined with the
/// field delimiter of `delimiters`, then CR. The first field is the
/// record's frame prefix and type letter.
pub fn encode_fields(fields: &Vec<Vec<u8>>, delimiters: &Delimiters) -> (r: Vec<u8>)
    ensures
        r@ == join(vecs_view(fields@), delimiters.octets().0).push(CR),
{
    let mut out = join_fields(fields, delimiters.field());
    out.push(CR);
    out
}

/// Parsing the same octets twice gives records of the same kind holding the
/// same octets.
pub proof fn lemma_parse_twice_equal(buf: Seq<u8>, a: Record, b: Record)
    requires
        buf.len() >= 3,
        kind_of_letter(buf[2]) is Some,
        a.is_record(kind_of_letter(buf[2])->0, buf),
        b.is_record(kind_of_letter(buf[2])->0, buf),
    ensures
        a.kind_of() == b.kind_of(),
        a.raw() == b.raw(),
{
}

} // verus!
