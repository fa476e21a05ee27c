//! Messages: the records carried by the concatenated text of a message's
//! frames, one per CR-terminated line, and access to their fields with the
//! delimiters that the message's Header declares.

use crate::control::{CR, STX};
use crate::fields::{opt_view, pieces, record_text};
use crate::frame::{append, frame_digit};
use crate::record::{
    declared_delimiters, delimiters_in, field_at, kind_of_letter, record_field, Record,
    RecordError, RecordKind,
};
use vstd::prelude::*;

verus! {

/// `ts` without its empty members, in order.
pub open spec fn drop_empty(ts: Seq<Seq<u8>>) -> Seq<Seq<u8>>
    decreases ts.len(),
{
    if ts.len() == 0 {
        ts
    } else {
        let init = drop_empty(ts.drop_last());
        if ts.last().len() > 0 {
            init.push(ts.last())
        } else {
            init
        }
    }
}

/// The record texts of a message: its non-empty CR-terminated lines.
pub open spec fn record_texts(payload: Seq<u8>) -> Seq<Seq<u8>> {
    drop_empty(pieces(payload, CR))
}

/// The buffer of the i-th record of a message: laid out as a single-record
/// frame, with the digit `(i + 1) mod 8`, the text, and its CR.
pub open spec fn record_buffer(i: int, text: Seq<u8>) -> Seq<u8> {
    seq![STX, frame_digit(((i + 1) % 8) as u8)] + text + seq![CR]
}

/// Whether every record text starts with a record-type letter.
pub open spec fn letters_valid(texts: Seq<Seq<u8>>) -> bool {
    forall|i: int| 0 <= i < texts.len() ==> (kind_of_letter(#[trigger] texts[i][0]) is Some)
}

/// Whether `v` holds exactly the records that `texts` describe.
pub open spec fn records_of(v: Seq<Record>, texts: Seq<Seq<u8>>) -> bool {
    &&& v.len() == texts.len()
    &&& forall|i: int|
        0 <= i < v.len() ==> #[trigger] v[i].is_record(
            kind_of_letter(texts[i][0])->0,
            record_buffer(i, texts[i]),
        )
}

/// Whether a list of records forms a complete message: it begins with a
/// Header and ends with a MessageTerminator.
pub open spec fn is_complete(v: Seq<Record>) -> bool {
    &&& v.len() >= 2
    &&& v[0].kind_of() == RecordKind::Header
    &&& v[v.len() - 1].kind_of() == RecordKind::MessageTerminator
}

/// Parses one record buffer taken from a received frame. The buffer must
/// hold at least three octets, with a record-type letter at position 2.
pub fn split_to_records(buf: &[u8]) -> (r: Record)
    requires
        buf@.len() >= 3,
        kind_of_letter(buf@[2]) is Some,
    ensures
        r.is_record(kind_of_letter(buf@[2])->0, buf@),
{
    match Record::parse_from_buf(buf) {
        Ok(rec) => rec,
        Err(_) => vstd::pervasive::unreached(),
    }
}

/// Parses the record whose text is `text` as the i-th record of a message.
fn record_from_text(i: usize, text: &[u8]) -> (r: Result<Record, RecordError>)
    requires
        text@.len() > 0,
    ensures
        r is Ok <==> kind_of_letter(text@[0]) is Some,
        r matches Ok(rec) ==> rec.is_record(
            kind_of_letter(text@[0])->0,
            record_buffer(i as int, text@),
        ),
{
    let mut buf: Vec<u8> = Vec::new();
    buf.push(STX);
    buf.push(0x30 + ((i % 8 + 1) % 8) as u8);
    append(&mut buf, text);
    buf.push(CR);
    proof {
        assert((i as int + 1) % 8 == ((i as int % 8) + 1) % 8) by (nonlinear_arith);
        assert(buf@ == record_buffer(i as int, text@));
        assert(buf@[2] == text@[0]);
    }
    Record::parse_from_buf(buf.as_slice())
}

/// Adds the record whose text is `text` to `out`, unless the text is empty.
fn add_record(out: &mut Vec<Record>, text: &[u8], Ghost(done): Ghost<Seq<Seq<u8>>>) -> (r: Result<
    (),
    RecordError,
>)
    requires
        letters_valid(drop_empty(done)),
        records_of(old(out)@, drop_empty(done)),
    ensures
        r is Ok <==> (text@.len() == 0 || kind_of_letter(text@[0]) is Some),
        r is Ok ==> letters_valid(drop_empty(done.push(text@))) && records_of(
            final(out)@,
            drop_empty(done.push(text@)),
        ),
        r is Err ==> text@.len() > 0 && kind_of_letter(text@[0]) is None,
{
    let ghost next = done.push(text@);
    proof {
        assert(next.drop_last() == done);
    }
    if text.len() == 0 {
        return Ok(());
    }
    let rec = record_from_text(out.len(), text)?;
    let ghost before = out@;
    out.push(rec);
    proof {
        assert(drop_empty(next) == drop_empty(done).push(text@));
        assert forall|j: int| 0 <= j < out@.len() implies #[trigger] out@[j].is_record(
            kind_of_letter(drop_empty(next)[j][0])->0,
            record_buffer(j, drop_empty(next)[j]),
        ) by {
            if j < before.len() {
                assert(out@[j] == before[j]);
                assert(drop_empty(next)[j] == drop_empty(done)[j]);
            }
        }
        assert forall|j: int| 0 <= j < drop_empty(next).len() implies (kind_of_letter(
            #[trigger] drop_empty(next)[j][0],
        ) is Some) by {
            if j < drop_empty(done).len() {
                assert(drop_empty(next)[j] == drop_empty(done)[j]);
            }
        }
    }
    Ok(())
}

/// The records of a message payload, one for each non-empty CR-terminated
/// line; an error when a line does not start with a record-type letter.
pub fn records_from_payload(payload: &[u8]) -> (r: Result<Vec<Record>, RecordError>)
    ensures
        r is Ok <==> letters_valid(record_texts(payload@)),
        r matches Ok(v) ==> records_of(v@, record_texts(payload@)),
{
    let mut out: Vec<Record> = Vec::new();
    let mut start: usize = 0;
    let mut i: usize = 0;
    let ghost mut done: Seq<Seq<u8>> = Seq::empty();
    proof {
        assert(payload@.take(0) == Seq::<u8>::empty());
        assert(payload@.subrange(0, 0) == Seq::<u8>::empty());
    }
    while i < payload.len()
        invariant
            start <= i <= payload@.len(),
            pieces(payload@.take(i as int), CR) == done.push(
                payload@.subrange(start as int, i as int),
            ),
            letters_valid(drop_empty(done)),
            records_of(out@, drop_empty(done)),
        decreases payload@.len() - i,
    {
        proof {
            assert(payload@.take(i as int + 1).drop_last() == payload@.take(i as int));
            assert(payload@.take(i as int + 1).last() == payload@[i as int]);
        }
        if payload[i] == CR {
            let text = &payload[start..i];
            let added = add_record(&mut out, text, Ghost(done));
            proof {
                done = done.push(text@);
                assert(payload@.subrange(i as int + 1, i as int + 1) == Seq::<u8>::empty());
                assert(pieces(payload@.take(i as int + 1), CR) == done.push(Seq::<u8>::empty()));
            }
            if added.is_err() {
                proof {
                    lemma_invalid_letter_stays(payload@, done, i as int);
                }
                return Err(added.unwrap_err());
            }
            start = i + 1;
        } else {
            proof {
                assert(payload@.subrange(start as int, i as int + 1) == payload@.subrange(
                    start as int,
                    i as int,
                ).push(payload@[i as int]));
            }
        }
        i = i + 1;
    }
    let text = &payload[start..i];
    let added = add_record(&mut out, text, Ghost(done));
    proof {
        assert(payload@.take(i as int) == payload@);
        done = done.push(text@);
    }
    if added.is_err() {
        proof {
            lemma_invalid_letter_stays(payload@, done, i as int);
        }
        return Err(added.unwrap_err());
    }
    Ok(out)
}

/// Once a line with no record-type letter is among the pieces read so far,
/// the whole payload's lines are not all valid.
proof fn lemma_invalid_letter_stays(payload: Seq<u8>, done: Seq<Seq<u8>>, i: int)
    requires
        0 <= i <= payload.len(),
        done.len() >= 1,
        done.last().len() > 0,
        kind_of_letter(done.last()[0]) is None,
        i < payload.len() ==> pieces(payload.take(i + 1), CR) == done.push(Seq::<u8>::empty()),
        i == payload.len() ==> pieces(payload, CR) == done,
    ensures
        !letters_valid(record_texts(payload)),
{
    let t = done.last();
    let all = pieces(payload, CR);
    let k = done.len() - 1;
    if i < payload.len() {
        crate::fields::lemma_pieces_prefix(payload, CR, i + 1, payload.len() as int);
        assert(payload.take(payload.len() as int) == payload);
        assert(all[k] == t);
    } else {
        assert(all[k] == t);
    }
    lemma_drop_empty_keeps(all, k);
}

/// A non-empty member of `ts` stays in `drop_empty(ts)`.
proof fn lemma_drop_empty_keeps(ts: Seq<Seq<u8>>, k: int)
    requires
        0 <= k < ts.len(),
        ts[k].len() > 0,
    ensures
        exists|j: int| 0 <= j < drop_empty(ts).len() && drop_empty(ts)[j] == ts[k],
    decreases ts.len(),
{
    if k == ts.len() - 1 {
        let j = drop_empty(ts.drop_last()).len() as int;
        assert(drop_empty(ts)[j] == ts[k]);
    } else {
        lemma_drop_empty_keeps(ts.drop_last(), k);
        let j = choose|j: int|
            0 <= j < drop_empty(ts.drop_last()).len() && drop_empty(ts.drop_last())[j]
                == ts.drop_last()[k];
        assert(drop_empty(ts)[j] == ts[k]);
    }
}

/// Whether `records` begins with a Header and ends with a MessageTerminator.
pub fn is_complete_message(records: &Vec<Record>) -> (r: bool)
    ensures
        r == is_complete(records@),
{
    records.len() >= 2 && records[0].kind() == RecordKind::Header && records[records.len()
        - 1].kind() == RecordKind::MessageTerminator
}

/// Field `n` (piece `n` of the text, 0 holding the type letter) of the
/// record at `index` in a message, read with the field delimiter that the
/// message's Header declares.
pub fn field_in_message(message: &Vec<Record>, index: usize, n: usize) -> (r: Option<&[u8]>)
    requires
        index < message@.len(),
        message@.len() > 0,
        message@[0].kind_of() == RecordKind::Header,
    ensures
        opt_view(r) == record_field(
            message@[index as int].raw(),
            declared_delimiters(message@[0].raw()).0,
            n as nat,
        ),
{
    let (field, _repeat, _component, _escape) = delimiters_in(message[0].raw_bytes());
    field_at(message[index].raw_bytes(), field, n)
}

/// The octets that carry `records` on the wire: each record's text after
/// its two-octet frame prefix, followed by CR.
pub open spec fn wire_text(raw: Seq<u8>) -> Seq<u8> {
    let t = record_text(raw);
    if t.len() >= 2 {
        t.skip(2)
    } else {
        Seq::<u8>::empty()
    }
}

/// The payload of a message made of records whose raw octets are `raws`.
pub open spec fn message_payload_of(raws: Seq<Seq<u8>>) -> Seq<u8>
    decreases raws.len(),
{
    if raws.len() == 0 {
        Seq::<u8>::empty()
    } else {
        message_payload_of(raws.drop_last()) + wire_text(raws.last()) + seq![CR]
    }
}

/// The raw octets of each record.
pub open spec fn raws_of(records: Seq<Record>) -> Seq<Seq<u8>> {
    records.map_values(|r: Record| r.raw())
}

/// The payload that carries `records`: each record's text after its
/// two-octet frame prefix, followed by CR.
pub fn message_payload(records: &Vec<Record>) -> (r: Vec<u8>)
    ensures
        r@ == message_payload_of(raws_of(records@)),
{
    let mut out: Vec<u8> = Vec::new();
    let mut i: usize = 0;
    while i < records.len()
        invariant
            i <= records@.len(),
            out@ == message_payload_of(raws_of(records@).take(i as int)),
        decreases records@.len() - i,
    {
        let text = crate::fields::record_text_of(records[i].raw_bytes());
        if text.len() >= 2 {
            append(&mut out, &text[2..text.len()]);
        }
        out.push(CR);
        proof {
            let rs = raws_of(records@);
            assert(rs.take(i as int + 1).drop_last() == rs.take(i as int));
            assert(rs.take(i as int + 1).last() == records@[i as int].raw());
            if text@.len() < 2 {
                assert(out@ == message_payload_of(rs.take(i as int)) + Seq::<u8>::empty() + seq![CR]);
            }
        }
        i = i + 1;
    }
    proof {
        assert(raws_of(records@).take(i as int) == raws_of(records@));
    }
    out
}

} // verus!
