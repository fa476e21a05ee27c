//! E1381 frames: `STX FN text (ETX|ETB) C1 C2 CR LF`.
//!
//! `FN` is the frame number modulo 8 as one ASCII digit, ETB ends an
//! intermediate frame and ETX the last one, and `C1 C2` are the checksum
//! digits of the octets from `FN` through the terminator.

use crate::checksum::{checksum_of_region, checksum_pair, frame_region, hex_digit};
use crate::control::{CR, ETB, ETX, LF, STX};
use crate::fields::vecs_view;
use vstd::prelude::*;

verus! {

/// The most payload octets one frame carries.
pub const MAX_FRAME_PAYLOAD: usize = 240;

/// The ASCII digit of a frame number below 8.
pub open spec fn frame_digit(number: u8) -> u8 {
    (0x30 + number) as u8
}

/// The terminator of a frame: ETX for the last frame, ETB otherwise.
pub open spec fn terminator(is_last: bool) -> u8 {
    if is_last {
        ETX
    } else {
        ETB
    }
}

/// The checksummed region of a frame.
pub open spec fn region_of(number: u8, text: Seq<u8>, is_last: bool) -> Seq<u8> {
    seq![frame_digit(number)] + text + seq![terminator(is_last)]
}

/// The octets of the frame numbered `number` that carries `text`.
pub open spec fn frame_bytes(number: u8, text: Seq<u8>, is_last: bool) -> Seq<u8> {
    let region = region_of(number, text, is_last);
    seq![STX] + region + seq![checksum_pair(region).0, checksum_pair(region).1, CR, LF]
}

/// A received hex digit read without regard to case.
pub open spec fn upper(b: u8) -> u8 {
    if 0x61 <= b <= 0x66 {
        (b - 0x20) as u8
    } else {
        b
    }
}

/// Whether the two octets before CR LF are the frame's checksum digits,
/// in either case.
pub open spec fn checksum_matches(f: Seq<u8>) -> bool {
    upper(f[f.len() - 4]) == checksum_pair(frame_region(f)).0 && upper(f[f.len() - 3])
        == checksum_pair(frame_region(f)).1
}

/// Whether `f` is a well-formed frame whose checksum verifies.
pub open spec fn frame_ok(f: Seq<u8>) -> bool {
    &&& f.len() >= 7
    &&& f[0] == STX
    &&& 0x30 <= f[1] <= 0x37
    &&& (f[f.len() - 5] == ETX || f[f.len() - 5] == ETB)
    &&& f[f.len() - 2] == CR
    &&& f[f.len() - 1] == LF
    &&& checksum_matches(f)
}

/// The text a frame carries: between its number and its terminator.
pub open spec fn frame_text(f: Seq<u8>) -> Seq<u8> {
    f.subrange(2, f.len() - 5)
}

/// A frame taken apart.
#[derive(Debug, PartialEq, Eq)]
pub struct DecodedFrame {
    /// The frame number, 0 to 7.
    pub number: u8,
    /// The text between the number and the terminator.
    pub payload: Vec<u8>,
    /// Whether the terminator is ETX.
    pub is_last: bool,
}

/// Why received octets are not a frame.
#[derive(Debug, Clone, Copy, PartialEq, Eq, Structural)]
pub enum FrameError {
    /// A structural check or the checksum failed.
    BadFrame,
}

/// Upper-cases a received hex digit.
fn upper_of(b: u8) -> (r: u8)
    ensures
        r == upper(b),
{
    if 0x61 <= b && b <= 0x66 {
        b - 0x20
    } else {
        b
    }
}

/// Copies `data` onto the end of `out`.
pub fn append(out: &mut Vec<u8>, data: &[u8])
    ensures
        final(out)@ == old(out)@ + data@,
{
    let mut i: usize = 0;
    while i < data.len()
        invariant
            i <= data@.len(),
            out@ == old(out)@ + data@.take(i as int),
        decreases data@.len() - i,
    {
        out.push(data[i]);
        proof {
            assert(data@.take(i as int + 1) == data@.take(i as int).push(data@[i as int]));
        }
        i = i + 1;
    }
    proof {
        assert(data@.take(i as int) == data@);
    }
}

/// The frame numbered `number` that carries `text`, ETX-terminated when
/// `is_last`. Its two checksum digits are uppercase and are the checksum of
/// the octets from the number through the terminator.
pub fn encode_frame(number: u8, text: &[u8], is_last: bool) -> (r: Vec<u8>)
    requires
        number < 8,
    ensures
        r@ == frame_bytes(number, text@, is_last),
        (r@[r@.len() - 4], r@[r@.len() - 3]) == checksum_pair(frame_region(r@)),
        frame_ok(r@),
{
    let mut out: Vec<u8> = Vec::new();
    out.push(STX);
    out.push(0x30 + number);
    append(&mut out, text);
    out.push(if is_last { ETX } else { ETB });
    let ghost region = out@.subrange(1, out@.len() as int);
    let (c1, c2) = checksum_of_region(&out.as_slice()[1..out.len()]);
    out.push(c1);
    out.push(c2);
    out.push(CR);
    out.push(LF);
    proof {
        assert(region == region_of(number, text@, is_last));
        assert(out@ == frame_bytes(number, text@, is_last));
        assert(frame_region(out@) == region);
        lemma_hex_digits_upper(checksum_pair(region));
    }
    out
}

/// Uppercase hex digits are left alone by `upper`.
proof fn lemma_hex_digits_upper(p: (u8, u8))
    requires
        exists|a: nat, b: nat| a < 16 && b < 16 && p == (hex_digit(a), hex_digit(b)),
    ensures
        upper(p.0) == p.0,
        upper(p.1) == p.1,
{
}

/// Takes a frame apart, checking its structure and its checksum (the
/// received digits in either case).
pub fn decode_frame(buf: &[u8]) -> (r: Result<DecodedFrame, FrameError>)
    ensures
        r is Ok <==> frame_ok(buf@),
        r matches Ok(d) ==> {
            &&& d.number == buf@[1] - 0x30
            &&& d.payload@ == frame_text(buf@)
            &&& d.is_last == (buf@[buf@.len() - 5] == ETX)
        },
{
    let n = buf.len();
    if n < 7 {
        return Err(FrameError::BadFrame);
    }
    if buf[0] != STX || buf[1] < 0x30 || buf[1] > 0x37 {
        return Err(FrameError::BadFrame);
    }
    let term = buf[n - 5];
    if (term != ETX && term != ETB) || buf[n - 2] != CR || buf[n - 1] != LF {
        return Err(FrameError::BadFrame);
    }
    let (c1, c2) = checksum_of_region(&buf[1..n - 4]);
    if upper_of(buf[n - 4]) != c1 || upper_of(buf[n - 3]) != c2 {
        return Err(FrameError::BadFrame);
    }
    let mut payload: Vec<u8> = Vec::new();
    append(&mut payload, &buf[2..n - 5]);
    Ok(DecodedFrame { number: buf[1] - 0x30, payload, is_last: term == ETX })
}

/// A frame that `encode_frame` made decodes to what it was made from.
pub proof fn lemma_frame_round_trip(number: u8, text: Seq<u8>, is_last: bool)
    requires
        number < 8,
    ensures
        frame_ok(frame_bytes(number, text, is_last)),
        frame_bytes(number, text, is_last)[1] - 0x30 == number,
        frame_text(frame_bytes(number, text, is_last)) == text,
        (frame_bytes(number, text, is_last)[frame_bytes(number, text, is_last).len() - 5] == ETX)
            == is_last,
{
    let f = frame_bytes(number, text, is_last);
    let region = region_of(number, text, is_last);
    assert(frame_region(f) == region);
    assert(frame_text(f) == text);
    lemma_hex_digits_upper(checksum_pair(region));
}

/// The end of the last CR among the first `k` octets of `s` (the CR's index
/// plus one), or 0 when there is none.
pub open spec fn last_cr_end(s: Seq<u8>, k: nat) -> nat
    decreases k,
{
    if k == 0 {
        0
    } else if s[k - 1] == CR {
        k
    } else {
        last_cr_end(s, (k - 1) as nat)
    }
}

/// How many octets of `rest` the next frame takes: all of them when they
/// fit; otherwise up to the last record boundary (CR) that fits, or `max`
/// octets when no boundary fits.
pub open spec fn segment_len(rest: Seq<u8>, max: nat) -> nat {
    if rest.len() <= max {
        rest.len()
    } else if 0 < last_cr_end(rest, max) <= max {
        last_cr_end(rest, max)
    } else {
        max
    }
}

/// The texts of the frames that carry `s`, in order.
pub open spec fn segments(s: Seq<u8>, max: nat) -> Seq<Seq<u8>>
    decreases s.len(),
{
    if s.len() == 0 || max == 0 {
        seq![]
    } else {
        let k = segment_len(s, max);
        seq![s.take(k as int)] + segments(s.skip(k as int), max)
    }
}

/// The frames that carry a message payload: numbered 1, 2, ..., 7, 0, 1, ...
/// and all ETB-terminated but the last, which ends with ETX.
pub open spec fn message_frames(payload: Seq<u8>, max: nat) -> Seq<Seq<u8>> {
    let segs = segments(payload, max);
    Seq::new(
        segs.len(),
        |i: int| frame_bytes(((i + 1) % 8) as u8, segs[i], i == segs.len() - 1),
    )
}

/// The length of the next segment of `rest`.
fn segment_end(rest: &[u8], max: usize) -> (k: usize)
    requires
        max > 0,
        rest@.len() > 0,
    ensures
        k == segment_len(rest@, max as nat),
        0 < k <= rest@.len(),
{
    if rest.len() <= max {
        return rest.len();
    }
    let mut j: usize = max;
    while j > 0 && rest[j - 1] != CR
        invariant
            j <= max < rest@.len(),
            last_cr_end(rest@, max as nat) == last_cr_end(rest@, j as nat),
        decreases j,
    {
        j = j - 1;
    }
    if j > 0 {
        j
    } else {
        max
    }
}

/// Splits a message payload into frame texts of at most `max` octets,
/// preferring to cut after a record's CR.
pub fn split_payload(payload: &[u8], max: usize) -> (r: Vec<Vec<u8>>)
    requires
        max > 0,
    ensures
        vecs_view(r@) == segments(payload@, max as nat),
{
    let mut out: Vec<Vec<u8>> = Vec::new();
    let mut pos: usize = 0;
    proof {
        assert(payload@.skip(0) == payload@);
        assert(vecs_view(out@) == Seq::<Seq<u8>>::empty());
        assert(Seq::<Seq<u8>>::empty() + segments(payload@, max as nat) == segments(
            payload@,
            max as nat,
        ));
    }
    while pos < payload.len()
        invariant
            max > 0,
            pos <= payload@.len(),
            vecs_view(out@) + segments(payload@.skip(pos as int), max as nat) == segments(
                payload@,
                max as nat,
            ),
        decreases payload@.len() - pos,
    {
        let rest = &payload[pos..payload.len()];
        let k = segment_end(rest, max);
        let mut seg: Vec<u8> = Vec::new();
        append(&mut seg, &rest[0..k]);
        let ghost before = vecs_view(out@);
        out.push(seg);
        proof {
            assert(rest@ == payload@.skip(pos as int));
            assert(rest@.skip(k as int) == payload@.skip(pos + k));
            assert(seg@ == rest@.take(k as int));
            assert(vecs_view(out@) == before.push(seg@));
            assert(segments(rest@, max as nat) == seq![rest@.take(k as int)] + segments(
                rest@.skip(k as int),
                max as nat,
            ));
            assert(before.push(seg@) + segments(payload@.skip(pos + k), max as nat) == before + (
            seq![rest@.take(k as int)] + segments(rest@.skip(k as int), max as nat)));
        }
        pos = pos + k;
    }
    proof {
        assert(payload@.skip(pos as int).len() == 0);
        assert(vecs_view(out@) + Seq::<Seq<u8>>::empty() == vecs_view(out@));
    }
    out
}

/// The frames that carry `payload`, at most `max_frame_payload` text octets
/// each. Frame numbers run 1, 2, ..., 7, 0, 1, ... and every frame but the
/// last ends with ETB.
pub fn encode_message(payload: &[u8], max_frame_payload: usize) -> (r: Vec<Vec<u8>>)
    requires
        max_frame_payload > 0,
    ensures
        vecs_view(r@) == message_frames(payload@, max_frame_payload as nat),
{
    let segs = split_payload(payload, max_frame_payload);
    let ghost sv = vecs_view(segs@);
    let mut out: Vec<Vec<u8>> = Vec::new();
    let mut i: usize = 0;
    while i < segs.len()
        invariant
            i <= segs@.len(),
            sv == vecs_view(segs@),
            sv == segments(payload@, max_frame_payload as nat),
            vecs_view(out@) == message_frames(payload@, max_frame_payload as nat).take(i as int),
        decreases segs@.len() - i,
    {
        let number: u8 = ((i + 1) % 8) as u8;
        let frame = encode_frame(number, segs[i].as_slice(), i + 1 == segs.len());
        let ghost before = vecs_view(out@);
        out.push(frame);
        proof {
            assert(segs@[i as int]@ == sv[i as int]);
            assert(vecs_view(out@) == before.push(frame@));
            assert(message_frames(payload@, max_frame_payload as nat).take(i as int + 1) == message_frames(
                payload@,
                max_frame_payload as nat,
            ).take(i as int).push(message_frames(payload@, max_frame_payload as nat)[i as int]));
        }
        i = i + 1;
    }
    proof {
        assert(message_frames(payload@, max_frame_payload as nat).take(i as int) == message_frames(
            payload@,
            max_frame_payload as nat,
        ));
    }
    out
}

/// Frame numbers of a message start at 1 and go up by one modulo 8, with no gap.
pub proof fn lemma_frame_numbers_cycle(payload: Seq<u8>, max: nat)
    ensures
        forall|i: int|
            0 <= i < message_frames(payload, max).len() ==> #[trigger] message_frames(
                payload,
                max,
            )[i][1] == frame_digit(((i + 1) % 8) as u8),
        message_frames(payload, max).len() > 0 ==> message_frames(payload, max)[0][1] == 0x31,
        forall|i: int|
            0 < i < message_frames(payload, max).len() ==> (#[trigger] message_frames(
                payload,
                max,
            )[i][1] - 0x30) == (message_frames(payload, max)[i - 1][1] - 0x30 + 1) % 8,
{
    let fs = message_frames(payload, max);
    let segs = segments(payload, max);
    assert forall|i: int| 0 <= i < fs.len() implies #[trigger] fs[i][1] == frame_digit(
        ((i + 1) % 8) as u8,
    ) by {
        let n = ((i + 1) % 8) as u8;
        assert(fs[i] == frame_bytes(n, segs[i], i == segs.len() - 1));
    }
    assert forall|i: int| 0 < i < fs.len() implies (#[trigger] fs[i][1] - 0x30) == (fs[i - 1][1]
        - 0x30 + 1) % 8 by {
        assert(fs[i][1] == frame_digit(((i + 1) % 8) as u8));
        assert(fs[i - 1][1] == frame_digit(((i - 1 + 1) % 8) as u8));
    }
    if fs.len() > 0 {
        assert(fs[0][1] == frame_digit(1));
    }
}

/// A payload of exactly `max` octets fits in one frame; one octet more takes
/// two frames, the first of them ETB-terminated.
pub proof fn lemma_payload_boundary(payload: Seq<u8>, max: nat)
    requires
        max > 0,
    ensures
        payload.len() == max ==> message_frames(payload, max).len() == 1,
        payload.len() == max + 1 ==> {
            let fs = message_frames(payload, max);
            &&& fs.len() == 2
            &&& fs[0][fs[0].len() - 5] == ETB
        },
{
    if payload.len() == max {
        assert(payload.skip(max as int).len() == 0);
        assert(segments(payload.skip(max as int), max) == Seq::<Seq<u8>>::empty());
        assert(segments(payload, max).len() == 1);
    }
    if payload.len() == max + 1 {
        let k = segment_len(payload, max);
        let rest = payload.skip(k as int);
        assert(0 < k <= max);
        assert(rest.len() > 0 && rest.len() <= max);
        assert(rest.skip(rest.len() as int).len() == 0);
        assert(segments(rest.skip(rest.len() as int), max) == Seq::<Seq<u8>>::empty());
        assert(segments(rest, max).len() == 1);
        assert(segments(payload, max).len() == 2);
        let segs = segments(payload, max);
        let f0 = frame_bytes(1, segs[0], false);
        assert(message_frames(payload, max)[0] == f0);
        assert(f0[f0.len() - 5] == ETB);
    }
}

/// Every frame of a message carries, in uppercase, the checksum of the octets
/// from its number through its terminator.
pub proof fn lemma_emitted_checksums(payload: Seq<u8>, max: nat)
    ensures
        forall|i: int|
            0 <= i < message_frames(payload, max).len() ==> {
                let f = #[trigger] message_frames(payload, max)[i];
                &&& (f[f.len() - 4], f[f.len() - 3]) == checksum_pair(frame_region(f))
                &&& upper(f[f.len() - 4]) == f[f.len() - 4]
                &&& upper(f[f.len() - 3]) == f[f.len() - 3]
            },
{
    let fs = message_frames(payload, max);
    let segs = segments(payload, max);
    assert forall|i: int| 0 <= i < fs.len() implies {
        let f = #[trigger] fs[i];
        &&& (f[f.len() - 4], f[f.len() - 3]) == checksum_pair(frame_region(f))
        &&& upper(f[f.len() - 4]) == f[f.len() - 4]
        &&& upper(f[f.len() - 3]) == f[f.len() - 3]
    } by {
        let n = ((i + 1) % 8) as u8;
        let last = i == segs.len() - 1;
        let region = region_of(n, segs[i], last);
        assert(fs[i] == frame_bytes(n, segs[i], last));
        assert(frame_region(fs[i]) == region);
        lemma_hex_digits_upper(checksum_pair(region));
    }
}

} // verus!
