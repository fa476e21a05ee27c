//! Splitting a record into its delimited pieces, and joining pieces back.
//!
//! A record's text is what precedes its first CR; a field is the n-th piece
//! of that text between field delimiters, counted from the piece that holds
//! the record-type letter. An empty piece is an absent field.

use crate::control::CR;
use vstd::prelude::*;

verus! {

/// The pieces of `s` between occurrences of `d`, as `<[u8]>::split` yields
/// them: `k` delimiters give `k + 1` pieces, the empty sequence one empty piece.
pub open spec fn pieces(s: Seq<u8>, d: u8) -> Seq<Seq<u8>>
    decreases s.len(),
{
    if s.len() == 0 {
        seq![Seq::<u8>::empty()]
    } else {
        let prev = pieces(s.drop_last(), d);
        if s.last() == d {
            prev.push(Seq::<u8>::empty())
        } else {
            prev.update(prev.len() - 1, prev.last().push(s.last()))
        }
    }
}

/// The n-th piece of `s`, if there are that many.
pub open spec fn piece_of(s: Seq<u8>, d: u8, n: nat) -> Option<Seq<u8>> {
    if n < pieces(s, d).len() {
        Some(pieces(s, d)[n as int])
    } else {
        None
    }
}

/// The n-th piece of `s`, absent when out of range or empty.
pub open spec fn field_of(s: Seq<u8>, d: u8, n: nat) -> Option<Seq<u8>> {
    if n < pieces(s, d).len() && pieces(s, d)[n as int].len() > 0 {
        Some(pieces(s, d)[n as int])
    } else {
        None
    }
}

/// The text of a record: its bytes before the first CR.
pub open spec fn record_text(raw: Seq<u8>) -> Seq<u8> {
    pieces(raw, CR)[0]
}

/// The value of an optional slice.
pub open spec fn opt_view(o: Option<&[u8]>) -> Option<Seq<u8>> {
    match o {
        Some(x) => Some(x@),
        None => None,
    }
}

/// Whether `s` holds no octet `d`.
pub open spec fn free_of(s: Seq<u8>, d: u8) -> bool {
    forall|i: int| 0 <= i < s.len() ==> s[i] != d
}

/// `fields` written one after another with `d` between two neighbours.
pub open spec fn join(fields: Seq<Seq<u8>>, d: u8) -> Seq<u8>
    decreases fields.len(),
{
    if fields.len() <= 1 {
        if fields.len() == 0 {
            Seq::<u8>::empty()
        } else {
            fields[0]
        }
    } else {
        join(fields.drop_last(), d).push(d) + fields.last()
    }
}

/// The values of a vector of byte vectors.
pub open spec fn vecs_view(v: Seq<Vec<u8>>) -> Seq<Seq<u8>> {
    v.map_values(|x: Vec<u8>| x@)
}

/// There is always at least one piece.
pub proof fn lemma_pieces_nonempty(s: Seq<u8>, d: u8)
    ensures
        pieces(s, d).len() >= 1,
    decreases s.len(),
{
    if s.len() > 0 {
        lemma_pieces_nonempty(s.drop_last(), d);
    }
}

/// Reading further into `s` keeps every piece that was already closed by a
/// delimiter, and never loses a piece.
pub proof fn lemma_pieces_prefix(s: Seq<u8>, d: u8, k: int, j: int)
    requires
        0 <= k <= j <= s.len(),
    ensures
        pieces(s.take(j), d).len() >= pieces(s.take(k), d).len(),
        forall|m: int|
            0 <= m < pieces(s.take(k), d).len() - 1 ==> #[trigger] pieces(s.take(j), d)[m]
                == pieces(s.take(k), d)[m],
    decreases j - k,
{
    if j > k {
        lemma_pieces_prefix(s, d, k, j - 1);
        lemma_pieces_nonempty(s.take(j - 1), d);
        assert(s.take(j).drop_last() == s.take(j - 1));
    }
}

/// Appending octets that are not delimiters extends the last piece.
pub proof fn lemma_pieces_extend(a: Seq<u8>, t: Seq<u8>, d: u8)
    requires
        free_of(t, d),
    ensures
        pieces(a + t, d) == pieces(a, d).update(
            pieces(a, d).len() - 1,
            pieces(a, d).last() + t,
        ),
    decreases t.len(),
{
    lemma_pieces_nonempty(a, d);
    if t.len() == 0 {
        assert(a + t == a);
        assert(pieces(a, d).last() + t == pieces(a, d).last());
        assert(pieces(a, d).update(pieces(a, d).len() - 1, pieces(a, d).last()) == pieces(a, d));
    } else {
        let t0 = t.drop_last();
        assert(free_of(t0, d));
        lemma_pieces_extend(a, t0, d);
        assert((a + t).drop_last() == a + t0);
        assert((a + t).last() == t.last());
        let p = pieces(a, d);
        let prev = pieces(a + t0, d);
        assert(t.last() == t[t.len() - 1]);
        assert(t.last() != d);
        assert(prev.len() == p.len());
        assert(prev.last() == p.last() + t0);
        assert((p.last() + t0).push(t.last()) == p.last() + t);
        assert(pieces(a + t, d) == prev.update(prev.len() - 1, prev.last().push(t.last())));
        assert(prev.update(prev.len() - 1, prev.last().push(t.last())) == p.update(
            p.len() - 1,
            p.last() + t,
        ));
    }
}

/// Splitting joined fields gives the fields back, when none holds the delimiter.
pub proof fn lemma_pieces_of_join(fields: Seq<Seq<u8>>, d: u8)
    requires
        fields.len() >= 1,
        forall|i: int| 0 <= i < fields.len() ==> free_of(#[trigger] fields[i], d),
    ensures
        pieces(join(fields, d), d) == fields,
    decreases fields.len(),
{
    if fields.len() == 1 {
        assert(free_of(fields[0], d));
        lemma_pieces_extend(Seq::<u8>::empty(), fields[0], d);
        assert(Seq::<u8>::empty() + fields[0] == fields[0]);
        assert(pieces(Seq::<u8>::empty(), d) == seq![Seq::<u8>::empty()]);
        assert(Seq::<u8>::empty() + fields[0] == fields[0]);
        assert(seq![Seq::<u8>::empty()].update(0, Seq::<u8>::empty() + fields[0]) == fields);
    } else {
        let init = fields.drop_last();
        assert forall|i: int| 0 <= i < init.len() implies free_of(#[trigger] init[i], d) by {
            assert(init[i] == fields[i]);
        }
        lemma_pieces_of_join(init, d);
        let a = join(init, d).push(d);
        assert(a.drop_last() == join(init, d));
        assert(pieces(a, d) == init.push(Seq::<u8>::empty()));
        assert(free_of(fields.last(), d));
        lemma_pieces_extend(a, fields.last(), d);
        assert(Seq::<u8>::empty() + fields.last() == fields.last());
        assert(init.push(Seq::<u8>::empty()).update(init.len() as int, fields.last()) == fields);
    }
}

/// The n-th piece of `data` between occurrences of `d`, if there are that many.
pub fn nth_piece(data: &[u8], d: u8, n: usize) -> (r: Option<&[u8]>)
    ensures
        opt_view(r) == piece_of(data@, d, n as nat),
{
    let mut i: usize = 0;
    let mut count: usize = 0;
    let mut start: usize = 0;
    proof {
        assert(data@.take(0) == Seq::<u8>::empty());
    }
    while i < data.len()
        invariant
            i <= data@.len(),
            start <= i,
            count <= n,
            pieces(data@.take(i as int), d).len() == count + 1,
            pieces(data@.take(i as int), d)[count as int] == data@.subrange(start as int, i as int),
        decreases data@.len() - i,
    {
        proof {
            assert(data@.take(i as int + 1).drop_last() == data@.take(i as int));
            assert(data@.take(i as int + 1).last() == data@[i as int]);
        }
        if data[i] == d {
            if count == n {
                proof {
                    lemma_pieces_prefix(data@, d, i as int + 1, data@.len() as int);
                    assert(data@.take(data@.len() as int) == data@);
                }
                return Some(&data[start..i]);
            }
            count = count + 1;
            start = i + 1;
            proof {
                assert(data@.subrange(start as int, start as int) == Seq::<u8>::empty());
            }
        } else {
            proof {
                assert(data@.subrange(start as int, i as int + 1) == data@.subrange(
                    start as int,
                    i as int,
                ).push(data@[i as int]));
            }
        }
        i = i + 1;
    }
    proof {
        assert(data@.take(i as int) == data@);
    }
    if count == n {
        Some(&data[start..data.len()])
    } else {
        None
    }
}

/// The n-th piece of `data` between occurrences of `d`; an empty or missing
/// piece is absent.
pub fn nth_field(data: &[u8], d: u8, n: usize) -> (r: Option<&[u8]>)
    ensures
        opt_view(r) == field_of(data@, d, n as nat),
{
    match nth_piece(data, d, n) {
        Some(p) => {
            if p.len() == 0 {
                None
            } else {
                Some(p)
            }
        },
        None => None,
    }
}

/// The text of a record: the bytes before its first CR (all of them if none).
pub fn record_text_of(raw: &[u8]) -> (r: &[u8])
    ensures
        r@ == record_text(raw@),
{
    proof {
        lemma_pieces_nonempty(raw@, CR);
    }
    match nth_piece(raw, CR, 0) {
        Some(t) => t,
        None => raw,
    }
}

/// `fields` joined with `d` between neighbours.
pub fn join_fields(fields: &Vec<Vec<u8>>, d: u8) -> (r: Vec<u8>)
    ensures
        r@ == join(vecs_view(fields@), d),
{
    let mut out: Vec<u8> = Vec::new();
    let mut i: usize = 0;
    while i < fields.len()
        invariant
            i <= fields@.len(),
            out@ == join(vecs_view(fields@).take(i as int), d),
        decreases fields@.len() - i,
    {
        let ghost before = out@;
        if i > 0 {
            out.push(d);
        }
        let f = &fields[i];
        let mut j: usize = 0;
        while j < f.len()
            invariant
                i < fields@.len(),
                f@ == fields@[i as int]@,
                j <= f@.len(),
                out@ == (if i > 0 { before.push(d) } else { before }) + f@.take(j as int),
            decreases f@.len() - j,
        {
            out.push(f[j]);
            proof {
                assert(f@.take(j as int + 1) == f@.take(j as int).push(f@[j as int]));
            }
            j = j + 1;
        }
        proof {
            let vs = vecs_view(fields@);
            assert(f@.take(j as int) == f@);
            assert(vs.take(i as int + 1).drop_last() == vs.take(i as int));
            assert(vs.take(i as int + 1).last() == f@);
            if i == 0 {
                assert(before == Seq::<u8>::empty());
                assert(Seq::<u8>::empty() + f@ == f@);
                assert(vs.take(1)[0] == f@);
            }
        }
        i = i + 1;
    }
    proof {
        assert(vecs_view(fields@).take(i as int) == vecs_view(fields@));
    }
    out
}

/// Joined fields hold no octet that none of them holds besides `d`.
pub proof fn lemma_join_free_of(fields: Seq<Seq<u8>>, d: u8, c: u8)
    requires
        c != d,
        forall|i: int| 0 <= i < fields.len() ==> free_of(#[trigger] fields[i], c),
    ensures
        free_of(join(fields, d), c),
    decreases fields.len(),
{
    if fields.len() > 1 {
        let init = fields.drop_last();
        assert forall|i: int| 0 <= i < init.len() implies free_of(#[trigger] init[i], c) by {
            assert(init[i] == fields[i]);
        }
        lemma_join_free_of(init, d, c);
        let a = join(init, d).push(d);
        let t = fields.last();
        assert(free_of(t, c));
        assert forall|i: int| 0 <= i < (a + t).len() implies (a + t)[i] != c by {
            if i < a.len() {
                if i < join(init, d).len() {
                    assert(a[i] == join(init, d)[i]);
                }
            } else {
                assert((a + t)[i] == t[i - a.len()]);
            }
        }
    } else if fields.len() == 1 {
        assert(free_of(fields[0], c));
    }
}

/// Fields joined with `d` and ended with CR read back, field by field, as
/// the fields themselves (an empty one as absent), when no field holds `d`
/// or CR.
pub proof fn lemma_fields_round_trip(fields: Seq<Seq<u8>>, d: u8, n: nat)
    requires
        fields.len() >= 1,
        d != CR,
        forall|i: int| 0 <= i < fields.len() ==> free_of(#[trigger] fields[i], d),
        forall|i: int| 0 <= i < fields.len() ==> free_of(#[trigger] fields[i], CR),
    ensures
        field_of(record_text(join(fields, d).push(CR)), d, n) == (if n < fields.len()
            && fields[n as int].len() > 0 {
            Some(fields[n as int])
        } else {
            None
        }),
{
    let j = join(fields, d);
    lemma_join_free_of(fields, d, CR);
    lemma_pieces_extend(Seq::<u8>::empty(), j, CR);
    assert(Seq::<u8>::empty() + j == j);
    assert(j.push(CR).drop_last() == j);
    assert(pieces(Seq::<u8>::empty(), CR) == seq![Seq::<u8>::empty()]);
    assert(Seq::<u8>::empty() + j == j);
    assert(pieces(j, CR) == seq![j]);
    assert(record_text(j.push(CR)) == j);
    lemma_pieces_of_join(fields, d);
}

} // verus!
