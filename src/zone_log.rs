//! The per-zone log as a byte stream: what `clean` and `append` make of it.
//!
//! `append` writes a record's whole line at the end of the stream while it
//! holds the zone's lock, so the appends to one zone happen one after another.

use vstd::prelude::*;
use crate::decimal::decimal_bytes;
use crate::latency::{LatencyRecord, record_line};

verus! {

/// The stream of a zone right after `clean`.
pub open spec fn cleaned_stream() -> Seq<u8> {
    Seq::empty()
}

/// The stream after `append` of one record.
pub open spec fn appended_stream(s: Seq<u8>, r: LatencyRecord) -> Seq<u8> {
    s + record_line(r)
}

/// The stream after `append` of each of `rs`, in that order.
pub open spec fn appended_all(s: Seq<u8>, rs: Seq<LatencyRecord>) -> Seq<u8>
    decreases rs.len(),
{
    if rs.len() == 0 {
        s
    } else {
        appended_stream(appended_all(s, rs.drop_last()), rs.last())
    }
}

/// The lines of `rs`, one after another.
pub open spec fn stream_of(rs: Seq<LatencyRecord>) -> Seq<u8>
    decreases rs.len(),
{
    if rs.len() == 0 {
        Seq::empty()
    } else {
        stream_of(rs.drop_last()) + record_line(rs.last())
    }
}

/// How many line ends `s` holds.
pub open spec fn newline_count(s: Seq<u8>) -> nat
    decreases s.len(),
{
    if s.len() == 0 {
        0
    } else {
        newline_count(s.drop_last()) + if s.last() == 10u8 {
            1nat
        } else {
            0nat
        }
    }
}

proof fn lemma_newline_count_concat(a: Seq<u8>, b: Seq<u8>)
    ensures
        newline_count(a + b) == newline_count(a) + newline_count(b),
    decreases b.len(),
{
    if b.len() == 0 {
        assert(a + b =~= a);
    } else {
        lemma_newline_count_concat(a, b.drop_last());
        assert((a + b).drop_last() =~= a + b.drop_last());
    }
}

proof fn lemma_decimal_has_no_newline(n: nat)
    ensures
        newline_count(decimal_bytes(n)) == 0,
    decreases n,
{
    if n >= 10 {
        lemma_decimal_has_no_newline(n / 10);
        let d = seq![(48 + n % 10) as u8];
        lemma_newline_count_concat(decimal_bytes(n / 10), d);
        assert(d.drop_last() =~= Seq::<u8>::empty());
        assert(newline_count(d) == newline_count(Seq::<u8>::empty()) + 0);
    } else {
        let d = seq![(48 + n) as u8];
        assert(d.drop_last() =~= Seq::<u8>::empty());
        assert(newline_count(d) == newline_count(Seq::<u8>::empty()) + 0);
    }
}

/// A record's line holds exactly one line end, as its last byte.
pub proof fn lemma_record_line_is_one_line(r: LatencyRecord)
    ensures
        newline_count(record_line(r)) == 1,
        record_line(r).last() == 10u8,
{
    let t = decimal_bytes(r.turnaround_ms as nat);
    let e = decimal_bytes(r.execution_ms as nat);
    let w = decimal_bytes(r.waiting_ms as nat);
    lemma_decimal_has_no_newline(r.turnaround_ms as nat);
    lemma_decimal_has_no_newline(r.execution_ms as nat);
    lemma_decimal_has_no_newline(r.waiting_ms as nat);
    let comma = seq![44u8];
    let nl = seq![10u8];
    assert(comma.drop_last() =~= Seq::<u8>::empty());
    assert(nl.drop_last() =~= Seq::<u8>::empty());
    assert(newline_count(comma) == newline_count(Seq::<u8>::empty()) + 0);
    assert(newline_count(nl) == newline_count(Seq::<u8>::empty()) + 1);
    lemma_newline_count_concat(t, comma);
    lemma_newline_count_concat(t + comma, e);
    lemma_newline_count_concat(t + comma + e, comma);
    lemma_newline_count_concat(t + comma + e + comma, w);
    lemma_newline_count_concat(t + comma + e + comma + w, nl);
}

/// The lines of `rs` hold one line end for each record.
pub proof fn lemma_stream_line_count(rs: Seq<LatencyRecord>)
    ensures
        newline_count(stream_of(rs)) == rs.len(),
    decreases rs.len(),
{
    if rs.len() > 0 {
        lemma_stream_line_count(rs.drop_last());
        lemma_record_line_is_one_line(rs.last());
        lemma_newline_count_concat(stream_of(rs.drop_last()), record_line(rs.last()));
    }
}

/// `clean` followed by `append` of `r` leaves a stream that is exactly the
/// one line of `r`.
pub proof fn lemma_clean_then_append(r: LatencyRecord)
    ensures
        appended_stream(cleaned_stream(), r) == stream_of(seq![r]),
        appended_stream(cleaned_stream(), r) == record_line(r),
        newline_count(appended_stream(cleaned_stream(), r)) == 1,
{
    assert(seq![r].drop_last() =~= Seq::<LatencyRecord>::empty());
    assert(appended_stream(cleaned_stream(), r) =~= record_line(r));
    assert(stream_of(seq![r]) == stream_of(Seq::<LatencyRecord>::empty()) + record_line(r));
    assert(stream_of(seq![r]) =~= record_line(r));
    lemma_record_line_is_one_line(r);
}

/// Appends of `N` records to one zone, taken one after another in whatever
/// order their tasks reach the lock, leave the earlier stream followed by
/// exactly `N` whole lines, one for each record.
pub proof fn lemma_serialized_appends(s: Seq<u8>, rs: Seq<LatencyRecord>)
    ensures
        appended_all(s, rs) == s + stream_of(rs),
        newline_count(appended_all(s, rs)) == newline_count(s) + rs.len(),
    decreases rs.len(),
{
    if rs.len() == 0 {
        assert(s + stream_of(rs) =~= s);
    } else {
        lemma_serialized_appends(s, rs.drop_last());
        assert(s + stream_of(rs.drop_last()) + record_line(rs.last()) =~= s + stream_of(rs));
    }
    lemma_stream_line_count(rs);
    lemma_newline_count_concat(s, stream_of(rs));
}

} // verus!
