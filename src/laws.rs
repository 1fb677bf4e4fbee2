//! Properties of the feed cycle, stated over the batch model and proved.

use vstd::prelude::*;

use crate::batch::{accepted, accepted_all, drain_spec, failed_cycles, ingest_spec, settle_spec};
use crate::record::{
    can_cut, field_text, is_complete, parse_spec, Punch, CARD_END, CARD_START, CODE_END,
    CODE_START, TIME_END, TIME_START,
};
use vstd::utf8::{is_char_boundary, valid_utf8};

verus! {

/// A drain phase appends what it accepts to the batch it starts from: nothing
/// pending is removed or altered.
pub proof fn lemma_drain_appends(records: Seq<Punch>, lines: Seq<Seq<u8>>)
    ensures
        drain_spec(records, lines) == records + accepted(lines),
    decreases lines.len(),
{
    if lines.len() == 0 || !crate::record::is_complete(lines[0]) {
        assert(records + Seq::<Punch>::empty() =~= records);
    } else {
        let rest = lines.drop_first();
        let first = ingest_spec(Seq::empty(), lines[0]);
        lemma_drain_appends(ingest_spec(records, lines[0]), rest);
        lemma_drain_appends(first, rest);
        assert(ingest_spec(records, lines[0]) =~= records + first);
        assert(records + first + accepted(rest) =~= records + (first + accepted(rest)));
    }
}

/// A batch is cleared by a delivery attempt exactly when that attempt succeeded.
pub proof fn lemma_cleared_iff_delivered(records: Seq<Punch>, delivered: bool)
    requires
        records.len() > 0,
    ensures
        settle_spec(records, delivered).len() == 0 <==> delivered,
        !delivered ==> settle_spec(records, delivered) == records,
{
}

/// Cycles that drain and then fail to deliver keep every punch they accepted,
/// in order, each once.
pub proof fn lemma_failed_cycles_keep_all(records: Seq<Punch>, cycles: Seq<Seq<Seq<u8>>>)
    ensures
        failed_cycles(records, cycles) == records + accepted_all(cycles),
    decreases cycles.len(),
{
    if cycles.len() == 0 {
        assert(records + Seq::<Punch>::empty() =~= records);
    } else {
        let rest = cycles.drop_first();
        lemma_drain_appends(records, cycles[0]);
        lemma_failed_cycles_keep_all(drain_spec(records, cycles[0]), rest);
        assert(records + accepted(cycles[0]) + accepted_all(rest) =~= records + (accepted(
            cycles[0],
        ) + accepted_all(rest)));
    }
}

/// After failed deliveries in the cycles `failed`, the batch offered at the end
/// of the next drain phase holds every punch accepted in all those cycles, in
/// order, none missing and none twice.
pub proof fn lemma_retry_carries_all(failed: Seq<Seq<Seq<u8>>>, last: Seq<Seq<u8>>)
    ensures
        drain_spec(failed_cycles(Seq::empty(), failed), last) == accepted_all(failed.push(last)),
    decreases failed.len(),
{
    lemma_failed_cycles_keep_all(Seq::empty(), failed);
    lemma_drain_appends(failed_cycles(Seq::empty(), failed), last);
    lemma_accepted_all_push(failed, last);
    assert(Seq::<Punch>::empty() + accepted_all(failed) =~= accepted_all(failed));
}

proof fn lemma_accepted_all_push(cycles: Seq<Seq<Seq<u8>>>, last: Seq<Seq<u8>>)
    ensures
        accepted_all(cycles.push(last)) == accepted_all(cycles) + accepted(last),
    decreases cycles.len(),
{
    if cycles.len() == 0 {
        let one = cycles.push(last);
        assert(one.drop_first() =~= Seq::<Seq<Seq<u8>>>::empty());
        assert(one[0] == last);
        assert(accepted_all(one.drop_first()) == Seq::<Punch>::empty());
        assert(accepted_all(cycles) == Seq::<Punch>::empty());
        assert(accepted(last) + Seq::<Punch>::empty() =~= accepted(last));
        assert(Seq::<Punch>::empty() + accepted(last) =~= accepted(last));
    } else {
        assert(cycles.push(last).drop_first() =~= cycles.drop_first().push(last));
        assert(cycles.push(last)[0] == cycles[0]);
        lemma_accepted_all_push(cycles.drop_first(), last);
        assert(accepted(cycles[0]) + (accepted_all(cycles.drop_first()) + accepted(last))
            =~= accepted(cycles[0]) + accepted_all(cycles.drop_first()) + accepted(last));
    }
}

/// A failed delivery leaves the batch as it was, so two attempts with no line
/// drained between them carry the same punches.
pub proof fn lemma_failed_attempt_resends(records: Seq<Punch>)
    ensures
        settle_spec(records, false) == records,
        drain_spec(settle_spec(records, false), Seq::empty()) == records,
{
}

/// A line shorter than a record leaves the batch as it is and ends the drain
/// phase: no line after it is read in that phase.
pub proof fn lemma_short_line_ends_drain(
    records: Seq<Punch>,
    line: Seq<u8>,
    rest: Seq<Seq<u8>>,
)
    requires
        !is_complete(line),
    ensures
        ingest_spec(records, line) == records,
        drain_spec(records, seq![line] + rest) == records,
{
    assert((seq![line] + rest)[0] == line);
}

/// A complete line that does not parse leaves every pending punch in place, and
/// the drain phase goes on with the next line.
pub proof fn lemma_rejected_line_keeps_batch(
    records: Seq<Punch>,
    line: Seq<u8>,
    rest: Seq<Seq<u8>>,
)
    requires
        is_complete(line),
        parse_spec(line) is Err,
    ensures
        ingest_spec(records, line) == records,
        drain_spec(records, seq![line] + rest) == drain_spec(records, rest),
{
    let all = seq![line] + rest;
    assert(all[0] == line);
    assert(all.drop_first() =~= rest);
}

/// In a line of ASCII bytes at least as long as the time field's end, every
/// field can be cut out.
pub proof fn lemma_ascii_fields_cut(b: Seq<u8>)
    requires
        valid_utf8(b),
        b.len() >= TIME_END,
        forall|i: int| 0 <= i < b.len() ==> #[trigger] b[i] < 0x80,
    ensures
        can_cut(b, CARD_START as int, CARD_END as int),
        can_cut(b, CODE_START as int, CODE_END as int),
        can_cut(b, TIME_START as int, TIME_END as int),
{
    vstd::utf8::is_char_boundary_start_end_of_seq(b);
    assert(is_char_boundary(b, 0));
    assert forall|i: int| 0 <= i < b.len() implies is_char_boundary(b, i) by {
        assert(b[i] < 0x80);
        vstd::utf8::is_char_boundary_iff_not_is_continuation_byte(b, i);
    }
    if b.len() == TIME_END {
        assert(is_char_boundary(b, b.len() as int));
    } else {
        assert(is_char_boundary(b, TIME_END as int));
    }
}

/// Two ASCII lines that agree on the card, code and time fields parse alike:
/// the bytes between and after the fields play no part.
pub proof fn lemma_parse_reads_only_fields(b1: Seq<u8>, b2: Seq<u8>)
    requires
        valid_utf8(b1),
        valid_utf8(b2),
        b1.len() >= TIME_END,
        b2.len() >= TIME_END,
        forall|i: int| 0 <= i < b1.len() ==> #[trigger] b1[i] < 0x80,
        forall|i: int| 0 <= i < b2.len() ==> #[trigger] b2[i] < 0x80,
        b1.subrange(CARD_START as int, CARD_END as int) == b2.subrange(
            CARD_START as int,
            CARD_END as int,
        ),
        b1.subrange(CODE_START as int, CODE_END as int) == b2.subrange(
            CODE_START as int,
            CODE_END as int,
        ),
        b1.subrange(TIME_START as int, TIME_END as int) == b2.subrange(
            TIME_START as int,
            TIME_END as int,
        ),
    ensures
        parse_spec(b1) == parse_spec(b2),
{
    lemma_ascii_fields_cut(b1);
    lemma_ascii_fields_cut(b2);
    assert(field_text(b1, CARD_START as int, CARD_END as int) == field_text(
        b2,
        CARD_START as int,
        CARD_END as int,
    ));
    assert(field_text(b1, CODE_START as int, CODE_END as int) == field_text(
        b2,
        CODE_START as int,
        CODE_END as int,
    ));
    assert(field_text(b1, TIME_START as int, TIME_END as int) == field_text(
        b2,
        TIME_START as int,
        TIME_END as int,
    ));
}

} // verus!
