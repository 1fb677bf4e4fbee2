//! The pending batch and the decisions of the feed cycle: drain complete
//! lines into the batch, offer the whole batch for delivery, and clear it
//! only once a delivery is confirmed.

use vstd::prelude::*;
use vstd::string::StringSliceAdditionalSpecFns;

use crate::record::{is_complete, parse_spec, raw_text, Field, ParseError, Punch, PunchesRequest};

verus! {

/// Pause after every cycle, in milliseconds.
pub const IDLE_PAUSE_MS: u64 = 100;

/// Extra pause after a failed delivery, in milliseconds.
pub const BACKOFF_PAUSE_MS: u64 = 5000;

/// What a pending batch holds: the token for the next delivery and the
/// punches not yet delivered, oldest first.
pub ghost struct BatchView {
    pub token: Seq<char>,
    pub records: Seq<Punch>,
}

/// Punches parsed but not yet delivered, with the device token they are sent with.
pub struct PendingBatch {
    token: String,
    records: Vec<Punch>,
}

impl View for PendingBatch {
    type V = BatchView;

    closed spec fn view(&self) -> BatchView {
        BatchView { token: self.token@, records: self.records@ }
    }
}

/// What became of one line offered to the batch.
#[derive(Clone, Debug)]
pub enum LineOutcome {
    /// Shorter than a record: nothing more to drain for now.
    Incomplete,
    /// Parsed and appended to the batch.
    Accepted(Punch),
    /// Refused; the batch is untouched.
    Rejected(ParseError),
}

/// What became of a delivery attempt.
#[derive(Clone, Debug)]
pub enum Settlement {
    /// Confirmed: the `(code, card, time)` of every delivered punch, in order.
    Delivered(Vec<(i16, i32, u32)>),
    /// Failed: the number of punches attempted, all still pending.
    Retained(usize),
}

/// The batch after one line is offered to it.
pub open spec fn ingest_spec(records: Seq<Punch>, line: Seq<u8>) -> Seq<Punch> {
    if is_complete(line) && parse_spec(line) is Ok {
        records.push(parse_spec(line)->Ok_0)
    } else {
        records
    }
}

/// The batch after a drain phase over the lines the source yields: it stops
/// at the first line that is not complete.
pub open spec fn drain_spec(records: Seq<Punch>, lines: Seq<Seq<u8>>) -> Seq<Punch>
    decreases lines.len(),
{
    if lines.len() == 0 || !is_complete(lines[0]) {
        records
    } else {
        drain_spec(ingest_spec(records, lines[0]), lines.drop_first())
    }
}

/// The punches a drain phase over `lines` adds, in order.
pub open spec fn accepted(lines: Seq<Seq<u8>>) -> Seq<Punch> {
    drain_spec(Seq::empty(), lines)
}

/// The batch after a delivery attempt that succeeded or failed.
pub open spec fn settle_spec(records: Seq<Punch>, delivered: bool) -> Seq<Punch> {
    if delivered {
        Seq::empty()
    } else {
        records
    }
}

/// The batch after cycles that each drain their lines and then fail to deliver.
pub open spec fn failed_cycles(records: Seq<Punch>, cycles: Seq<Seq<Seq<u8>>>) -> Seq<Punch>
    decreases cycles.len(),
{
    if cycles.len() == 0 {
        records
    } else {
        failed_cycles(settle_spec(drain_spec(records, cycles[0]), false), cycles.drop_first())
    }
}

/// Everything the cycles' drain phases add, cycle after cycle.
pub open spec fn accepted_all(cycles: Seq<Seq<Seq<u8>>>) -> Seq<Punch>
    decreases cycles.len(),
{
    if cycles.len() == 0 {
        Seq::empty()
    } else {
        accepted(cycles[0]) + accepted_all(cycles.drop_first())
    }
}

/// The `(code, card, time)` of a punch.
pub open spec fn entry(p: Punch) -> (i16, i32, u32) {
    (p.code, p.card, p.time)
}

impl PendingBatch {
    /// An empty batch that will be delivered with `token`.
    pub fn new(token: String) -> (r: PendingBatch)
        ensures
            r@.token == token@,
            r@.records == Seq::<Punch>::empty(),
    {
        PendingBatch { token, records: Vec::new() }
    }

    pub fn len(&self) -> (r: usize)
        ensures
            r == self@.records.len(),
    {
        self.records.len()
    }

    pub fn is_empty(&self) -> (r: bool)
        ensures
            r == (self@.records.len() == 0),
    {
        self.records.len() == 0
    }

    /// The pending punches, oldest first.
    pub fn records(&self) -> (r: Vec<Punch>)
        ensures
            r@ == self@.records,
    {
        let mut out: Vec<Punch> = Vec::new();
        let mut i: usize = 0;
        while i < self.records.len()
            invariant
                i <= self.records@.len(),
                out@ == self.records@.subrange(0, i as int),
            decreases self.records@.len() - i,
        {
            out.push(self.records[i]);
            i = i + 1;
        }
        assert(out@ =~= self.records@);
        out
    }

    /// Offers one line from the source. A line shorter than a record ends the
    /// drain phase and changes nothing; a record is parsed and its punch
    /// appended; a line that does not parse is reported and changes nothing.
    pub fn ingest(&mut self, line: &str) -> (r: LineOutcome)
        ensures
            final(self)@.token == old(self)@.token,
            final(self)@.records == ingest_spec(old(self)@.records, line.spec_bytes()),
            !is_complete(line.spec_bytes()) <==> r is Incomplete,
            r matches LineOutcome::Accepted(p) ==> parse_spec(line.spec_bytes()) == Ok::<Punch, Field>(p),
            r matches LineOutcome::Rejected(e) ==> parse_spec(line.spec_bytes()) == Err::<Punch, Field>(
                e.field,
            ) && e.raw@ == raw_text(line.spec_bytes(), line@, e.field),
            is_complete(line.spec_bytes()) ==> (r is Accepted <==> parse_spec(
                line.spec_bytes(),
            ) is Ok),
    {
        if line.as_bytes().len() < crate::record::MIN_RECORD_WIDTH {
            return LineOutcome::Incomplete;
        }
        match Punch::parse(line) {
            Ok(p) => {
                self.records.push(p);
                LineOutcome::Accepted(p)
            },
            Err(e) => LineOutcome::Rejected(e),
        }
    }

    /// The delivery to make at the end of a drain phase: none for an empty
    /// batch, else the token and every pending punch.
    pub fn request(&self) -> (r: Option<PunchesRequest>)
        ensures
            r is None <==> self@.records.len() == 0,
            r matches Some(q) ==> q.api_token@ == self@.token && q.records@ == self@.records,
    {
        if self.records.len() == 0 {
            return None;
        }
        Some(PunchesRequest { api_token: self.token.clone(), records: self.records() })
    }

    /// Records the outcome of a delivery of the whole batch: on success the
    /// batch is cleared and its punches listed; on failure it stays as it was.
    pub fn settle(&mut self, delivered: bool) -> (r: Settlement)
        ensures
            final(self)@.token == old(self)@.token,
            final(self)@.records == settle_spec(old(self)@.records, delivered),
            delivered ==> (r matches Settlement::Delivered(v) && v@ == old(
                self,
            )@.records.map_values(|p: Punch| entry(p))),
            !delivered ==> (r matches Settlement::Retained(n) && n == old(self)@.records.len()),
    {
        if !delivered {
            return Settlement::Retained(self.records.len());
        }
        let mut entries: Vec<(i16, i32, u32)> = Vec::new();
        let mut i: usize = 0;
        while i < self.records.len()
            invariant
                i <= self.records@.len(),
                entries@ == self.records@.subrange(0, i as int).map_values(|p: Punch| entry(p)),
            decreases self.records@.len() - i,
        {
            let p = self.records[i];
            entries.push((p.code, p.card, p.time));
            i = i + 1;
            assert(entries@ =~= self.records@.subrange(0, i as int).map_values(
                |p: Punch| entry(p),
            ));
        }
        assert(self.records@.subrange(0, i as int) =~= self.records@);
        self.records = Vec::new();
        Settlement::Delivered(entries)
    }
}

impl Settlement {
    /// How long to pause before the next cycle: the idle pause, plus the
    /// back-off after a failure.
    pub fn pause_ms(&self) -> (r: u64)
        ensures
            self is Delivered ==> r == IDLE_PAUSE_MS,
            self is Retained ==> r == IDLE_PAUSE_MS + BACKOFF_PAUSE_MS,
    {
        match self {
            Settlement::Delivered(_) => IDLE_PAUSE_MS,
            Settlement::Retained(_) => IDLE_PAUSE_MS + BACKOFF_PAUSE_MS,
        }
    }
}

} // verus!
