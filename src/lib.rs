//! Ingestion core of a punch feeder: fixed-width timing records are parsed
//! into punches, collected in a pending batch, and handed out for delivery
//! until a delivery is confirmed.

mod text;

pub use text::{
    canonical_clock_seconds, clock_seconds, decimal_value, digits_value, is_ascii_digit, is_canonical_clock, is_white, lemma_canonical_clock_in_day, lemma_digits_value_nonneg,
    trim_end_ws, trim_start_ws, trim_ws,
};
mod record;

pub use record::{
    can_cut, canonical_time, field_readable, field_text, field_value_text, is_complete, parse_spec, raw_text,
    span, Channel, Field, ParseError, Punch, PunchesRequest, CARD_END, CARD_START, CODE_END,
    CODE_START, MIN_RECORD_WIDTH, TIME_END, TIME_START,
};
mod batch;

pub use batch::{
    accepted, accepted_all, drain_spec, entry, failed_cycles, ingest_spec, settle_spec,
    BatchView, LineOutcome, PendingBatch, Settlement, BACKOFF_PAUSE_MS, IDLE_PAUSE_MS,
};
mod laws;

pub use laws::{
    lemma_ascii_fields_cut, lemma_cleared_iff_delivered, lemma_drain_appends,
    lemma_failed_attempt_resends, lemma_failed_cycles_keep_all, lemma_parse_reads_only_fields,
    lemma_rejected_line_keeps_batch, lemma_retry_carries_all, lemma_short_line_ends_drain,
};
