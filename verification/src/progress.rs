//! Progress events: the payload pushed to the caller, the percentage
//! arithmetic behind it, and the human-readable messages.
//!
//! Percentages are carried in hundredths of a percent (0 ..= 10000), so that
//! the engine needs no floating point; a presentation layer divides by 100.

use vstd::arithmetic::div_mod::{lemma_div_is_ordered, lemma_div_pos_is_pos};
use vstd::prelude::*;

use crate::text::{dec_str, spec_dec_rep, spec_digit_char};

verus! {

/// Lifecycle stage a progress event reports.
#[derive(Debug, Clone, Copy, PartialEq, Eq, Structural)]
pub enum ProgressStatus {
    Starting,
    Converting,
    Done,
}

/// One progress event. `percentage_hundredths` is the completed share in
/// hundredths of a percent: 2500 means 25.00 %.
#[derive(Debug, Clone)]
pub struct ProgressPayload {
    pub percentage_hundredths: u32,
    pub status: ProgressStatus,
    pub message: String,
}

impl ProgressPayload {
    /// A payload never reports more than 100 %.
    pub open spec fn wf(&self) -> bool {
        self.percentage_hundredths <= 10000
    }
}

/// Completed share in hundredths of a percent: `elapsed / total`, scaled to
/// 10000 and rounded to nearest, capped at 9900 (99 %) so that no event
/// reports completion while the encoder still runs.
pub open spec fn spec_percent_hundredths(elapsed_cs: int, total_cs: int) -> int {
    let raw = (elapsed_cs * 10000 + total_cs / 2) / total_cs;
    if raw > 9900 {
        9900
    } else {
        raw
    }
}

/// Computes the completed share in hundredths of a percent.
pub fn percent_hundredths(elapsed_cs: u64, total_cs: u64) -> (r: u32)
    requires
        total_cs > 0,
    ensures
        r == spec_percent_hundredths(elapsed_cs as int, total_cs as int),
        r <= 9900,
{
    let num: u128 = (elapsed_cs as u128) * 10000 + (total_cs as u128) / 2;
    let raw: u128 = num / (total_cs as u128);
    proof {
        lemma_div_pos_is_pos(num as int, total_cs as int);
    }
    if raw > 9900 {
        9900
    } else {
        raw as u32
    }
}

/// The completed share grows with elapsed time and stays within 0 ..= 9900:
/// progress events of one conversion, fed non-decreasing elapsed times, carry
/// non-decreasing percentages, bounded by 99 % until the terminal event.
pub proof fn lemma_percent_monotone(e1: int, e2: int, t: int)
    requires
        t > 0,
        0 <= e1 <= e2,
    ensures
        spec_percent_hundredths(e1, t) <= spec_percent_hundredths(e2, t),
        0 <= spec_percent_hundredths(e1, t) <= 9900,
{
    lemma_div_is_ordered(e1 * 10000 + t / 2, e2 * 10000 + t / 2, t);
    lemma_div_pos_is_pos(e1 * 10000 + t / 2, t);
}

/// Seconds with one decimal place, rendered from centiseconds: the integer
/// seconds, a dot, and the tenths digit (hundredths are cut off).
pub open spec fn spec_secs_tenths(cs: int) -> Seq<char> {
    spec_dec_rep(cs / 100) + seq!['.'] + seq![spec_digit_char((cs / 10) % 10)]
}

/// Renders centiseconds as seconds with one decimal place.
pub fn secs_tenths(cs: u64) -> (r: String)
    ensures
        r@ == spec_secs_tenths(cs as int),
{
    let mut s = dec_str(cs / 100);
    s.append(".");
    let tenth = (cs / 10) % 10;
    let tenth_str = dec_str(tenth);
    s.append(tenth_str.as_str());
    proof {
        reveal_strlit(".");
        assert(spec_dec_rep(tenth as int) =~= seq![spec_digit_char((cs as int / 10) % 10)]);
        assert(s@ =~= spec_secs_tenths(cs as int));
    }
    s
}

/// Message of a `Converting` event: elapsed and total seconds, one decimal
/// place each.
pub open spec fn spec_converting_message(elapsed_cs: int, total_cs: int) -> Seq<char> {
    "Processing... "@ + spec_secs_tenths(elapsed_cs) + "s / "@ + spec_secs_tenths(total_cs)
        + "s"@
}

/// Builds the message of a `Converting` event.
pub fn converting_message(elapsed_cs: u64, total_cs: u64) -> (r: String)
    ensures
        r@ == spec_converting_message(elapsed_cs as int, total_cs as int),
{
    let mut s = String::from_str("Processing... ");
    let elapsed_str = secs_tenths(elapsed_cs);
    s.append(elapsed_str.as_str());
    s.append("s / ");
    let total_str = secs_tenths(total_cs);
    s.append(total_str.as_str());
    s.append("s");
    proof {
        assert(s@ =~= spec_converting_message(elapsed_cs as int, total_cs as int));
    }
    s
}

} // verus!
