//! Checkpoints: a named, timestamped snapshot record. No file content is
//! captured and nothing is persisted yet: the record carries its metadata
//! and empty file maps.

use crate::numeral::dec_int;
use crate::numeral::i128_to_decimal;
use crate::numeral::lemma_dec_digits_are_digits;
use crate::numeral::lemma_dec_int_injective;
use std::collections::HashMap;
use vstd::prelude::*;

verus! {

/// A named, timestamped snapshot intended to map file paths to saved
/// content plus metadata. No handler captures file content yet, so the two
/// maps are always empty.
#[derive(Debug)]
pub struct Checkpoint {
    pub id: String,
    pub name: String,
    pub description: Option<String>,
    pub timestamp: String,
    pub files: HashMap<String, String>,
    pub metadata: HashMap<String, String>,
}

/// The identifier a checkpoint gets for a clock reading: `checkpoint-`
/// followed by the decimal count of nanoseconds since the Unix epoch.
pub open spec fn checkpoint_id_text(total_nanos: int) -> Seq<char> {
    "checkpoint-"@ + dec_int(total_nanos)
}

/// Law: distinct clock readings give distinct checkpoint identifiers.
pub proof fn lemma_checkpoint_id_injective(t1: int, t2: int)
    requires
        t1 != t2,
    ensures
        checkpoint_id_text(t1) != checkpoint_id_text(t2),
{
    lemma_dec_int_injective(t1, t2);
    if checkpoint_id_text(t1) == checkpoint_id_text(t2) {
        let p = "checkpoint-"@.len() as int;
        assert(checkpoint_id_text(t1).skip(p) =~= dec_int(t1));
        assert(checkpoint_id_text(t2).skip(p) =~= dec_int(t2));
        assert(false);
    }
}

/// Law: a checkpoint identifier is never empty.
pub proof fn lemma_checkpoint_id_nonempty(t: int)
    ensures
        checkpoint_id_text(t).len() > 0,
{
    lemma_dec_digits_are_digits(crate::numeral::abs_nat(t));
}

/// Relies on chrono's `Utc::now` and `DateTime::timestamp`: the number of
/// non-leap seconds since the Unix epoch at the moment of the call. The
/// clock alone decides the value, so nothing is promised of it.
#[verifier::external_body]
fn now_unix_seconds() -> i64 {
    chrono::Utc::now().timestamp()
}

/// Relies on chrono's `Utc::now` and `DateTime::timestamp_subsec_nanos`:
/// nanoseconds since the last second boundary, documented to range up to
/// 999,999,999, or up to 1,999,999,999 during a leap second.
#[verifier::external_body]
fn now_subsec_nanos() -> (r: u32)
    ensures
        r < 2_000_000_000,
{
    chrono::Utc::now().timestamp_subsec_nanos()
}

/// Relies on chrono's `Utc::now` and `DateTime::to_rfc3339`: an RFC 3339
/// and ISO 8601 date-and-time string, which is never empty.
#[verifier::external_body]
fn now_rfc3339() -> (r: String)
    ensures
        r@.len() > 0,
{
    chrono::Utc::now().to_rfc3339()
}

/// Builds the checkpoint record for one clock reading: the given name and
/// description, the identifier the reading determines, the given timestamp
/// text, and empty file and metadata maps.
pub fn checkpoint_for_instant(
    name: String,
    description: Option<String>,
    unix_seconds: i64,
    subsec_nanos: u32,
    timestamp: String,
) -> (c: Checkpoint)
    ensures
        c.name == name,
        c.description == description,
        c.id@ == checkpoint_id_text(unix_seconds * 1_000_000_000 + subsec_nanos),
        c.timestamp == timestamp,
        c.files@ == Map::<String, String>::empty(),
        c.metadata@ == Map::<String, String>::empty(),
{
    let total: i128 = (unix_seconds as i128) * 1_000_000_000 + (subsec_nanos as i128);
    let mut id = String::from_str("checkpoint-");
    let digits = i128_to_decimal(total);
    id.append(digits.as_str());
    Checkpoint {
        id,
        name,
        description,
        timestamp,
        files: HashMap::new(),
        metadata: HashMap::new(),
    }
}

/// Creates a checkpoint record for the current moment: the given name and
/// description, an identifier derived from the clock's nanosecond reading,
/// an RFC 3339 timestamp, and empty file and metadata maps — no file
/// content is captured and nothing is persisted.
pub fn create_checkpoint(name: String, description: Option<String>) -> (c: Checkpoint)
    ensures
        c.name == name,
        c.description == description,
        exists|t: int| c.id@ == checkpoint_id_text(t),
        c.id@.len() > 0,
        c.timestamp@.len() > 0,
        c.files@ == Map::<String, String>::empty(),
        c.metadata@ == Map::<String, String>::empty(),
{
    let secs = now_unix_seconds();
    let nanos = now_subsec_nanos();
    let timestamp = now_rfc3339();
    let c = checkpoint_for_instant(name, description, secs, nanos, timestamp);
    proof {
        let t = secs * 1_000_000_000 + nanos;
        assert(c.id@ == checkpoint_id_text(t));
        lemma_checkpoint_id_nonempty(t);
    }
    c
}

} // verus!
