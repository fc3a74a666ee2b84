//! Encoding of the `since` field of a transaction input, and the time arithmetic of
//! relative time locks.

use vstd::prelude::*;
use vstd::relations::{sorted_by, total_ordering};
use vstd::seq_lib::{lemma_sorted_unique, to_multiset_build, to_multiset_insert, to_multiset_len};

verus! {

/// Bit 63 of a `since` value: the lock is relative to the block that confirmed the input.
pub const FLAG_SINCE_RELATIVE: u64 = 0x8000_0000_0000_0000;

/// Bits 62..61 of a `since` value when the payload is an epoch number with fraction.
pub const FLAG_SINCE_EPOCH_NUMBER: u64 = 0x2000_0000_0000_0000;

/// Bits 62..61 of a `since` value when the payload is a timestamp in seconds.
pub const FLAG_SINCE_TIMESTAMP: u64 = 0x4000_0000_0000_0000;

/// Bits 62..61 of a `since` value: the metric of the payload.
pub const SINCE_METRIC_MASK: u64 = 0x6000_0000_0000_0000;

/// Bits 60..56 of a `since` value: reserved, zero in every valid value.
pub const SINCE_RESERVED_MASK: u64 = 0x1f00_0000_0000_0000;

/// Bits 55..0 of a `since` value: the payload, which is also its largest value.
pub const SINCE_PAYLOAD_MASK: u64 = 0x00ff_ffff_ffff_ffff;

/// Milliseconds in one second: the payload of a timestamp lock counts seconds, block
/// timestamps count milliseconds.
pub const MILLIS_PER_SECOND: u64 = 1000;

/// What the payload of a `since` value measures.
#[derive(Clone, Copy, Debug, PartialEq, Eq, Structural)]
pub enum SinceMetric {
    BlockNumber,
    EpochNumber,
    Timestamp,
}

/// A decoded `since` value.
#[derive(Clone, Copy, Debug, PartialEq, Eq, Structural)]
pub struct Since {
    pub relative: bool,
    pub metric: SinceMetric,
    pub payload: u64,
}

/// The `since` value of a relative lock of `seconds` seconds: both flags set over the payload.
pub open spec fn relative_timestamp_since(seconds: u64) -> u64 {
    FLAG_SINCE_RELATIVE | FLAG_SINCE_TIMESTAMP | seconds
}

/// The meaning of a raw `since` value; `None` where a reserved bit is set or the metric
/// bits are both set.
pub open spec fn decoded(raw: u64) -> Option<Since> {
    if raw & SINCE_RESERVED_MASK != 0 || raw & SINCE_METRIC_MASK == SINCE_METRIC_MASK {
        None
    } else {
        Some(
            Since {
                relative: raw & FLAG_SINCE_RELATIVE != 0,
                metric: if raw & SINCE_METRIC_MASK == FLAG_SINCE_TIMESTAMP {
                    SinceMetric::Timestamp
                } else if raw & SINCE_METRIC_MASK == FLAG_SINCE_EPOCH_NUMBER {
                    SinceMetric::EpochNumber
                } else {
                    SinceMetric::BlockNumber
                },
                payload: raw & SINCE_PAYLOAD_MASK,
            },
        )
    }
}

/// Whether a lock of `relative_secs` seconds that started at `start_time` (milliseconds)
/// has run out at `now` (milliseconds).
pub open spec fn lock_elapsed(start_time: u64, relative_secs: u64, now: u64) -> bool {
    start_time + relative_secs * MILLIS_PER_SECOND <= now
}

/// Encodes a relative lock of `timestamp` seconds. A number of seconds wider than the
/// payload spills into the bits above it, and the value is then no valid `since`.
pub fn since_from_relative_timestamp(timestamp: u64) -> (since: u64)
    ensures
        since == relative_timestamp_since(timestamp),
{
    FLAG_SINCE_RELATIVE | FLAG_SINCE_TIMESTAMP | timestamp
}

/// Decodes a raw `since` value.
pub fn decode_since(raw: u64) -> (since: Option<Since>)
    ensures
        since == decoded(raw),
{
    if raw & SINCE_RESERVED_MASK != 0 || raw & SINCE_METRIC_MASK == SINCE_METRIC_MASK {
        return None;
    }
    let metric = if raw & SINCE_METRIC_MASK == FLAG_SINCE_TIMESTAMP {
        SinceMetric::Timestamp
    } else if raw & SINCE_METRIC_MASK == FLAG_SINCE_EPOCH_NUMBER {
        SinceMetric::EpochNumber
    } else {
        SinceMetric::BlockNumber
    };
    Some(Since { relative: raw & FLAG_SINCE_RELATIVE != 0, metric, payload: raw & SINCE_PAYLOAD_MASK })
}

/// Decides whether a lock of `relative_secs` seconds that started at `start_time` has run
/// out at `now`, both in milliseconds.
pub fn is_lock_elapsed(start_time: u64, relative_secs: u64, now: u64) -> (elapsed: bool)
    ensures
        elapsed == lock_elapsed(start_time, relative_secs, now),
{
    let millis: u128 = relative_secs as u128 * 1000;
    let due: u128 = start_time as u128 + millis;
    due <= now as u128
}

/// Decoding the encoding of a relative timestamp lock gives back the relative flag, the
/// timestamp metric and the seconds, for every number of seconds that fits the payload.
pub proof fn lemma_since_round_trip(seconds: u64)
    requires
        seconds <= SINCE_PAYLOAD_MASK,
    ensures
        decoded(relative_timestamp_since(seconds)) == Some(
            Since { relative: true, metric: SinceMetric::Timestamp, payload: seconds },
        ),
{
    let raw = relative_timestamp_since(seconds);
    assert(raw & 0x1f00_0000_0000_0000u64 == 0 && raw & 0x6000_0000_0000_0000u64
        == 0x4000_0000_0000_0000u64 && raw & 0x8000_0000_0000_0000u64 != 0 && raw
        & 0x00ff_ffff_ffff_ffffu64 == seconds) by (bit_vector)
        requires
            raw == 0x8000_0000_0000_0000u64 | 0x4000_0000_0000_0000u64 | seconds,
            seconds <= 0x00ff_ffff_ffff_ffffu64,
    ;
}

/// A lock of zero seconds has run out at every time from its start on.
pub proof fn lemma_zero_lock_elapsed(start_time: u64, now: u64)
    ensures
        lock_elapsed(start_time, 0, now) <==> start_time <= now,
{
}

/// Whether `needle` stands in `haystack` from position `at` on.
pub open spec fn occurs_at(haystack: Seq<char>, needle: Seq<char>, at: int) -> bool {
    &&& 0 <= at
    &&& at + needle.len() <= haystack.len()
    &&& forall|k: int| 0 <= k < needle.len() ==> haystack[at + k] == needle[k]
}

/// Whether `needle` stands somewhere in `haystack`.
pub open spec fn contains_text(haystack: Seq<char>, needle: Seq<char>) -> bool {
    exists|at: int| occurs_at(haystack, needle, at)
}

/// Whether one of `reasons` holds `sentinel`.
pub open spec fn cited(reasons: Seq<Seq<char>>, sentinel: Seq<char>) -> bool {
    exists|i: int| 0 <= i < reasons.len() && contains_text(#[trigger] reasons[i], sentinel)
}

/// Decides whether `needle` stands somewhere in `haystack`.
pub fn text_contains(haystack: &str, needle: &str) -> (found: bool)
    ensures
        found == contains_text(haystack@, needle@),
{
    let h: usize = haystack.unicode_len();
    let n: usize = needle.unicode_len();
    if n > h {
        assert(!contains_text(haystack@, needle@)) by {
            if contains_text(haystack@, needle@) {
                let at = choose|at: int| occurs_at(haystack@, needle@, at);
                assert(occurs_at(haystack@, needle@, at));
            }
        }
        return false;
    }
    let mut at: usize = 0;
    while at <= h - n
        invariant
            h == haystack@.len(),
            n == needle@.len(),
            n <= h,
            at <= h - n + 1,
            forall|a: int| 0 <= a < at ==> !occurs_at(haystack@, needle@, a),
        decreases h - n + 1 - at,
    {
        let mut k: usize = 0;
        let mut same: bool = true;
        while k < n && same
            invariant
                h == haystack@.len(),
                n == needle@.len(),
                at + n <= h,
                k <= n,
                same ==> forall|m: int| 0 <= m < k ==> haystack@[at + m] == needle@[m],
                !same ==> !occurs_at(haystack@, needle@, at as int),
            decreases n - k, same as int,
        {
            if haystack.get_char(at + k) != needle.get_char(k) {
                same = false;
            } else {
                k += 1;
            }
        }
        if same {
            assert(occurs_at(haystack@, needle@, at as int));
            return true;
        }
        at += 1;
    }
    assert(!contains_text(haystack@, needle@)) by {
        if contains_text(haystack@, needle@) {
            let a = choose|a: int| occurs_at(haystack@, needle@, a);
            assert(occurs_at(haystack@, needle@, a));
        }
    }
    false
}

/// Decides whether one of `reasons` holds `sentinel`.
pub fn any_cites(reasons: &Vec<String>, sentinel: &str) -> (found: bool)
    ensures
        found == cited(reasons@.map_values(|r: String| r@), sentinel@),
{
    let ghost texts = reasons@.map_values(|r: String| r@);
    let mut i: usize = 0;
    while i < reasons.len()
        invariant
            i <= reasons.len(),
            texts == reasons@.map_values(|r: String| r@),
            forall|k: int| 0 <= k < i ==> !contains_text(#[trigger] texts[k], sentinel@),
        decreases reasons.len() - i,
    {
        if text_contains(reasons[i].as_str(), sentinel) {
            assert(contains_text(texts[i as int], sentinel@));
            return true;
        }
        i += 1;
    }
    false
}

/// Whether no value of `s` is followed by a smaller one.
pub open spec fn ascending(s: Seq<u64>) -> bool {
    forall|i: int, j: int| 0 <= i <= j < s.len() ==> s[i] <= s[j]
}

/// Whether `m` is the median of `s`: the value in the middle of `s` put in ascending order,
/// the upper one of the two in the middle where `s` has an even number of values.
pub open spec fn is_median(s: Seq<u64>, m: u64) -> bool {
    exists|sorted: Seq<u64>|
        #![trigger ascending(sorted)]
        ascending(sorted) && sorted.to_multiset() == s.to_multiset() && 0 < sorted.len()
            && sorted[(sorted.len() / 2) as int] == m
}

/// The values of `values` in ascending order.
fn ascending_copy(values: &Vec<u64>) -> (sorted: Vec<u64>)
    ensures
        ascending(sorted@),
        sorted@.to_multiset() == values@.to_multiset(),
        sorted@.len() == values@.len(),
{
    let mut sorted: Vec<u64> = Vec::new();
    let mut i: usize = 0;
    assert(sorted@ =~= values@.take(0));
    while i < values.len()
        invariant
            i <= values.len(),
            sorted@.len() == i,
            ascending(sorted@),
            sorted@.to_multiset() == values@.take(i as int).to_multiset(),
        decreases values.len() - i,
    {
        let value: u64 = values[i];
        let mut at: usize = 0;
        while at < sorted.len() && sorted[at] <= value
            invariant
                at <= sorted.len(),
                forall|k: int| 0 <= k < at ==> sorted@[k] <= value,
            decreases sorted.len() - at,
        {
            at += 1;
        }
        proof {
            let before = sorted@;
            let after = before.insert(at as int, value);
            assert forall|a: int, b: int| 0 <= a <= b < after.len() implies after[a] <= after[b] by {
                if b < at {
                    assert(after[a] == before[a] && after[b] == before[b]);
                } else if b == at {
                    if a < at {
                        assert(after[a] == before[a]);
                    }
                } else {
                    assert(after[b] == before[b - 1]);
                    assert(before[at as int] <= before[b - 1]);
                    if a < at {
                        assert(after[a] == before[a]);
                    } else if a > at {
                        assert(after[a] == before[a - 1]);
                    }
                }
            }
            to_multiset_insert(before, at as int, value);
            assert(values@.take(i + 1) =~= values@.take(i as int).push(value));
            to_multiset_build(values@.take(i as int), value);
        }
        sorted.insert(at, value);
        i += 1;
    }
    assert(values@.take(values.len() as int) =~= values@);
    sorted
}

/// The median of `timestamps`; `None` where there is none to take it of.
pub fn median_of(timestamps: &Vec<u64>) -> (median: Option<u64>)
    ensures
        match median {
            Some(m) => is_median(timestamps@, m),
            None => timestamps@.len() == 0,
        },
{
    if timestamps.len() == 0 {
        return None;
    }
    let sorted = ascending_copy(timestamps);
    let median: u64 = sorted[sorted.len() / 2];
    assert(ascending(sorted@));
    Some(median)
}

/// A list of values has one median only, as many values as the list has, whatever their
/// order.
pub proof fn lemma_median_is_unique(s: Seq<u64>, a: u64, b: u64)
    requires
        is_median(s, a),
        is_median(s, b),
    ensures
        a == b,
        s.len() > 0,
{
    let x = choose|sorted: Seq<u64>|
        #![trigger ascending(sorted)]
        ascending(sorted) && sorted.to_multiset() == s.to_multiset() && 0 < sorted.len()
            && sorted[(sorted.len() / 2) as int] == a;
    let y = choose|sorted: Seq<u64>|
        #![trigger ascending(sorted)]
        ascending(sorted) && sorted.to_multiset() == s.to_multiset() && 0 < sorted.len()
            && sorted[(sorted.len() / 2) as int] == b;
    let at_most = |p: u64, q: u64| p <= q;
    assert(total_ordering(at_most));
    assert(sorted_by(x, at_most));
    assert(sorted_by(y, at_most));
    lemma_sorted_unique(x, y, at_most);
    to_multiset_len(x);
    to_multiset_len(s);
}

/// The numbers of the first and the last of the `count` blocks before block
/// `block_number`, fewer where the chain is shorter: the blocks whose timestamps make the
/// median timestamp of the block. `None` where there is no such block.
pub open spec fn ancestor_window(block_number: u64, count: u64) -> Option<(u64, u64)> {
    if block_number == 0 || count == 0 {
        None
    } else if block_number <= count {
        Some((0u64, (block_number - 1) as u64))
    } else {
        Some(((block_number - count) as u64, (block_number - 1) as u64))
    }
}

/// The window of the same length one block later, which ends with block `block_number`
/// itself: the blocks whose timestamps make the committed timestamp of the block.
pub open spec fn committed_window(block_number: u64, count: u64) -> Option<(u64, u64)> {
    if count == 0 {
        None
    } else if block_number < count {
        Some((0u64, block_number))
    } else {
        Some(((block_number - count + 1) as u64, block_number))
    }
}

/// The blocks whose timestamps make the median timestamp of block `block_number`, where
/// the median is taken of `count` blocks.
pub fn median_blocks(block_number: u64, count: u64) -> (window: Option<(u64, u64)>)
    ensures
        window == ancestor_window(block_number, count),
{
    if block_number == 0 || count == 0 {
        None
    } else if block_number <= count {
        Some((0, block_number - 1))
    } else {
        Some((block_number - count, block_number - 1))
    }
}

/// The blocks whose timestamps make the committed timestamp of block `block_number`,
/// where the median is taken of `count` blocks.
pub fn committed_blocks(block_number: u64, count: u64) -> (window: Option<(u64, u64)>)
    ensures
        window == committed_window(block_number, count),
{
    if count == 0 {
        None
    } else if block_number < count {
        Some((0, block_number))
    } else {
        Some((block_number - count + 1, block_number))
    }
}

/// The committed window is the median window moved on by one block: it holds no fewer
/// blocks, begins no earlier and ends one block later, so that on a chain whose timestamps
/// never fall the committed timestamp is no earlier than the median timestamp.
pub proof fn lemma_committed_window_is_shifted(block_number: u64, count: u64)
    requires
        ancestor_window(block_number, count) is Some,
    ensures
        committed_window(block_number, count) matches Some(shifted) && (ancestor_window(
            block_number,
            count,
        ) matches Some(window) && {
            &&& shifted.1 == window.1 + 1
            &&& shifted.1 == block_number
            &&& window.0 <= shifted.0 <= window.0 + 1
        }),
{
}

} // verus!
