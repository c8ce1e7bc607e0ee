//! Statistics deduplication: filtering a raw statistics snapshot against
//! the hashes of the values last sent, keeping only changed entries.

use vstd::prelude::*;
use vstd::std_specs::hash::DefaultHasherAdditionalSpecFns;

use std::collections::HashMap;
use std::collections::hash_map::DefaultHasher;
use std::hash::Hasher;

verus! {

broadcast use vstd::std_specs::hash::group_hash_axioms;

/// Identifier of one metric in a statistics snapshot.
#[derive(Clone, Copy, Debug, PartialEq, Eq, Structural)]
pub struct StatId(pub u64);

/// One entry of a statistics snapshot: a metric and its content, carried
/// as the opaque bytes the platform reported for it.
#[derive(Clone, Debug, PartialEq, Eq)]
pub struct RtcStat {
    /// Metric the entry reports.
    pub id: StatId,
    /// Content of the metric, as opaque bytes.
    pub stats: Vec<u8>,
}

/// The 64-bit content hash of a metric's bytes, as the standard hasher
/// computes it from a single write of those bytes.
pub open spec fn stat_hash_of(bytes: Seq<u8>) -> u64 {
    DefaultHasher::spec_finish(seq![bytes])
}

/// Computes the content hash of a metric's bytes.
pub fn stat_hash(bytes: &Vec<u8>) -> (h: u64)
    ensures
        h == stat_hash_of(bytes@),
{
    let mut hasher = DefaultHasher::new();
    hasher.write(bytes.as_slice());
    let h = hasher.finish();
    proof {
        assert(hasher@ =~= seq![bytes@]);
    }
    h
}

/// Whether a snapshot entry is kept against a cache of last-sent hashes:
/// its metric was never sent, or its content hash differs from the
/// last-sent one.
pub open spec fn stat_kept(cache: Map<u64, u64>, stat: RtcStat) -> bool {
    !cache.contains_key(stat.id.0) || cache[stat.id.0] != stat_hash_of(stat.stats@)
}

/// The cache of last-sent hashes after a snapshot passed through it:
/// every entry's hash is recorded, left to right. The cache never
/// shrinks: entries are only added or overwritten.
pub open spec fn dedup_cache(cache: Map<u64, u64>, stats: Seq<RtcStat>) -> Map<u64, u64>
    decreases stats.len(),
{
    if stats.len() == 0 {
        cache
    } else {
        dedup_cache(cache.insert(stats[0].id.0, stat_hash_of(stats[0].stats@)), stats.skip(1))
    }
}

/// The filtered snapshot: the entries kept against the cache as it is
/// updated left to right, in their original order.
pub open spec fn dedup_filter(cache: Map<u64, u64>, stats: Seq<RtcStat>) -> Seq<RtcStat>
    decreases stats.len(),
{
    if stats.len() == 0 {
        Seq::empty()
    } else {
        let rest = dedup_filter(
            cache.insert(stats[0].id.0, stat_hash_of(stats[0].stats@)),
            stats.skip(1),
        );
        if stat_kept(cache, stats[0]) {
            seq![stats[0]] + rest
        } else {
            rest
        }
    }
}

/// Whether no two entries of a snapshot report the same metric.
pub open spec fn distinct_ids(stats: Seq<RtcStat>) -> bool {
    forall|i: int, j: int| 0 <= i < j < stats.len() ==> stats[i].id.0 != stats[j].id.0
}

/// Filters a snapshot against the cache of last-sent hashes, updating the
/// cache: an entry is kept exactly when its metric is new to the cache or
/// its content hash differs from the recorded one.
pub fn filter_stats(cache: &mut HashMap<u64, u64>, stats: Vec<RtcStat>) -> (kept: Vec<RtcStat>)
    ensures
        kept@ == dedup_filter(old(cache)@, stats@),
        final(cache)@ == dedup_cache(old(cache)@, stats@),
{
    let ghost orig_cache = old(cache)@;
    let ghost full = stats@;
    let mut remaining = stats;
    let mut kept: Vec<RtcStat> = Vec::new();
    proof {
        assert(kept@ + dedup_filter(cache@, remaining@) =~= dedup_filter(cache@, remaining@));
    }
    while remaining.len() > 0
        invariant
            dedup_filter(orig_cache, full) == kept@ + dedup_filter(cache@, remaining@),
            dedup_cache(orig_cache, full) == dedup_cache(cache@, remaining@),
        decreases remaining.len(),
    {
        let ghost pre_cache = cache@;
        let ghost pre_remaining = remaining@;
        let stat = remaining.remove(0);
        let h = stat_hash(&stat.stats);
        let id = stat.id.0;
        proof {
            assert(pre_remaining.remove(0) =~= pre_remaining.skip(1));
        }
        let keep: bool;
        match cache.get(&id) {
            Some(last) => {
                if *last == h {
                    keep = false;
                    proof {
                        assert(pre_cache.insert(id, h) =~= pre_cache);
                    }
                } else {
                    let _previous = cache.insert(id, h);
                    keep = true;
                }
            }
            None => {
                let _previous = cache.insert(id, h);
                keep = true;
            }
        }
        if keep {
            let ghost pre_kept = kept@;
            kept.push(stat);
            proof {
                assert(pre_kept + (seq![stat] + dedup_filter(cache@, remaining@)) =~= kept@
                    + dedup_filter(cache@, remaining@));
            }
        }
    }
    proof {
        assert(dedup_filter(cache@, remaining@) =~= Seq::<RtcStat>::empty());
        assert(kept@ + Seq::<RtcStat>::empty() =~= kept@);
    }
    kept
}

/// Helper: a snapshot that names a metric nowhere leaves that metric's
/// cache entry untouched.
proof fn lemma_dedup_cache_frame(cache: Map<u64, u64>, stats: Seq<RtcStat>, k: u64)
    requires
        forall|i: int| 0 <= i < stats.len() ==> stats[i].id.0 != k,
    ensures
        dedup_cache(cache, stats).contains_key(k) == cache.contains_key(k),
        cache.contains_key(k) ==> dedup_cache(cache, stats)[k] == cache[k],
    decreases stats.len(),
{
    if stats.len() > 0 {
        lemma_dedup_cache_frame(
            cache.insert(stats[0].id.0, stat_hash_of(stats[0].stats@)),
            stats.skip(1),
            k,
        );
    }
}

/// Helper: after a snapshot with distinct metrics passes through the
/// cache, the cache records exactly each entry's content hash.
proof fn lemma_dedup_cache_records(cache: Map<u64, u64>, stats: Seq<RtcStat>)
    requires
        distinct_ids(stats),
    ensures
        forall|i: int|
            0 <= i < stats.len() ==> dedup_cache(cache, stats).contains_key(#[trigger] stats[i].id.0)
                && dedup_cache(cache, stats)[stats[i].id.0] == stat_hash_of(stats[i].stats@),
    decreases stats.len(),
{
    if stats.len() > 0 {
        let cache1 = cache.insert(stats[0].id.0, stat_hash_of(stats[0].stats@));
        lemma_dedup_cache_records(cache1, stats.skip(1));
        lemma_dedup_cache_frame(cache1, stats.skip(1), stats[0].id.0);
        assert forall|i: int| 0 <= i < stats.len() implies dedup_cache(
            cache,
            stats,
        ).contains_key(#[trigger] stats[i].id.0) && dedup_cache(cache, stats)[stats[i].id.0]
            == stat_hash_of(stats[i].stats@) by {
            if i > 0 {
                assert(stats.skip(1)[i - 1] == stats[i]);
            }
        }
    }
}

/// Helper: a snapshot whose every entry's hash the cache already records
/// is filtered out entirely.
proof fn lemma_dedup_filter_none_kept(cache: Map<u64, u64>, stats: Seq<RtcStat>)
    requires
        forall|i: int|
            0 <= i < stats.len() ==> cache.contains_key(#[trigger] stats[i].id.0)
                && cache[stats[i].id.0] == stat_hash_of(stats[i].stats@),
    ensures
        dedup_filter(cache, stats) == Seq::<RtcStat>::empty(),
    decreases stats.len(),
{
    if stats.len() > 0 {
        assert(!stat_kept(cache, stats[0]));
        assert(cache.insert(stats[0].id.0, stat_hash_of(stats[0].stats@)) =~= cache);
        assert forall|i: int| 0 <= i < stats.skip(1).len() implies cache.contains_key(
            #[trigger] stats.skip(1)[i].id.0,
        ) && cache[stats.skip(1)[i].id.0] == stat_hash_of(stats.skip(1)[i].stats@) by {
            assert(stats.skip(1)[i] == stats[i + 1]);
        }
        lemma_dedup_filter_none_kept(cache, stats.skip(1));
    }
}

/// Law: the cache of last-sent hashes never shrinks — passing any
/// snapshot through it preserves every recorded metric; entries are only
/// added or overwritten.
pub proof fn lemma_stats_cache_never_shrinks(cache: Map<u64, u64>, stats: Seq<RtcStat>, k: u64)
    requires
        cache.contains_key(k),
    ensures
        dedup_cache(cache, stats).contains_key(k),
    decreases stats.len(),
{
    if stats.len() > 0 {
        lemma_stats_cache_never_shrinks(
            cache.insert(stats[0].id.0, stat_hash_of(stats[0].stats@)),
            stats.skip(1),
            k,
        );
    }
}

/// Law: deduplication is idempotent. Once a snapshot with distinct
/// metrics has been sent, resending the identical snapshot is filtered
/// out entirely, whatever the cache held before.
pub proof fn lemma_stats_dedup_idempotent(cache: Map<u64, u64>, stats: Seq<RtcStat>)
    requires
        distinct_ids(stats),
    ensures
        dedup_filter(dedup_cache(cache, stats), stats) == Seq::<RtcStat>::empty(),
{
    lemma_dedup_cache_records(cache, stats);
    lemma_dedup_filter_none_kept(dedup_cache(cache, stats), stats);
}

/// Law: a snapshot of metrics that were never sent passes through the
/// filter whole, in order; in particular the first send of a non-empty
/// snapshot yields a non-empty filtered result.
pub proof fn lemma_stats_dedup_fresh(cache: Map<u64, u64>, stats: Seq<RtcStat>)
    requires
        distinct_ids(stats),
        forall|i: int| 0 <= i < stats.len() ==> !cache.contains_key(#[trigger] stats[i].id.0),
    ensures
        dedup_filter(cache, stats) == stats,
    decreases stats.len(),
{
    if stats.len() == 0 {
        assert(dedup_filter(cache, stats) =~= stats);
    } else {
        assert(stat_kept(cache, stats[0]));
        let cache1 = cache.insert(stats[0].id.0, stat_hash_of(stats[0].stats@));
        assert forall|i: int| 0 <= i < stats.skip(1).len() implies !cache1.contains_key(
            #[trigger] stats.skip(1)[i].id.0,
        ) by {
            assert(stats.skip(1)[i] == stats[i + 1]);
        }
        lemma_stats_dedup_fresh(cache1, stats.skip(1));
        assert(seq![stats[0]] + stats.skip(1) =~= stats);
    }
}

/// Law: against a cache that already records every entry's hash except
/// one changed entry's, a snapshot with distinct metrics is filtered to
/// exactly that one entry.
pub proof fn lemma_stats_dedup_single_change(cache: Map<u64, u64>, stats: Seq<RtcStat>, j: int)
    requires
        distinct_ids(stats),
        0 <= j < stats.len(),
        forall|i: int|
            0 <= i < stats.len() && i != j ==> cache.contains_key(#[trigger] stats[i].id.0)
                && cache[stats[i].id.0] == stat_hash_of(stats[i].stats@),
        stat_kept(cache, stats[j]),
    ensures
        dedup_filter(cache, stats) == seq![stats[j]],
    decreases stats.len(),
{
    let cache1 = cache.insert(stats[0].id.0, stat_hash_of(stats[0].stats@));
    if j == 0 {
        assert forall|i: int| 0 <= i < stats.skip(1).len() implies cache1.contains_key(
            #[trigger] stats.skip(1)[i].id.0,
        ) && cache1[stats.skip(1)[i].id.0] == stat_hash_of(stats.skip(1)[i].stats@) by {
            assert(stats.skip(1)[i] == stats[i + 1]);
        }
        lemma_dedup_filter_none_kept(cache1, stats.skip(1));
        assert(seq![stats[0]] + Seq::<RtcStat>::empty() =~= seq![stats[j]]);
    } else {
        assert(!stat_kept(cache, stats[0]));
        assert(cache1 =~= cache);
        assert forall|i: int| 0 <= i < stats.skip(1).len() && i != j - 1 implies cache.contains_key(
            #[trigger] stats.skip(1)[i].id.0,
        ) && cache[stats.skip(1)[i].id.0] == stat_hash_of(stats.skip(1)[i].stats@) by {
            assert(stats.skip(1)[i] == stats[i + 1]);
        }
        assert(stats.skip(1)[j - 1] == stats[j]);
        lemma_stats_dedup_single_change(cache, stats.skip(1), j - 1);
    }
}

} // verus!
