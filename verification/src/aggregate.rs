//! The playlist population aggregator: condenses per-platform playlist
//! population records into one aggregate per playlist id, with a per-platform
//! population breakdown, a per-id total and a grand total over every record.

use vstd::prelude::*;
use vstd::arithmetic::mul::lemma_mul_inequality;

use crate::lookup::{assoc_first, has_playlist_id, lemma_assoc_first_push, lemma_has_id_push};
use crate::records::Playlist;

verus! {

/// One aggregate row: a playlist id, the display name of the first record
/// seen for that id, the population sum over every contributing record, and
/// the first-observed population per platform.
pub struct Aggregate {
    pub id: u64,
    pub name: String,
    pub total: u64,
    pub per_platform: Vec<(u64, u32)>,
}

/// The population contributed to playlist `id` by the records in `s`: the sum
/// of the `population` values of every record carrying that id.
pub open spec fn total_for(s: Seq<Playlist>, id: u64) -> int
    decreases s.len(),
{
    if s.len() == 0 {
        0
    } else {
        total_for(s.drop_last(), id) + if s.last().id == id {
            s.last().population as int
        } else {
            0
        }
    }
}

/// The population over every record in `s`, whatever its playlist id.
pub open spec fn grand_total(s: Seq<Playlist>) -> int
    decreases s.len(),
{
    if s.len() == 0 {
        0
    } else {
        grand_total(s.drop_last()) + s.last().population
    }
}

/// The display name of the first record in `s` carrying playlist id `id`
/// (the empty sequence when no record does).
pub open spec fn first_name_for(s: Seq<Playlist>, id: u64) -> Seq<char>
    decreases s.len(),
{
    if s.len() == 0 {
        Seq::empty()
    } else if s[0].id == id {
        s[0].name@
    } else {
        first_name_for(s.drop_first(), id)
    }
}

/// The population of the first record in `s` carrying the (id, platform)
/// pair, if any record does.
pub open spec fn first_pop_for(s: Seq<Playlist>, id: u64, pid: u64) -> Option<u32>
    decreases s.len(),
{
    if s.len() == 0 {
        None
    } else if s[0].id == id && s[0].platform_id == pid {
        Some(s[0].population)
    } else {
        first_pop_for(s.drop_first(), id, pid)
    }
}

/// The sum of the per-id totals over a sequence of aggregates.
pub open spec fn sum_totals(aggs: Seq<Aggregate>) -> int
    decreases aggs.len(),
{
    if aggs.len() == 0 {
        0
    } else {
        sum_totals(aggs.drop_last()) + aggs.last().total
    }
}

/// Aggregates stand in strictly ascending playlist-id order (so ids are also
/// pairwise distinct).
pub open spec fn ids_ascending(aggs: Seq<Aggregate>) -> bool {
    forall|i: int, j: int| 0 <= i < j < aggs.len() ==> aggs[i].id < aggs[j].id
}

/// A playlist id that no record carries contributes no population.
proof fn lemma_total_for_absent(s: Seq<Playlist>, id: u64)
    requires
        !has_playlist_id(s, id),
    ensures
        total_for(s, id) == 0,
    decreases s.len(),
{
    if s.len() > 0 {
        assert(s.last().id != id) by {
            if s.last().id == id {
                assert(s[s.len() - 1].id == id);
            }
        }
        assert(!has_playlist_id(s.drop_last(), id)) by {
            if has_playlist_id(s.drop_last(), id) {
                let w = choose|w: int|
                    0 <= w < s.drop_last().len() && #[trigger] s.drop_last()[w].id == id;
                assert(s[w].id == id);
            }
        }
        lemma_total_for_absent(s.drop_last(), id);
    }
}

/// No record of an absent playlist id observes any platform population.
proof fn lemma_first_pop_absent(s: Seq<Playlist>, id: u64, pid: u64)
    requires
        !has_playlist_id(s, id),
    ensures
        first_pop_for(s, id, pid) is None,
    decreases s.len(),
{
    if s.len() > 0 {
        assert(s[0].id != id);
        assert(!has_playlist_id(s.drop_first(), id)) by {
            if has_playlist_id(s.drop_first(), id) {
                let w = choose|w: int|
                    0 <= w < s.drop_first().len() && #[trigger] s.drop_first()[w].id == id;
                assert(s[w + 1].id == id);
            }
        }
        lemma_first_pop_absent(s.drop_first(), id, pid);
    }
}

/// How the first-seen name changes when one record is appended: an id already
/// present keeps its name; a fresh id takes the appended record's name.
proof fn lemma_first_name_push(s: Seq<Playlist>, r: Playlist, id: u64)
    ensures
        first_name_for(s.push(r), id) == if has_playlist_id(s, id) {
            first_name_for(s, id)
        } else if r.id == id {
            r.name@
        } else {
            Seq::<char>::empty()
        },
    decreases s.len(),
{
    if s.len() == 0 {
        assert(s.push(r)[0] == r);
        assert(s.push(r).drop_first() =~= Seq::<Playlist>::empty());
        assert(first_name_for(Seq::<Playlist>::empty(), id) == Seq::<char>::empty());
    } else {
        assert(s.push(r)[0] == s[0]);
        assert(s.push(r).drop_first() =~= s.drop_first().push(r));
        lemma_first_name_push(s.drop_first(), r, id);
        if s[0].id != id {
            assert(first_name_for(s.push(r), id) == first_name_for(s.drop_first().push(r), id));
            assert(first_name_for(s, id) == first_name_for(s.drop_first(), id));
        }
        assert(has_playlist_id(s, id) <==> (s[0].id == id || has_playlist_id(
            s.drop_first(),
            id,
        ))) by {
            if has_playlist_id(s, id) && s[0].id != id {
                let w = choose|w: int| 0 <= w < s.len() && #[trigger] s[w].id == id;
                assert(s.drop_first()[w - 1].id == id);
            }
            if has_playlist_id(s.drop_first(), id) {
                let w = choose|w: int|
                    0 <= w < s.drop_first().len() && #[trigger] s.drop_first()[w].id == id;
                assert(s[w + 1].id == id);
            }
        }
    }
}

/// How the first-observed platform population changes when one record is
/// appended: an observed (id, platform) pair keeps its population; the
/// appended record observes its own pair if it was unobserved.
proof fn lemma_first_pop_push(s: Seq<Playlist>, r: Playlist, id: u64, pid: u64)
    ensures
        first_pop_for(s.push(r), id, pid) == if first_pop_for(s, id, pid) is Some {
            first_pop_for(s, id, pid)
        } else if r.id == id && r.platform_id == pid {
            Some(r.population)
        } else {
            None::<u32>
        },
    decreases s.len(),
{
    if s.len() == 0 {
        assert(s.push(r)[0] == r);
        assert(s.push(r).drop_first() =~= Seq::<Playlist>::empty());
        assert(first_pop_for(Seq::<Playlist>::empty(), id, pid) is None);
    } else {
        assert(s.push(r)[0] == s[0]);
        assert(s.push(r).drop_first() =~= s.drop_first().push(r));
        lemma_first_pop_push(s.drop_first(), r, id, pid);
    }
}

/// Replacing one aggregate changes the sum of totals by the difference of the
/// two totals.
proof fn lemma_sum_totals_update(aggs: Seq<Aggregate>, j: int, a: Aggregate)
    requires
        0 <= j < aggs.len(),
    ensures
        sum_totals(aggs.update(j, a)) == sum_totals(aggs) - aggs[j].total + a.total,
    decreases aggs.len(),
{
    let upd = aggs.update(j, a);
    if j == aggs.len() - 1 {
        assert(upd.drop_last() =~= aggs.drop_last());
        assert(upd.last() == a);
    } else {
        assert(upd.drop_last() =~= aggs.drop_last().update(j, a));
        assert(upd.last() == aggs.last());
        lemma_sum_totals_update(aggs.drop_last(), j, a);
    }
}

/// Inserting an aggregate adds its total to the sum of totals.
proof fn lemma_sum_totals_insert(aggs: Seq<Aggregate>, j: int, a: Aggregate)
    requires
        0 <= j <= aggs.len(),
    ensures
        sum_totals(aggs.insert(j, a)) == sum_totals(aggs) + a.total,
    decreases aggs.len(),
{
    let ins = aggs.insert(j, a);
    aggs.insert_ensures(j, a);
    if j == aggs.len() {
        assert(ins.drop_last() =~= aggs);
        assert(ins.last() == a);
    } else {
        assert(ins.drop_last() =~= aggs.drop_last().insert(j, a)) by {
            aggs.drop_last().insert_ensures(j, a);
        }
        assert(ins.last() == aggs.last());
        lemma_sum_totals_insert(aggs.drop_last(), j, a);
    }
}

/// Every aggregate's total is bounded by the sum of totals.
proof fn lemma_total_le_sum(aggs: Seq<Aggregate>, j: int)
    requires
        0 <= j < aggs.len(),
    ensures
        aggs[j].total <= sum_totals(aggs),
        sum_totals(aggs) >= 0,
    decreases aggs.len(),
{
    if j == aggs.len() - 1 {
        lemma_sum_nonneg(aggs.drop_last());
    } else {
        assert(aggs.drop_last()[j] == aggs[j]);
        lemma_total_le_sum(aggs.drop_last(), j);
    }
}

/// A sum of (unsigned) totals is never negative.
proof fn lemma_sum_nonneg(aggs: Seq<Aggregate>)
    ensures
        sum_totals(aggs) >= 0,
    decreases aggs.len(),
{
    if aggs.len() > 0 {
        lemma_sum_nonneg(aggs.drop_last());
    }
}

/// The population over `s` is bounded by one maximal record population per
/// record.
proof fn lemma_grand_total_bound(s: Seq<Playlist>)
    ensures
        0 <= grand_total(s) <= s.len() * 0xffff_ffff,
    decreases s.len(),
{
    if s.len() > 0 {
        lemma_grand_total_bound(s.drop_last());
        assert((s.len() - 1) * 0xffff_ffff + 0xffff_ffff == s.len() * 0xffff_ffff) by (nonlinear_arith);
    }
}

/// The first-observed population recorded under platform `pid`, if any.
pub(crate) fn pop_lookup(pp: &Vec<(u64, u32)>, pid: u64) -> (r: Option<u32>)
    ensures
        r == assoc_first(pp@, pid),
{
    let n = pp.len();
    proof {
        assert(pp@.skip(0) =~= pp@);
    }
    let mut i: usize = 0;
    while i < n
        invariant
            i <= n,
            n == pp@.len(),
            assoc_first(pp@, pid) == assoc_first(pp@.skip(i as int), pid),
        decreases n - i,
    {
        proof {
            assert(pp@.skip(i as int)[0] == pp@[i as int]);
            assert(pp@.skip(i as int).drop_first() =~= pp@.skip(i + 1 as int));
        }
        if pp[i].0 == pid {
            return Some(pp[i].1);
        }
        i = i + 1;
    }
    proof {
        assert(pp@.skip(n as int) =~= Seq::<(u64, u32)>::empty());
    }
    None
}

/// In an id-ascending aggregate sequence, either the position already holding
/// `id`, or the position where an aggregate for `id` belongs.
fn find_slot(aggs: &Vec<Aggregate>, id: u64) -> (r: Result<usize, usize>)
    requires
        ids_ascending(aggs@),
    ensures
        match r {
            Ok(j) => 0 <= j < aggs@.len() && aggs@[j as int].id == id,
            Err(j) => j <= aggs@.len() && (forall|m: int|
                0 <= m < j ==> aggs@[m].id < id) && (forall|m: int|
                j <= m < aggs@.len() ==> aggs@[m].id > id),
        },
{
    let n = aggs.len();
    let mut i: usize = 0;
    while i < n
        invariant
            i <= n,
            n == aggs@.len(),
            ids_ascending(aggs@),
            forall|m: int| 0 <= m < i ==> aggs@[m].id < id,
        decreases n - i,
    {
        let cur = aggs[i].id;
        if cur == id {
            return Ok(i);
        }
        if cur > id {
            return Err(i);
        }
        i = i + 1;
    }
    Err(n)
}

/// Condenses the playlist records into one aggregate per playlist id, in
/// ascending id order, and returns the grand population total beside them.
///
/// Every aggregate is created by a contributing record, keeps the first-seen
/// name for its id, sums the population of every record of its id into
/// `total`, and records under each platform the population of the first
/// record seen for that (id, platform) pair.  The grand total sums every
/// record's population and equals the sum of the per-id totals.
#[verifier::rlimit(100)]
pub fn aggregate_playlists(records: &Vec<Playlist>) -> (res: (u64, Vec<Aggregate>))
    requires
        records@.len() < 0x1_0000_0000,
    ensures
        res.0 == grand_total(records@),
        res.0 == sum_totals(res.1@),
        ids_ascending(res.1@),
        forall|j: int|
            0 <= j < res.1@.len() ==> has_playlist_id(records@, #[trigger] res.1@[j].id),
        forall|id: u64|
            #[trigger] has_playlist_id(records@, id) ==> exists|j: int|
                0 <= j < res.1@.len() && #[trigger] res.1@[j].id == id,
        forall|j: int|
            0 <= j < res.1@.len() ==> (#[trigger] res.1@[j]).total == total_for(
                records@,
                res.1@[j].id,
            ),
        forall|j: int|
            0 <= j < res.1@.len() ==> (#[trigger] res.1@[j]).name@ == first_name_for(
                records@,
                res.1@[j].id,
            ),
        forall|j: int, pid: u64|
            0 <= j < res.1@.len() ==> #[trigger] assoc_first(res.1@[j].per_platform@, pid)
                == first_pop_for(records@, res.1@[j].id, pid),
{
    let mut aggs: Vec<Aggregate> = Vec::new();
    let mut grand: u64 = 0;
    let n = records.len();
    let mut i: usize = 0;
    while i < n
        invariant
            i <= n,
            n == records@.len(),
            n < 0x1_0000_0000,
            grand == grand_total(records@.take(i as int)),
            sum_totals(aggs@) == grand_total(records@.take(i as int)),
            ids_ascending(aggs@),
            forall|j: int|
                0 <= j < aggs@.len() ==> has_playlist_id(
                    records@.take(i as int),
                    #[trigger] aggs@[j].id,
                ),
            forall|id: u64|
                #[trigger] has_playlist_id(records@.take(i as int), id) ==> exists|j: int|
                    0 <= j < aggs@.len() && #[trigger] aggs@[j].id == id,
            forall|j: int|
                0 <= j < aggs@.len() ==> (#[trigger] aggs@[j]).total == total_for(
                    records@.take(i as int),
                    aggs@[j].id,
                ),
            forall|j: int|
                0 <= j < aggs@.len() ==> (#[trigger] aggs@[j]).name@ == first_name_for(
                    records@.take(i as int),
                    aggs@[j].id,
                ),
            forall|j: int, pid: u64|
                0 <= j < aggs@.len() ==> #[trigger] assoc_first(aggs@[j].per_platform@, pid)
                    == first_pop_for(records@.take(i as int), aggs@[j].id, pid),
        decreases n - i,
    {
        let ghost prefix = records@.take(i as int);
        let ghost rec = records@[i as int];
        let r = &records[i];
        proof {
            assert(records@.take(i + 1 as int) =~= prefix.push(rec));
            assert(records@.take(i + 1 as int).drop_last() =~= prefix);
            lemma_grand_total_bound(prefix);
            lemma_mul_inequality(prefix.len() as int, 0xffff_ffff as int, 0xffff_ffff as int);
        }
        grand = grand + (r.population as u64);
        let slot = find_slot(&aggs, r.id);
        let ghost old_aggs = aggs@;
        match slot {
            Ok(j) => {
                let mut entry = aggs.remove(j);
                proof {
                    lemma_total_le_sum(old_aggs, j as int);
                }
                entry.total = entry.total + (r.population as u64);
                let ghost pp_before = entry.per_platform@;
                let seen = pop_lookup(&entry.per_platform, r.platform_id);
                proof {
                    assert(pp_before == old_aggs[j as int].per_platform@);
                    assert(seen == first_pop_for(prefix, rec.id, rec.platform_id));
                }
                if seen.is_none() {
                    entry.per_platform.push((r.platform_id, r.population));
                    proof {
                        assert(entry.per_platform@ == pp_before.push(
                            (rec.platform_id, rec.population),
                        ));
                    }
                }
                let ghost new_pp = entry.per_platform@;
                let ghost seen_g = seen;
                aggs.insert(j, entry);
                proof {
                    assert(aggs@ =~= old_aggs.update(j as int, aggs@[j as int]));
                    let entry_v = aggs@[j as int];
                    lemma_sum_totals_update(old_aggs, j as int, entry_v);
                    assert forall|a: int, b: int| 0 <= a < b < aggs@.len() implies
                        aggs@[a].id < aggs@[b].id by {
                        assert(old_aggs[a].id < old_aggs[b].id);
                    }
                    assert forall|j2: int| 0 <= j2 < aggs@.len() implies has_playlist_id(
                        records@.take(i + 1 as int),
                        #[trigger] aggs@[j2].id,
                    ) by {
                        lemma_has_id_push(prefix, rec, aggs@[j2].id);
                    }
                    assert forall|id: u64| #[trigger]
                        has_playlist_id(records@.take(i + 1 as int), id) implies exists|j2: int|
                        0 <= j2 < aggs@.len() && #[trigger] aggs@[j2].id == id by {
                        lemma_has_id_push(prefix, rec, id);
                        if has_playlist_id(prefix, id) {
                            let w = choose|w: int|
                                0 <= w < old_aggs.len() && #[trigger] old_aggs[w].id == id;
                            assert(aggs@[w].id == id);
                        } else {
                            assert(aggs@[j as int].id == id);
                        }
                    }
                    assert forall|j2: int| 0 <= j2 < aggs@.len() implies (#[trigger] aggs@[j2]).total
                        == total_for(records@.take(i + 1 as int), aggs@[j2].id) by {
                        if j2 != j {
                            assert(old_aggs[j2].id != rec.id) by {
                                if j2 < j {
                                    assert(old_aggs[j2].id < old_aggs[j as int].id);
                                } else {
                                    assert(old_aggs[j as int].id < old_aggs[j2].id);
                                }
                            }
                        }
                    }
                    assert forall|j2: int| 0 <= j2 < aggs@.len() implies (#[trigger] aggs@[j2]).name@
                        == first_name_for(records@.take(i + 1 as int), aggs@[j2].id) by {
                        lemma_first_name_push(prefix, rec, aggs@[j2].id);
                    }
                    assert forall|j2: int, pid: u64| 0 <= j2 < aggs@.len() implies #[trigger]
                        assoc_first(aggs@[j2].per_platform@, pid) == first_pop_for(
                        records@.take(i + 1 as int),
                        aggs@[j2].id,
                        pid,
                    ) by {
                        lemma_first_pop_push(prefix, rec, aggs@[j2].id, pid);
                        if j2 == j {
                            assert(aggs@[j as int].per_platform@ == new_pp);
                            assert(assoc_first(old_aggs[j as int].per_platform@, pid)
                                == first_pop_for(prefix, rec.id, pid));
                            if seen_g is None {
                                assert(new_pp == old_aggs[j as int].per_platform@.push(
                                    (rec.platform_id, rec.population),
                                ));
                                lemma_assoc_first_push(
                                    old_aggs[j as int].per_platform@,
                                    pid,
                                    (rec.platform_id, rec.population),
                                );
                            } else {
                                assert(new_pp == old_aggs[j as int].per_platform@);
                                assert(first_pop_for(prefix, rec.id, rec.platform_id) is Some);
                            }
                        } else {
                            assert(old_aggs[j2].id != rec.id) by {
                                if j2 < j {
                                    assert(old_aggs[j2].id < old_aggs[j as int].id);
                                } else {
                                    assert(old_aggs[j as int].id < old_aggs[j2].id);
                                }
                            }
                        }
                    }
                }
            },
            Err(j) => {
                let mut pp: Vec<(u64, u32)> = Vec::new();
                pp.push((r.platform_id, r.population));
                let entry = Aggregate {
                    id: r.id,
                    name: r.name.clone(),
                    total: r.population as u64,
                    per_platform: pp,
                };
                aggs.insert(j, entry);
                proof {
                    assert(aggs@ =~= old_aggs.insert(j as int, aggs@[j as int]));
                    let entry_v = aggs@[j as int];
                    old_aggs.insert_ensures(j as int, entry_v);
                    lemma_sum_totals_insert(old_aggs, j as int, entry_v);
                    assert(!has_playlist_id(prefix, rec.id)) by {
                        if has_playlist_id(prefix, rec.id) {
                            let w = choose|w: int|
                                0 <= w < old_aggs.len() && #[trigger] old_aggs[w].id == rec.id;
                        }
                    }
                    lemma_total_for_absent(prefix, rec.id);
                    assert forall|a: int, b: int| 0 <= a < b < aggs@.len() implies
                        aggs@[a].id < aggs@[b].id by {
                        if a < j && b == j {
                            assert(aggs@[a] == old_aggs[a]);
                        } else if a == j && b > j {
                            assert(aggs@[b] == old_aggs[b - 1]);
                        } else if b < j {
                            assert(aggs@[a] == old_aggs[a] && aggs@[b] == old_aggs[b]);
                        } else if a > j {
                            assert(aggs@[a] == old_aggs[a - 1] && aggs@[b] == old_aggs[b - 1]);
                        } else {
                            assert(aggs@[a] == old_aggs[a] && aggs@[b] == old_aggs[b - 1]);
                        }
                    }
                    assert forall|j2: int| 0 <= j2 < aggs@.len() implies has_playlist_id(
                        records@.take(i + 1 as int),
                        #[trigger] aggs@[j2].id,
                    ) by {
                        lemma_has_id_push(prefix, rec, aggs@[j2].id);
                        if j2 < j {
                            assert(aggs@[j2] == old_aggs[j2]);
                        } else if j2 > j {
                            assert(aggs@[j2] == old_aggs[j2 - 1]);
                        }
                    }
                    assert forall|id: u64| #[trigger]
                        has_playlist_id(records@.take(i + 1 as int), id) implies exists|j2: int|
                        0 <= j2 < aggs@.len() && #[trigger] aggs@[j2].id == id by {
                        lemma_has_id_push(prefix, rec, id);
                        if has_playlist_id(prefix, id) {
                            let w = choose|w: int|
                                0 <= w < old_aggs.len() && #[trigger] old_aggs[w].id == id;
                            if w < j {
                                assert(aggs@[w].id == id);
                            } else {
                                assert(aggs@[w + 1].id == id);
                            }
                        } else {
                            assert(aggs@[j as int].id == id);
                        }
                    }
                    assert forall|j2: int| 0 <= j2 < aggs@.len() implies (#[trigger] aggs@[j2]).total
                        == total_for(records@.take(i + 1 as int), aggs@[j2].id) by {
                        if j2 < j {
                            assert(aggs@[j2] == old_aggs[j2]);
                            assert(old_aggs[j2].id < rec.id);
                        } else if j2 > j {
                            assert(aggs@[j2] == old_aggs[j2 - 1]);
                            assert(old_aggs[j2 - 1].id > rec.id);
                        }
                    }
                    assert forall|j2: int| 0 <= j2 < aggs@.len() implies (#[trigger] aggs@[j2]).name@
                        == first_name_for(records@.take(i + 1 as int), aggs@[j2].id) by {
                        lemma_first_name_push(prefix, rec, aggs@[j2].id);
                        if j2 < j {
                            assert(aggs@[j2] == old_aggs[j2]);
                        } else if j2 > j {
                            assert(aggs@[j2] == old_aggs[j2 - 1]);
                        }
                    }
                    assert forall|j2: int, pid: u64| 0 <= j2 < aggs@.len() implies #[trigger]
                        assoc_first(aggs@[j2].per_platform@, pid) == first_pop_for(
                        records@.take(i + 1 as int),
                        aggs@[j2].id,
                        pid,
                    ) by {
                        lemma_first_pop_push(prefix, rec, aggs@[j2].id, pid);
                        if j2 == j {
                            lemma_first_pop_absent(prefix, rec.id, pid);
                            assert(aggs@[j2].id == rec.id);
                            assert(entry_v.per_platform@.len() == 1);
                            assert(entry_v.per_platform@[0] == (rec.platform_id, rec.population));
                            assert(entry_v.per_platform@.drop_first() =~= Seq::<(u64, u32)>::empty());
                            assert(assoc_first(Seq::<(u64, u32)>::empty(), pid) is None);
                            if rec.platform_id == pid {
                                assert(assoc_first(entry_v.per_platform@, pid) == Some(rec.population));
                            } else {
                                assert(assoc_first(entry_v.per_platform@, pid) is None);
                            }
                        } else if j2 < j {
                            assert(aggs@[j2] == old_aggs[j2]);
                            assert(old_aggs[j2].id < rec.id);
                        } else {
                            assert(aggs@[j2] == old_aggs[j2 - 1]);
                            assert(old_aggs[j2 - 1].id > rec.id);
                        }
                    }
                }
            },
        }
        i = i + 1;
    }
    proof {
        assert(records@.take(n as int) =~= records@);
    }
    (grand, aggs)
}




} // verus!
