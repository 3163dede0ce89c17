//! Ordering of the report inputs: platforms ascend by platform id (this fixes
//! the playlist report's column order) and seasons ascend by season id.

use vstd::prelude::*;
use vstd::multiset::Multiset;

use crate::records::{Platform, Season};

verus! {

/// Platforms stand in ascending id order.
pub open spec fn platforms_ascending(s: Seq<Platform>) -> bool {
    forall|i: int, j: int| 0 <= i < j < s.len() ==> s[i].id <= s[j].id
}

/// Seasons stand in ascending season-id order.
pub open spec fn seasons_ascending(s: Seq<Season>) -> bool {
    forall|i: int, j: int| 0 <= i < j < s.len() ==> s[i].season_id <= s[j].season_id
}

/// Reorders the platforms into ascending id order.  The records themselves
/// are kept: the result is a permutation of the input.
pub fn sort_platforms(platforms: &mut Vec<Platform>)
    ensures
        platforms_ascending(final(platforms)@),
        final(platforms)@.to_multiset() == old(platforms)@.to_multiset(),
{
    let ghost orig = platforms@;
    let mut out: Vec<Platform> = Vec::new();
    proof {
        out@.to_multiset_ensures();
        assert(out@.to_multiset() =~= Multiset::<Platform>::empty());
        assert(out@.to_multiset().add(platforms@.to_multiset()) =~= orig.to_multiset());
    }
    while platforms.len() > 0
        invariant
            out@.to_multiset().add(platforms@.to_multiset()) =~= orig.to_multiset(),
            platforms_ascending(out@),
            forall|i: int, j: int|
                0 <= i < out@.len() && 0 <= j < platforms@.len() ==> (#[trigger] out@[i].id)
                    <= (#[trigger] platforms@[j].id),
        decreases platforms@.len(),
    {
        let n = platforms.len();
        let mut m: usize = 0;
        let mut q: usize = 1;
        while q < n
            invariant
                n == platforms@.len(),
                m < q <= n,
                forall|t: int| 0 <= t < q ==> platforms@[m as int].id <= #[trigger] platforms@[t].id,
            decreases n - q,
        {
            if platforms[q].id < platforms[m].id {
                m = q;
            }
            q = q + 1;
        }
        let ghost before = platforms@;
        let ghost out_before = out@;
        let x = platforms.remove(m);
        out.push(x);
        proof {
            before.to_multiset_ensures();
            out_before.to_multiset_ensures();
            assert(before.contains(x)) by {
                assert(before[m as int] == x);
            }
            assert(before.to_multiset().count(x) > 0);
            assert(out@.to_multiset().add(platforms@.to_multiset()) =~= orig.to_multiset());
            assert forall|i: int, j: int|
                0 <= i < out@.len() && 0 <= j < platforms@.len() implies (#[trigger] out@[i].id)
                <= (#[trigger] platforms@[j].id) by {
                assert(platforms@[j] == if j < m {
                    before[j]
                } else {
                    before[j + 1]
                });
                if i < out_before.len() {
                    assert(out@[i] == out_before[i]);
                } else {
                    assert(out@[i] == x);
                }
            }
            assert forall|i: int, j: int|
                0 <= i < j < out@.len() implies out@[i].id <= out@[j].id by {
                if j == out@.len() - 1 {
                    assert(out@[j] == x);
                    assert(out_before[i].id <= before[m as int].id);
                } else {
                    assert(out@[i] == out_before[i] && out@[j] == out_before[j]);
                }
            }
        }
    }
    proof {
        platforms@.to_multiset_ensures();
        assert(out@.to_multiset().add(platforms@.to_multiset()) =~= out@.to_multiset());
    }
    *platforms = out;
}

/// Reorders the seasons into ascending season-id order.  The records
/// themselves are kept: the result is a permutation of the input.
pub fn sort_seasons(seasons: &mut Vec<Season>)
    ensures
        seasons_ascending(final(seasons)@),
        final(seasons)@.to_multiset() == old(seasons)@.to_multiset(),
{
    let ghost orig = seasons@;
    let mut out: Vec<Season> = Vec::new();
    proof {
        out@.to_multiset_ensures();
        assert(out@.to_multiset() =~= Multiset::<Season>::empty());
        assert(out@.to_multiset().add(seasons@.to_multiset()) =~= orig.to_multiset());
    }
    while seasons.len() > 0
        invariant
            out@.to_multiset().add(seasons@.to_multiset()) =~= orig.to_multiset(),
            seasons_ascending(out@),
            forall|i: int, j: int|
                0 <= i < out@.len() && 0 <= j < seasons@.len() ==> (#[trigger] out@[i].season_id)
                    <= (#[trigger] seasons@[j].season_id),
        decreases seasons@.len(),
    {
        let n = seasons.len();
        let mut m: usize = 0;
        let mut q: usize = 1;
        while q < n
            invariant
                n == seasons@.len(),
                m < q <= n,
                forall|t: int|
                    0 <= t < q ==> seasons@[m as int].season_id
                        <= #[trigger] seasons@[t].season_id,
            decreases n - q,
        {
            if seasons[q].season_id < seasons[m].season_id {
                m = q;
            }
            q = q + 1;
        }
        let ghost before = seasons@;
        let ghost out_before = out@;
        let x = seasons.remove(m);
        out.push(x);
        proof {
            before.to_multiset_ensures();
            out_before.to_multiset_ensures();
            assert(before.contains(x)) by {
                assert(before[m as int] == x);
            }
            assert(before.to_multiset().count(x) > 0);
            assert(out@.to_multiset().add(seasons@.to_multiset()) =~= orig.to_multiset());
            assert forall|i: int, j: int|
                0 <= i < out@.len() && 0 <= j < seasons@.len() implies (#[trigger] out@[i].season_id)
                <= (#[trigger] seasons@[j].season_id) by {
                assert(seasons@[j] == if j < m {
                    before[j]
                } else {
                    before[j + 1]
                });
                if i < out_before.len() {
                    assert(out@[i] == out_before[i]);
                } else {
                    assert(out@[i] == x);
                }
            }
            assert forall|i: int, j: int|
                0 <= i < j < out@.len() implies out@[i].season_id <= out@[j].season_id by {
                if j == out@.len() - 1 {
                    assert(out@[j] == x);
                    assert(out_before[i].season_id <= before[m as int].season_id);
                } else {
                    assert(out@[i] == out_before[i] && out@[j] == out_before[j]);
                }
            }
        }
    }
    proof {
        seasons@.to_multiset_ensures();
        assert(out@.to_multiset().add(seasons@.to_multiset()) =~= out@.to_multiset());
    }
    *seasons = out;
}

} // verus!
