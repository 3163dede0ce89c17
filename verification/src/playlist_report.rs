//! The playlist population report: the table rows built from the aggregates,
//! with one column per platform, a per-id total column and a trailing
//! grand-total summary row.

use vstd::prelude::*;
use vstd::string::StringExecFns;

use crate::aggregate::{pop_lookup, Aggregate, first_pop_for};
use crate::lookup::assoc_first;
use crate::records::{Platform, Playlist};
use crate::rows::{Cell, CellV, Row};

verus! {

/// The cell shown for platform `p` in the row of aggregate `a`: the
/// first-observed population, or `"N/A"` when the platform never contributed
/// to this playlist id.
pub open spec fn platform_cell_view(a: Aggregate, p: Platform) -> CellV {
    match assoc_first(a.per_platform@, p.id) {
        Some(pop) => CellV::Num(pop as int),
        None => CellV::Text("N/A"@),
    }
}

/// One aggregate's report row: id, name, one cell per platform in the given
/// column order, and the per-id total.
pub open spec fn aggregate_row_view(platforms: Seq<Platform>, a: Aggregate) -> Seq<CellV> {
    seq![CellV::Num(a.id as int), CellV::Text(a.name@)] + Seq::new(
        platforms.len(),
        |j: int| platform_cell_view(a, platforms[j]),
    ) + seq![CellV::Num(a.total as int)]
}

/// The trailing summary row: blank in every column but the last, which shows
/// the grand total.
pub open spec fn summary_row_view(nplatforms: int, grand: int) -> Seq<CellV> {
    Seq::new((nplatforms + 2) as nat, |j: int| CellV::Text(""@)).push(CellV::Num(grand))
}

/// The title row of the playlist report: fixed id and name columns, one
/// column per platform, and the totals column.
pub open spec fn playlist_titles_view(platforms: Seq<Platform>) -> Seq<CellV> {
    seq![CellV::Text("ID"@), CellV::Text("Playlist"@)] + Seq::new(
        platforms.len(),
        |j: int| CellV::Text(platforms[j].name@),
    ) + seq![CellV::Text("Totals"@)]
}

/// Builds the report row of one aggregate.
fn aggregate_row(platforms: &Vec<Platform>, a: &Aggregate) -> (row: Row)
    ensures
        row@ == aggregate_row_view(platforms@, *a),
        !row.emphasis,
{
    let mut cells: Vec<Cell> = Vec::new();
    cells.push(Cell::Num(a.id));
    cells.push(Cell::Text(a.name.clone()));
    let np = platforms.len();
    let mut j: usize = 0;
    while j < np
        invariant
            j <= np,
            np == platforms@.len(),
            cells@.len() == 2 + j,
            cells@[0]@ == CellV::Num(a.id as int),
            cells@[1]@ == CellV::Text(a.name@),
            forall|k: int|
                2 <= k < 2 + j ==> (#[trigger] cells@[k])@ == platform_cell_view(
                    *a,
                    platforms@[k - 2],
                ),
        decreases np - j,
    {
        match pop_lookup(&a.per_platform, platforms[j].id) {
            Some(pop) => cells.push(Cell::Num(pop as u64)),
            None => cells.push(Cell::Text(String::from_str("N/A"))),
        }
        j = j + 1;
    }
    cells.push(Cell::Num(a.total));
    let row = Row { cells, emphasis: false };
    proof {
        let view = aggregate_row_view(platforms@, *a);
        assert forall|k: int| 0 <= k < row@.len() implies row@[k] == view[k] by {
            assert(row@[k] == cells@[k]@);
            if 2 <= k < 2 + np {
                assert(view[k] == platform_cell_view(*a, platforms@[k - 2]));
            }
        }
        assert(row@ =~= view);
    }
    row
}

/// Builds the trailing grand-total summary row.
fn playlist_summary_row(nplatforms: usize, grand: u64) -> (row: Row)
    ensures
        row@ == summary_row_view(nplatforms as int, grand as int),
        row.emphasis,
{
    proof {
        reveal_strlit("");
        assert(""@ =~= Seq::<char>::empty());
    }
    let mut cells: Vec<Cell> = Vec::new();
    let mut j: usize = 0;
    while j < nplatforms
        invariant
            j <= nplatforms,
            cells@.len() == j,
            ""@ == Seq::<char>::empty(),
            forall|k: int| 0 <= k < j ==> (#[trigger] cells@[k])@ == CellV::Text(""@),
        decreases nplatforms - j,
    {
        cells.push(Cell::Text(String::new()));
        j = j + 1;
    }
    cells.push(Cell::Text(String::new()));
    cells.push(Cell::Text(String::new()));
    cells.push(Cell::Num(grand));
    let row = Row { cells, emphasis: true };
    proof {
        let view = summary_row_view(nplatforms as int, grand as int);
        assert forall|k: int| 0 <= k < row@.len() implies row@[k] == view[k] by {
            assert(row@[k] == cells@[k]@);
        }
        assert(row@ =~= view);
    }
    row
}

/// Builds the title row of the playlist report over the given platform
/// column order.
pub fn playlist_titles(platforms: &Vec<Platform>) -> (row: Row)
    ensures
        row@ == playlist_titles_view(platforms@),
        row.emphasis,
{
    let mut cells: Vec<Cell> = Vec::new();
    cells.push(Cell::Text(String::from_str("ID")));
    cells.push(Cell::Text(String::from_str("Playlist")));
    let np = platforms.len();
    let mut j: usize = 0;
    while j < np
        invariant
            j <= np,
            np == platforms@.len(),
            cells@.len() == 2 + j,
            cells@[0]@ == CellV::Text("ID"@),
            cells@[1]@ == CellV::Text("Playlist"@),
            forall|k: int|
                2 <= k < 2 + j ==> (#[trigger] cells@[k])@ == CellV::Text(
                    platforms@[k - 2].name@,
                ),
        decreases np - j,
    {
        cells.push(Cell::Text(platforms[j].name.clone()));
        j = j + 1;
    }
    cells.push(Cell::Text(String::from_str("Totals")));
    let row = Row { cells, emphasis: true };
    proof {
        let view = playlist_titles_view(platforms@);
        assert forall|k: int| 0 <= k < row@.len() implies row@[k] == view[k] by {
            assert(row@[k] == cells@[k]@);
            if 2 <= k < 2 + np {
                assert(view[k] == CellV::Text(platforms@[k - 2].name@));
            }
        }
        assert(row@ =~= view);
    }
    row
}

/// Builds the playlist report body: one row per aggregate, in the given
/// order, followed by the grand-total summary row.
pub fn playlist_rows(platforms: &Vec<Platform>, aggs: &Vec<Aggregate>, grand: u64) -> (rows: Vec<
    Row,
>)
    ensures
        rows@.len() == aggs@.len() + 1,
        forall|i: int|
            0 <= i < aggs@.len() ==> (#[trigger] rows@[i])@ == aggregate_row_view(
                platforms@,
                aggs@[i],
            ) && !rows@[i].emphasis,
        rows@[aggs@.len() as int]@ == summary_row_view(platforms@.len() as int, grand as int),
        rows@[aggs@.len() as int].emphasis,
{
    let mut rows: Vec<Row> = Vec::new();
    let na = aggs.len();
    let mut i: usize = 0;
    while i < na
        invariant
            i <= na,
            na == aggs@.len(),
            rows@.len() == i,
            forall|k: int|
                0 <= k < i ==> (#[trigger] rows@[k])@ == aggregate_row_view(
                    platforms@,
                    aggs@[k],
                ) && !rows@[k].emphasis,
        decreases na - i,
    {
        let row = aggregate_row(platforms, &aggs[i]);
        rows.push(row);
        i = i + 1;
    }
    let summary = playlist_summary_row(platforms.len(), grand);
    rows.push(summary);
    rows
}

/// No record pairs this aggregate's id with the given platform.
proof fn lemma_first_pop_no_pair(s: Seq<Playlist>, id: u64, pid: u64)
    requires
        forall|i: int|
            0 <= i < s.len() ==> !((#[trigger] s[i]).id == id && s[i].platform_id == pid),
    ensures
        first_pop_for(s, id, pid) is None,
    decreases s.len(),
{
    if s.len() > 0 {
        assert(!(s[0].id == id && s[0].platform_id == pid));
        assert forall|i: int|
            0 <= i < s.drop_first().len() implies !((#[trigger] s.drop_first()[i]).id == id
            && s.drop_first()[i].platform_id == pid) by {
            assert(s.drop_first()[i] == s[i + 1]);
        }
        lemma_first_pop_no_pair(s.drop_first(), id, pid);
    }
}

/// Law: a platform with no contributing record for a playlist id shows the
/// `"N/A"` cell in its column of that id's aggregate row.  The aggregate is
/// characterised by the platform-map clause of `aggregate_playlists`.
pub proof fn lemma_absent_platform_shows_na(
    records: Seq<Playlist>,
    platforms: Seq<Platform>,
    a: Aggregate,
    j: int,
)
    requires
        0 <= j < platforms.len(),
        forall|pid: u64|
            #[trigger] assoc_first(a.per_platform@, pid) == first_pop_for(records, a.id, pid),
        forall|i: int|
            0 <= i < records.len() ==> !((#[trigger] records[i]).id == a.id
                && records[i].platform_id == platforms[j].id),
    ensures
        aggregate_row_view(platforms, a)[2 + j] == CellV::Text("N/A"@),
{
    lemma_first_pop_no_pair(records, a.id, platforms[j].id);
    assert(assoc_first(a.per_platform@, platforms[j].id) is None);
    assert(platform_cell_view(a, platforms[j]) == CellV::Text("N/A"@));
    assert(aggregate_row_view(platforms, a)[2 + j] == Seq::new(
        platforms.len(),
        |k: int| platform_cell_view(a, platforms[k]),
    )[j]);
}

} // verus!
