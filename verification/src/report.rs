//! The player report composer: turns one player snapshot and the playlist
//! name index into four independent report sections, each an ordered sequence
//! of rows.  Absent optional statistics show as 0 and unresolved playlist
//! names as `"Unknown"`; neither is an error.

use vstd::prelude::*;
use vstd::string::StringExecFns;

use crate::dates::{date_in_range, date_string, utc_date_label};
use crate::lookup::{resolved_name, NameIndex};
use crate::records::{Player, RankInfo, SeasonRanks};
use crate::rows::{Cell, CellV, Row};

verus! {

/// The displayed value of an optional statistic: 0 when absent.
pub open spec fn or_zero(v: Option<u64>) -> int {
    match v {
        Some(x) => x as int,
        None => 0,
    }
}

fn unwrap_or_zero(v: &Option<u64>) -> (r: u64)
    ensures
        r as int == or_zero(*v),
{
    match v {
        Some(x) => *x,
        None => 0,
    }
}

/// The identity section: display name, unique id, platform name and profile
/// URL, as four label/value rows.
pub open spec fn identity_section_view(p: Player) -> Seq<Seq<CellV>> {
    seq![
        seq![CellV::Text("Display Name"@), CellV::Text(p.display_name@)],
        seq![CellV::Text("UniqueID"@), CellV::Text(p.unique_id@)],
        seq![CellV::Text("Platform"@), CellV::Text(p.platform.name@)],
        seq![CellV::Text("Profile URL"@), CellV::Text(p.profile_url@)],
    ]
}

/// The timestamp section: a header row of the four timestamp labels, then
/// one row with each timestamp rendered as a calendar date.
pub open spec fn timestamp_section_view(p: Player) -> Seq<Seq<CellV>> {
    seq![
        seq![
            CellV::Text("Requested"@),
            CellV::Text("Created"@),
            CellV::Text("Updated"@),
            CellV::Text("Next Update"@),
        ],
        seq![
            CellV::Text(utc_date_label(p.last_requested as int)),
            CellV::Text(utc_date_label(p.created_at as int)),
            CellV::Text(utc_date_label(p.updated_at as int)),
            CellV::Text(utc_date_label(p.next_update_at as int)),
        ],
    ]
}

/// The statistics section: a header row, then the six fixed statistics.
pub open spec fn stats_section_view(p: Player) -> Seq<Seq<CellV>> {
    seq![
        seq![CellV::Text("Statistics"@)],
        seq![CellV::Text("Wins"@), CellV::Num(p.stats.wins as int)],
        seq![CellV::Text("Goals"@), CellV::Num(p.stats.goals as int)],
        seq![CellV::Text("MVPs"@), CellV::Num(p.stats.mvps as int)],
        seq![CellV::Text("Saves"@), CellV::Num(p.stats.saves as int)],
        seq![CellV::Text("Shots"@), CellV::Num(p.stats.shots as int)],
        seq![CellV::Text("Assists"@), CellV::Num(p.stats.assists as int)],
    ]
}

/// One ranked-season row: the season label (blank after the first row of a
/// season's block), the resolved playlist name, and the four progress values
/// with 0 for whatever is absent.
pub open spec fn rank_row_view(
    label: Seq<char>,
    pid: u64,
    info: RankInfo,
    ix: Seq<(u64, String)>,
) -> Seq<CellV> {
    seq![
        CellV::Text(label),
        CellV::Text(resolved_name(ix, pid)),
        CellV::Num(or_zero(info.rank_points)),
        CellV::Num(or_zero(info.matches_played)),
        CellV::Num(or_zero(info.tier)),
        CellV::Num(or_zero(info.division)),
    ]
}

/// One season's block of rows: its entries in source order, the season label
/// shown only on the block's first row.
pub open spec fn season_block_view(s: SeasonRanks, ix: Seq<(u64, String)>) -> Seq<Seq<CellV>> {
    Seq::new(
        s.entries@.len(),
        |k: int|
            rank_row_view(
                if k == 0 {
                    s.label@
                } else {
                    ""@
                },
                s.entries@[k].0,
                s.entries@[k].1,
                ix,
            ),
    )
}

/// The ranked-season section: every season's block, in source order.
pub open spec fn season_section_view(
    seasons: Seq<SeasonRanks>,
    ix: Seq<(u64, String)>,
) -> Seq<Seq<CellV>>
    decreases seasons.len(),
{
    if seasons.len() == 0 {
        Seq::empty()
    } else {
        season_section_view(seasons.drop_last(), ix) + season_block_view(seasons.last(), ix)
    }
}

/// The title row of the ranked-season table.
pub open spec fn season_titles_view() -> Seq<CellV> {
    seq![
        CellV::Text("Season"@),
        CellV::Text("Playlist"@),
        CellV::Text("Points"@),
        CellV::Text("Played"@),
        CellV::Text("Tier"@),
        CellV::Text("Division"@),
    ]
}

/// A plain two-cell row.
fn row2(a: Cell, b: Cell) -> (r: Row)
    ensures
        r@ == seq![a@, b@],
        !r.emphasis,
{
    let ghost av = a@;
    let ghost bv = b@;
    let mut cells: Vec<Cell> = Vec::new();
    cells.push(a);
    cells.push(b);
    let r = Row { cells, emphasis: false };
    proof {
        assert(r@ =~= seq![av, bv]);
    }
    r
}

/// Builds the identity section.
pub fn identity_rows(p: &Player) -> (rows: Vec<Row>)
    ensures
        rows@.len() == identity_section_view(*p).len(),
        forall|i: int|
            0 <= i < rows@.len() ==> (#[trigger] rows@[i])@ == identity_section_view(*p)[i]
                && !rows@[i].emphasis,
{
    let mut rows: Vec<Row> = Vec::new();
    rows.push(
        row2(
            Cell::Text(String::from_str("Display Name")),
            Cell::Text(p.display_name.clone()),
        ),
    );
    rows.push(row2(Cell::Text(String::from_str("UniqueID")), Cell::Text(p.unique_id.clone())));
    rows.push(
        row2(Cell::Text(String::from_str("Platform")), Cell::Text(p.platform.name.clone())),
    );
    rows.push(
        row2(Cell::Text(String::from_str("Profile URL")), Cell::Text(p.profile_url.clone())),
    );
    rows
}

/// Builds the timestamp section; every timestamp must lie in the renderable
/// date range.
pub fn timestamp_rows(p: &Player) -> (rows: Vec<Row>)
    requires
        date_in_range(p.last_requested),
        date_in_range(p.created_at),
        date_in_range(p.updated_at),
        date_in_range(p.next_update_at),
    ensures
        rows@.len() == timestamp_section_view(*p).len(),
        forall|i: int|
            0 <= i < rows@.len() ==> (#[trigger] rows@[i])@ == timestamp_section_view(*p)[i],
        rows@[0].emphasis,
        !rows@[1].emphasis,
{
    let mut header: Vec<Cell> = Vec::new();
    header.push(Cell::Text(String::from_str("Requested")));
    header.push(Cell::Text(String::from_str("Created")));
    header.push(Cell::Text(String::from_str("Updated")));
    header.push(Cell::Text(String::from_str("Next Update")));
    let hrow = Row { cells: header, emphasis: true };
    let mut dates: Vec<Cell> = Vec::new();
    dates.push(Cell::Text(date_string(p.last_requested)));
    dates.push(Cell::Text(date_string(p.created_at)));
    dates.push(Cell::Text(date_string(p.updated_at)));
    dates.push(Cell::Text(date_string(p.next_update_at)));
    let drow = Row { cells: dates, emphasis: false };
    proof {
        assert(hrow@ =~= timestamp_section_view(*p)[0]);
        assert(drow@ =~= timestamp_section_view(*p)[1]);
    }
    let mut rows: Vec<Row> = Vec::new();
    rows.push(hrow);
    rows.push(drow);
    rows
}

/// Builds the statistics section.
pub fn stats_rows(p: &Player) -> (rows: Vec<Row>)
    ensures
        rows@.len() == stats_section_view(*p).len(),
        forall|i: int|
            0 <= i < rows@.len() ==> (#[trigger] rows@[i])@ == stats_section_view(*p)[i],
        rows@[0].emphasis,
        forall|i: int| 1 <= i < rows@.len() ==> !(#[trigger] rows@[i]).emphasis,
{
    let mut header: Vec<Cell> = Vec::new();
    header.push(Cell::Text(String::from_str("Statistics")));
    let hrow = Row { cells: header, emphasis: true };
    proof {
        assert(hrow@ =~= stats_section_view(*p)[0]);
    }
    let mut rows: Vec<Row> = Vec::new();
    rows.push(hrow);
    rows.push(row2(Cell::Text(String::from_str("Wins")), Cell::Num(p.stats.wins)));
    rows.push(row2(Cell::Text(String::from_str("Goals")), Cell::Num(p.stats.goals)));
    rows.push(row2(Cell::Text(String::from_str("MVPs")), Cell::Num(p.stats.mvps)));
    rows.push(row2(Cell::Text(String::from_str("Saves")), Cell::Num(p.stats.saves)));
    rows.push(row2(Cell::Text(String::from_str("Shots")), Cell::Num(p.stats.shots)));
    rows.push(row2(Cell::Text(String::from_str("Assists")), Cell::Num(p.stats.assists)));
    rows
}

/// Builds the title row of the ranked-season table.
pub fn season_titles() -> (row: Row)
    ensures
        row@ == season_titles_view(),
        row.emphasis,
{
    let mut cells: Vec<Cell> = Vec::new();
    cells.push(Cell::Text(String::from_str("Season")));
    cells.push(Cell::Text(String::from_str("Playlist")));
    cells.push(Cell::Text(String::from_str("Points")));
    cells.push(Cell::Text(String::from_str("Played")));
    cells.push(Cell::Text(String::from_str("Tier")));
    cells.push(Cell::Text(String::from_str("Division")));
    let row = Row { cells, emphasis: true };
    proof {
        assert(row@ =~= season_titles_view());
    }
    row
}

/// Builds one ranked-season row.
fn rank_row(label: Cell, pid: u64, info: &RankInfo, ix: &NameIndex) -> (row: Row)
    ensures
        (label@ matches CellV::Text(lv) ==> row@ == rank_row_view(lv, pid, *info, ix.entries@)),
        !row.emphasis,
{
    let ghost lv = label@;
    let mut cells: Vec<Cell> = Vec::new();
    cells.push(label);
    cells.push(Cell::Text(ix.resolve(pid)));
    cells.push(Cell::Num(unwrap_or_zero(&info.rank_points)));
    cells.push(Cell::Num(unwrap_or_zero(&info.matches_played)));
    cells.push(Cell::Num(unwrap_or_zero(&info.tier)));
    cells.push(Cell::Num(unwrap_or_zero(&info.division)));
    let row = Row { cells, emphasis: false };
    proof {
        match lv {
            CellV::Text(t) => {
                assert(row@ =~= rank_row_view(t, pid, *info, ix.entries@));
            },
            _ => {},
        }
    }
    row
}

/// Builds the ranked-season section: one row per (season, playlist) pair,
/// preserving the source order, the season label shown only on the first row
/// of each season's block.
pub fn season_rows(p: &Player, ix: &NameIndex) -> (rows: Vec<Row>)
    ensures
        rows@.len() == season_section_view(p.ranked_seasons@, ix.entries@).len(),
        forall|i: int|
            0 <= i < rows@.len() ==> (#[trigger] rows@[i])@ == season_section_view(
                p.ranked_seasons@,
                ix.entries@,
            )[i] && !rows@[i].emphasis,
{
    let ghost seasons = p.ranked_seasons@;
    let mut rows: Vec<Row> = Vec::new();
    let ns = p.ranked_seasons.len();
    let mut si: usize = 0;
    while si < ns
        invariant
            si <= ns,
            ns == seasons.len(),
            seasons == p.ranked_seasons@,
            rows@.len() == season_section_view(seasons.take(si as int), ix.entries@).len(),
            forall|i: int|
                0 <= i < rows@.len() ==> (#[trigger] rows@[i])@ == season_section_view(
                    seasons.take(si as int),
                    ix.entries@,
                )[i] && !rows@[i].emphasis,
        decreases ns - si,
    {
        let ghost outer = season_section_view(seasons.take(si as int), ix.entries@);
        let ghost cur = seasons[si as int];
        let ghost block = season_block_view(cur, ix.entries@);
        let season = &p.ranked_seasons[si];
        let ne = season.entries.len();
        let mut k: usize = 0;
        while k < ne
            invariant
                k <= ne,
                ne == cur.entries@.len(),
                *season == cur,
                seasons == p.ranked_seasons@,
                outer == season_section_view(seasons.take(si as int), ix.entries@),
                block == season_block_view(cur, ix.entries@),
                rows@.len() == outer.len() + k,
                forall|i: int|
                    0 <= i < rows@.len() ==> (#[trigger] rows@[i])@ == (outer + block.take(
                        k as int,
                    ))[i] && !rows@[i].emphasis,
            decreases ne - k,
        {
            let label = if k == 0 {
                Cell::Text(season.label.clone())
            } else {
                Cell::Text(String::new())
            };
            proof {
                reveal_strlit("");
                assert(""@ =~= Seq::<char>::empty());
                if k != 0 {
                    assert(label@ == CellV::Text(""@));
                }
            }
            let entry_pid = season.entries[k].0;
            let info = season.entries[k].1;
            let row = rank_row(label, entry_pid, &info, ix);
            proof {
                assert(row@ == block[k as int]);
            }
            rows.push(row);
            k = k + 1;
        }
        proof {
            assert(block.take(ne as int) =~= block);
            assert(seasons.take(si + 1 as int).drop_last() =~= seasons.take(si as int));
            assert(seasons.take(si + 1 as int).last() == cur);
            assert(season_section_view(seasons.take(si + 1 as int), ix.entries@) == outer + block);
        }
        si = si + 1;
    }
    proof {
        assert(seasons.take(ns as int) =~= seasons);
    }
    rows
}

} // verus!
