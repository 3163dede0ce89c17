//! The simple listing reports: platforms, tiers and seasons, each one row per
//! record in the given order.

use vstd::prelude::*;
use vstd::string::StringExecFns;

use crate::dates::{date_in_range, date_string, utc_date_label};
use crate::records::{Platform, Season, Tier};
use crate::rows::{Cell, CellV, Row};

verus! {

/// One platform listing row: id and name.
pub open spec fn platform_row_view(p: Platform) -> Seq<CellV> {
    seq![CellV::Num(p.id as int), CellV::Text(p.name@)]
}

/// One tier listing row: id and name.
pub open spec fn tier_row_view(t: Tier) -> Seq<CellV> {
    seq![CellV::Num(t.id as int), CellV::Text(t.name@)]
}

/// One season listing row: season id, start date, and either the end date or
/// `"Current"` for a season still running.
pub open spec fn season_row_view(s: Season) -> Seq<CellV> {
    seq![
        CellV::Num(s.season_id as int),
        CellV::Text(utc_date_label(s.started_on as int)),
        match s.ended_on {
            Some(e) => CellV::Text(utc_date_label(e as int)),
            None => CellV::Text("Current"@),
        },
    ]
}

/// Every timestamp a season listing must render lies in the date range.
pub open spec fn season_dates_in_range(seasons: Seq<Season>) -> bool {
    forall|i: int|
        0 <= i < seasons.len() ==> date_in_range((#[trigger] seasons[i]).started_on) && match (
        seasons[i].ended_on) {
            Some(e) => date_in_range(e),
            None => true,
        }
}

/// Builds the platform listing: one plain row per platform, in given order.
pub fn platform_rows(platforms: &Vec<Platform>) -> (rows: Vec<Row>)
    ensures
        rows@.len() == platforms@.len(),
        forall|i: int|
            0 <= i < rows@.len() ==> (#[trigger] rows@[i])@ == platform_row_view(platforms@[i])
                && !rows@[i].emphasis,
{
    let mut rows: Vec<Row> = Vec::new();
    let n = platforms.len();
    let mut i: usize = 0;
    while i < n
        invariant
            i <= n,
            n == platforms@.len(),
            rows@.len() == i,
            forall|k: int|
                0 <= k < i ==> (#[trigger] rows@[k])@ == platform_row_view(platforms@[k])
                    && !rows@[k].emphasis,
        decreases n - i,
    {
        let mut cells: Vec<Cell> = Vec::new();
        cells.push(Cell::Num(platforms[i].id));
        cells.push(Cell::Text(platforms[i].name.clone()));
        let row = Row { cells, emphasis: false };
        proof {
            assert(row@ =~= platform_row_view(platforms@[i as int]));
        }
        rows.push(row);
        i = i + 1;
    }
    rows
}

/// Builds the tier listing: one plain row per tier, in given order.
pub fn tier_rows(tiers: &Vec<Tier>) -> (rows: Vec<Row>)
    ensures
        rows@.len() == tiers@.len(),
        forall|i: int|
            0 <= i < rows@.len() ==> (#[trigger] rows@[i])@ == tier_row_view(tiers@[i])
                && !rows@[i].emphasis,
{
    let mut rows: Vec<Row> = Vec::new();
    let n = tiers.len();
    let mut i: usize = 0;
    while i < n
        invariant
            i <= n,
            n == tiers@.len(),
            rows@.len() == i,
            forall|k: int|
                0 <= k < i ==> (#[trigger] rows@[k])@ == tier_row_view(tiers@[k])
                    && !rows@[k].emphasis,
        decreases n - i,
    {
        let mut cells: Vec<Cell> = Vec::new();
        cells.push(Cell::Num(tiers[i].id));
        cells.push(Cell::Text(tiers[i].name.clone()));
        let row = Row { cells, emphasis: false };
        proof {
            assert(row@ =~= tier_row_view(tiers@[i as int]));
        }
        rows.push(row);
        i = i + 1;
    }
    rows
}

/// Builds the season listing: one row per season, in given order; a season
/// still running shows `"Current"` and is emphasised.
pub fn season_report_rows(seasons: &Vec<Season>) -> (rows: Vec<Row>)
    requires
        season_dates_in_range(seasons@),
    ensures
        rows@.len() == seasons@.len(),
        forall|i: int|
            0 <= i < rows@.len() ==> (#[trigger] rows@[i])@ == season_row_view(seasons@[i])
                && (rows@[i].emphasis <==> seasons@[i].ended_on is None),
{
    let mut rows: Vec<Row> = Vec::new();
    let n = seasons.len();
    let mut i: usize = 0;
    while i < n
        invariant
            i <= n,
            n == seasons@.len(),
            season_dates_in_range(seasons@),
            rows@.len() == i,
            forall|k: int|
                0 <= k < i ==> (#[trigger] rows@[k])@ == season_row_view(seasons@[k]) && (
                rows@[k].emphasis <==> seasons@[k].ended_on is None),
        decreases n - i,
    {
        let s = &seasons[i];
        let mut cells: Vec<Cell> = Vec::new();
        cells.push(Cell::Num(s.season_id));
        cells.push(Cell::Text(date_string(s.started_on)));
        let current = match s.ended_on {
            Some(e) => {
                cells.push(Cell::Text(date_string(e)));
                false
            },
            None => {
                cells.push(Cell::Text(String::from_str("Current")));
                true
            },
        };
        let row = Row { cells, emphasis: current };
        proof {
            assert(row@ =~= season_row_view(seasons@[i as int]));
        }
        rows.push(row);
        i = i + 1;
    }
    rows
}

} // verus!
