//! The leaderboard selector: paging (the first `limit` entries plus a summary
//! row) or single-entry selection (remove and return the entry at an index,
//! with a reported out-of-range error instead of a crash), and the closed
//! enumeration of per-stat leaderboards.

use vstd::prelude::*;
use vstd::string::StringExecFns;

use crate::records::Player;
use crate::rows::{Cell, CellV, Row};
use crate::text::{dec_rep, fmt_u64, str_eq};

verus! {

/// The closed set of statistics a stat leaderboard can rank by.
#[derive(Debug, Clone, Copy, PartialEq, Eq, Structural)]
pub enum Stat {
    Wins,
    Goals,
    Mvps,
    Saves,
    Shots,
    Assists,
}

/// The errors this layer reports: a selection index beyond the sequence, with
/// the requested index and the valid bound, or a stat name outside the
/// enumeration.
#[derive(Debug, Clone, Copy, PartialEq, Eq, Structural)]
pub enum ReportError {
    OutOfRange { index: usize, len: usize },
    UnknownStat,
}

/// The stat named by a query argument, if the name is one of the six known.
pub open spec fn spec_parse_stat(s: Seq<char>) -> Option<Stat> {
    if s == "wins"@ {
        Some(Stat::Wins)
    } else if s == "goals"@ {
        Some(Stat::Goals)
    } else if s == "mvps"@ {
        Some(Stat::Mvps)
    } else if s == "saves"@ {
        Some(Stat::Saves)
    } else if s == "shots"@ {
        Some(Stat::Shots)
    } else if s == "assists"@ {
        Some(Stat::Assists)
    } else {
        None
    }
}

/// Resolves a stat argument against the closed enumeration; any other name is
/// a configuration error, reported before any query is made.
pub fn parse_stat(name: &str) -> (r: Result<Stat, ReportError>)
    ensures
        r == match spec_parse_stat(name@) {
            Some(s) => Ok::<Stat, ReportError>(s),
            None => Err::<Stat, ReportError>(ReportError::UnknownStat),
        },
{
    if str_eq(name, "wins") {
        Ok(Stat::Wins)
    } else if str_eq(name, "goals") {
        Ok(Stat::Goals)
    } else if str_eq(name, "mvps") {
        Ok(Stat::Mvps)
    } else if str_eq(name, "saves") {
        Ok(Stat::Saves)
    } else if str_eq(name, "shots") {
        Ok(Stat::Shots)
    } else if str_eq(name, "assists") {
        Ok(Stat::Assists)
    } else {
        Err(ReportError::UnknownStat)
    }
}

/// The display title of a stat column.
pub open spec fn spec_stat_title(s: Stat) -> Seq<char> {
    match s {
        Stat::Wins => "Wins"@,
        Stat::Goals => "Goals"@,
        Stat::Mvps => "MVPs"@,
        Stat::Saves => "Saves"@,
        Stat::Shots => "Shots"@,
        Stat::Assists => "Assists"@,
    }
}

/// The display title of a stat column.
pub fn stat_title(s: Stat) -> (r: &'static str)
    ensures
        r@ == spec_stat_title(s),
{
    match s {
        Stat::Wins => "Wins",
        Stat::Goals => "Goals",
        Stat::Mvps => "MVPs",
        Stat::Saves => "Saves",
        Stat::Shots => "Shots",
        Stat::Assists => "Assists",
    }
}

/// The value a player holds for a stat.
pub open spec fn spec_stat_value(p: Player, s: Stat) -> u64 {
    match s {
        Stat::Wins => p.stats.wins,
        Stat::Goals => p.stats.goals,
        Stat::Mvps => p.stats.mvps,
        Stat::Saves => p.stats.saves,
        Stat::Shots => p.stats.shots,
        Stat::Assists => p.stats.assists,
    }
}

/// The value a player holds for a stat.
pub fn stat_value(p: &Player, s: Stat) -> (r: u64)
    ensures
        r == spec_stat_value(*p, s),
{
    match s {
        Stat::Wins => p.stats.wins,
        Stat::Goals => p.stats.goals,
        Stat::Mvps => p.stats.mvps,
        Stat::Saves => p.stats.saves,
        Stat::Shots => p.stats.shots,
        Stat::Assists => p.stats.assists,
    }
}

/// Removes and returns the entry at position `index`; an index at or beyond
/// the length changes nothing and reports the index with the valid bound.
pub fn select_entry(entries: &mut Vec<Player>, index: usize) -> (r: Result<Player, ReportError>)
    ensures
        r is Ok <==> index < old(entries)@.len(),
        match r {
            Ok(p) => p == old(entries)@[index as int] && final(entries)@ == old(
                entries,
            )@.remove(index as int),
            Err(e) => e == (ReportError::OutOfRange {
                index,
                len: old(entries)@.len() as usize,
            }) && final(entries)@ == old(entries)@,
        },
{
    let len = entries.len();
    if index < len {
        Ok(entries.remove(index))
    } else {
        Err(ReportError::OutOfRange { index, len })
    }
}

impl ReportError {
    /// A human-readable description of the error.
    pub open spec fn message_view(self) -> Seq<char> {
        match self {
            ReportError::OutOfRange { index, len } => "selection index "@ + dec_rep(index as nat)
                + " is out of range: "@ + dec_rep(len as nat) + " entries"@,
            ReportError::UnknownStat => "unknown stat name"@,
        }
    }

    /// Renders the human-readable description.
    pub fn message(&self) -> (r: String)
        ensures
            r@ == self.message_view(),
    {
        match self {
            ReportError::OutOfRange { index, len } => {
                let mut s = String::from_str("selection index ");
                let a = fmt_u64(*index as u64);
                s.append(a.as_str());
                s.append(" is out of range: ");
                let b = fmt_u64(*len as u64);
                s.append(b.as_str());
                s.append(" entries");
                s
            },
            ReportError::UnknownStat => String::from_str("unknown stat name"),
        }
    }
}

/// One roster row: the 0-based position and the entry's display fields.
pub open spec fn roster_row_view(pos: int, p: Player) -> Seq<CellV> {
    seq![
        CellV::Num(pos),
        CellV::Text(p.display_name@),
        CellV::Text(p.platform.name@),
        CellV::Text(p.unique_id@),
    ]
}

/// One stat-leaderboard row: the 0-based position, the ranked stat's value,
/// and the entry's display fields.
pub open spec fn stat_row_view(pos: int, p: Player, s: Stat) -> Seq<CellV> {
    seq![
        CellV::Num(pos),
        CellV::Num(spec_stat_value(p, s) as int),
        CellV::Text(p.display_name@),
        CellV::Text(p.platform.name@),
        CellV::Text(p.unique_id@),
    ]
}

/// How many rows a bounded report shows: the limit, capped by the length.
pub open spec fn capped(limit: usize, len: nat) -> int {
    if limit < len {
        limit as int
    } else {
        len as int
    }
}

/// Builds the bounded roster: one row per entry among the first `limit`,
/// showing its 0-based position.
pub fn roster_rows(entries: &Vec<Player>, limit: usize) -> (rows: Vec<Row>)
    ensures
        rows@.len() == capped(limit, entries@.len()),
        forall|i: int|
            0 <= i < rows@.len() ==> (#[trigger] rows@[i])@ == roster_row_view(i, entries@[i])
                && !rows@[i].emphasis,
{
    let n = entries.len();
    let count = if limit < n {
        limit
    } else {
        n
    };
    let mut rows: Vec<Row> = Vec::new();
    let mut i: usize = 0;
    while i < count
        invariant
            i <= count,
            count <= n,
            n == entries@.len(),
            rows@.len() == i,
            forall|k: int|
                0 <= k < i ==> (#[trigger] rows@[k])@ == roster_row_view(k, entries@[k])
                    && !rows@[k].emphasis,
        decreases count - i,
    {
        let p = &entries[i];
        let mut cells: Vec<Cell> = Vec::new();
        cells.push(Cell::Num(i as u64));
        cells.push(Cell::Text(p.display_name.clone()));
        cells.push(Cell::Text(p.platform.name.clone()));
        cells.push(Cell::Text(p.unique_id.clone()));
        let row = Row { cells, emphasis: false };
        proof {
            assert(row@ =~= roster_row_view(i as int, entries@[i as int]));
        }
        rows.push(row);
        i = i + 1;
    }
    rows
}

/// Builds the bounded stat leaderboard: one row per entry among the first
/// `limit`, showing position and the ranked stat's value.
pub fn stat_rows(entries: &Vec<Player>, limit: usize, stat: Stat) -> (rows: Vec<Row>)
    ensures
        rows@.len() == capped(limit, entries@.len()),
        forall|i: int|
            0 <= i < rows@.len() ==> (#[trigger] rows@[i])@ == stat_row_view(
                i,
                entries@[i],
                stat,
            ) && !rows@[i].emphasis,
{
    let n = entries.len();
    let count = if limit < n {
        limit
    } else {
        n
    };
    let mut rows: Vec<Row> = Vec::new();
    let mut i: usize = 0;
    while i < count
        invariant
            i <= count,
            count <= n,
            n == entries@.len(),
            rows@.len() == i,
            forall|k: int|
                0 <= k < i ==> (#[trigger] rows@[k])@ == stat_row_view(k, entries@[k], stat)
                    && !rows@[k].emphasis,
        decreases count - i,
    {
        let p = &entries[i];
        let value = stat_value(p, stat);
        let mut cells: Vec<Cell> = Vec::new();
        cells.push(Cell::Num(i as u64));
        cells.push(Cell::Num(value));
        cells.push(Cell::Text(p.display_name.clone()));
        cells.push(Cell::Text(p.platform.name.clone()));
        cells.push(Cell::Text(p.unique_id.clone()));
        let row = Row { cells, emphasis: false };
        proof {
            assert(row@ =~= stat_row_view(i as int, entries@[i as int], stat));
        }
        rows.push(row);
        i = i + 1;
    }
    rows
}

/// The summary label of a bounded leaderboard: the requested limit against
/// the fixed upper bound the remote source asserts for leaderboard size.
pub open spec fn results_label(limit: nat) -> Seq<char> {
    dec_rep(limit) + " of 100 results"@
}

/// Builds the trailing leaderboard summary row: blank in every column but the
/// last of `ncols`, which states the requested limit against the fixed bound.
pub fn leaderboard_summary_row(limit: usize, ncols: usize) -> (row: Row)
    requires
        ncols >= 1,
    ensures
        row@.len() == ncols,
        forall|k: int| 0 <= k < ncols - 1 ==> (#[trigger] row@[k]) == CellV::Text(""@),
        row@[ncols - 1] == CellV::Text(results_label(limit as nat)),
        row.emphasis,
{
    proof {
        reveal_strlit("");
        assert(""@ =~= Seq::<char>::empty());
    }
    let mut cells: Vec<Cell> = Vec::new();
    let mut k: usize = 0;
    while k < ncols - 1
        invariant
            ncols >= 1,
            k <= ncols - 1,
            cells@.len() == k,
            ""@ == Seq::<char>::empty(),
            forall|m: int| 0 <= m < k ==> (#[trigger] cells@[m])@ == CellV::Text(""@),
        decreases ncols - 1 - k,
    {
        cells.push(Cell::Text(String::new()));
        k = k + 1;
    }
    let mut label = fmt_u64(limit as u64);
    label.append(" of 100 results");
    cells.push(Cell::Text(label));
    Row { cells, emphasis: true }
}

/// The page label of a search summary.
pub open spec fn page_label(page: nat) -> Seq<char> {
    "Page "@ + dec_rep(page)
}

/// The results label of a search summary: results shown on this page against
/// the total count the source reports.
pub open spec fn search_results_label(results: nat, total: nat) -> Seq<char> {
    dec_rep(results) + " of "@ + dec_rep(total) + " results"@
}

/// Builds the trailing summary row of a search listing: the page number, two
/// blank columns, and the shown-of-total results count.
pub fn search_summary_row(page: u64, results: u64, total: u64) -> (row: Row)
    ensures
        row@ == seq![
            CellV::Text(page_label(page as nat)),
            CellV::Text(""@),
            CellV::Text(""@),
            CellV::Text(search_results_label(results as nat, total as nat)),
        ],
        row.emphasis,
{
    proof {
        reveal_strlit("");
        assert(""@ =~= Seq::<char>::empty());
    }
    let mut pl = String::from_str("Page ");
    let pnum = fmt_u64(page);
    pl.append(pnum.as_str());
    let mut rl = fmt_u64(results);
    rl.append(" of ");
    let tnum = fmt_u64(total);
    rl.append(tnum.as_str());
    rl.append(" results");
    let mut cells: Vec<Cell> = Vec::new();
    cells.push(Cell::Text(pl));
    cells.push(Cell::Text(String::new()));
    cells.push(Cell::Text(String::new()));
    cells.push(Cell::Text(rl));
    let row = Row { cells, emphasis: true };
    proof {
        assert(row@ =~= seq![
            CellV::Text(page_label(page as nat)),
            CellV::Text(""@),
            CellV::Text(""@),
            CellV::Text(search_results_label(results as nat, total as nat)),
        ]);
    }
    row
}

/// The title row of the ranked leaderboard listing.
pub open spec fn ranked_titles_view() -> Seq<CellV> {
    seq![
        CellV::Text("Rank"@),
        CellV::Text("Display Name"@),
        CellV::Text("Platform"@),
        CellV::Text("UniqueID"@),
    ]
}

/// Builds the title row of the ranked leaderboard listing.
pub fn ranked_titles() -> (row: Row)
    ensures
        row@ == ranked_titles_view(),
        row.emphasis,
{
    let mut cells: Vec<Cell> = Vec::new();
    cells.push(Cell::Text(String::from_str("Rank")));
    cells.push(Cell::Text(String::from_str("Display Name")));
    cells.push(Cell::Text(String::from_str("Platform")));
    cells.push(Cell::Text(String::from_str("UniqueID")));
    let row = Row { cells, emphasis: true };
    proof {
        assert(row@ =~= ranked_titles_view());
    }
    row
}

/// The title row of a search listing: as the ranked titles, with an unlabelled
/// position column.
pub open spec fn search_titles_view() -> Seq<CellV> {
    seq![
        CellV::Text(""@),
        CellV::Text("Display Name"@),
        CellV::Text("Platform"@),
        CellV::Text("UniqueID"@),
    ]
}

/// Builds the title row of a search listing.
pub fn search_titles() -> (row: Row)
    ensures
        row@ == search_titles_view(),
        row.emphasis,
{
    proof {
        reveal_strlit("");
        assert(""@ =~= Seq::<char>::empty());
    }
    let mut cells: Vec<Cell> = Vec::new();
    cells.push(Cell::Text(String::new()));
    cells.push(Cell::Text(String::from_str("Display Name")));
    cells.push(Cell::Text(String::from_str("Platform")));
    cells.push(Cell::Text(String::from_str("UniqueID")));
    let row = Row { cells, emphasis: true };
    proof {
        assert(row@ =~= search_titles_view());
    }
    row
}

/// The title row of a stat leaderboard: the ranked titles with the stat's
/// own column after the rank.
pub open spec fn stat_titles_view(s: Stat) -> Seq<CellV> {
    seq![
        CellV::Text("Rank"@),
        CellV::Text(spec_stat_title(s)),
        CellV::Text("Display Name"@),
        CellV::Text("Platform"@),
        CellV::Text("UniqueID"@),
    ]
}

/// Builds the title row of a stat leaderboard.
pub fn stat_titles(s: Stat) -> (row: Row)
    ensures
        row@ == stat_titles_view(s),
        row.emphasis,
{
    let mut cells: Vec<Cell> = Vec::new();
    cells.push(Cell::Text(String::from_str("Rank")));
    cells.push(Cell::Text(String::from_str(stat_title(s))));
    cells.push(Cell::Text(String::from_str("Display Name")));
    cells.push(Cell::Text(String::from_str("Platform")));
    cells.push(Cell::Text(String::from_str("UniqueID")));
    let row = Row { cells, emphasis: true };
    proof {
        assert(row@ =~= stat_titles_view(s));
    }
    row
}

} // verus!
