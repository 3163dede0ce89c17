use rlstats_cli::leaderboard::{
    leaderboard_summary_row, parse_stat, ranked_titles, roster_rows, search_summary_row,
    search_titles, select_entry, stat_rows, stat_title, stat_titles, stat_value, ReportError,
    Stat,
};
use rlstats_cli::records::{Platform, Player, PlayerStats, SeasonRanks};
use rlstats_cli::rows::Cell;

fn entry(name: &str, wins: u64) -> Player {
    Player {
        display_name: String::from(name),
        unique_id: format!("id-{}", name),
        platform: Platform { id: 1, name: String::from("Steam") },
        profile_url: String::from("https://example.invalid/p"),
        last_requested: 0,
        created_at: 0,
        updated_at: 0,
        next_update_at: 0,
        stats: PlayerStats { wins, goals: 2 * wins, mvps: 0, saves: 0, shots: 0, assists: 1 },
        ranked_seasons: Vec::<SeasonRanks>::new(),
    }
}

fn ten_entries() -> Vec<Player> {
    (0..10).map(|k| entry(&format!("p{}", k), k)).collect()
}

#[test]
fn limit_three_shows_positions_zero_to_two_and_summary() {
    let entries = ten_entries();
    let rows = roster_rows(&entries, 3);
    assert_eq!(rows.len(), 3);
    for (k, row) in rows.iter().enumerate() {
        assert_eq!(row.cells[0], Cell::Num(k as u64));
        assert_eq!(row.cells[1], Cell::Text(format!("p{}", k)));
        assert_eq!(row.cells[2], Cell::Text(String::from("Steam")));
        assert_eq!(row.cells[3], Cell::Text(format!("id-p{}", k)));
    }
    let summary = leaderboard_summary_row(3, 4);
    assert!(summary.emphasis);
    assert_eq!(
        summary.cells,
        vec![
            Cell::Text(String::new()),
            Cell::Text(String::new()),
            Cell::Text(String::new()),
            Cell::Text(String::from("3 of 100 results")),
        ]
    );
}

#[test]
fn limit_beyond_length_shows_every_entry() {
    let entries = ten_entries();
    let rows = roster_rows(&entries, 25);
    assert_eq!(rows.len(), 10);
}

#[test]
fn select_removes_and_returns_the_entry_at_position() {
    let mut entries = ten_entries();
    let picked = select_entry(&mut entries, 4).unwrap();
    assert_eq!(picked.display_name, "p4");
    assert_eq!(entries.len(), 9);
    let names: Vec<&str> = entries.iter().map(|p| p.display_name.as_str()).collect();
    assert_eq!(names, vec!["p0", "p1", "p2", "p3", "p5", "p6", "p7", "p8", "p9"]);
}

#[test]
fn select_out_of_range_reports_and_changes_nothing() {
    let mut entries = ten_entries();
    let r = select_entry(&mut entries, 10);
    let err = match r {
        Ok(_) => panic!("selection beyond the length must fail"),
        Err(e) => e,
    };
    assert_eq!(err, ReportError::OutOfRange { index: 10, len: 10 });
    assert_eq!(entries.len(), 10);
    assert_eq!(err.message(), "selection index 10 is out of range: 10 entries");
}

#[test]
fn unknown_stat_is_rejected() {
    assert_eq!(parse_stat("winz"), Err(ReportError::UnknownStat));
    assert_eq!(parse_stat(""), Err(ReportError::UnknownStat));
    assert_eq!(parse_stat("Wins"), Err(ReportError::UnknownStat));
    assert_eq!(
        parse_stat("winz").unwrap_err().message(),
        "unknown stat name"
    );
}

#[test]
fn the_six_stat_names_parse() {
    assert_eq!(parse_stat("wins"), Ok(Stat::Wins));
    assert_eq!(parse_stat("goals"), Ok(Stat::Goals));
    assert_eq!(parse_stat("mvps"), Ok(Stat::Mvps));
    assert_eq!(parse_stat("saves"), Ok(Stat::Saves));
    assert_eq!(parse_stat("shots"), Ok(Stat::Shots));
    assert_eq!(parse_stat("assists"), Ok(Stat::Assists));
}

#[test]
fn stat_titles_and_values_follow_the_enumeration() {
    let p = entry("p", 7);
    assert_eq!(stat_title(Stat::Mvps), "MVPs");
    assert_eq!(stat_value(&p, Stat::Wins), 7);
    assert_eq!(stat_value(&p, Stat::Goals), 14);
    assert_eq!(stat_value(&p, Stat::Assists), 1);
}

#[test]
fn stat_rows_show_the_ranked_value() {
    let entries = ten_entries();
    let rows = stat_rows(&entries, 2, Stat::Goals);
    assert_eq!(rows.len(), 2);
    assert_eq!(
        rows[1].cells,
        vec![
            Cell::Num(1),
            Cell::Num(2),
            Cell::Text(String::from("p1")),
            Cell::Text(String::from("Steam")),
            Cell::Text(String::from("id-p1")),
        ]
    );
    let titles = stat_titles(Stat::Goals);
    assert_eq!(titles.cells[1], Cell::Text(String::from("Goals")));
    let summary = leaderboard_summary_row(2, 5);
    assert_eq!(summary.cells.len(), 5);
    assert_eq!(summary.cells[4], Cell::Text(String::from("2 of 100 results")));
}

#[test]
fn listing_title_rows() {
    assert_eq!(
        ranked_titles().cells,
        vec![
            Cell::Text(String::from("Rank")),
            Cell::Text(String::from("Display Name")),
            Cell::Text(String::from("Platform")),
            Cell::Text(String::from("UniqueID")),
        ]
    );
    assert_eq!(search_titles().cells[0], Cell::Text(String::new()));
}

#[test]
fn search_summary_shows_page_and_result_counts() {
    let row = search_summary_row(2, 10, 57);
    assert!(row.emphasis);
    assert_eq!(
        row.cells,
        vec![
            Cell::Text(String::from("Page 2")),
            Cell::Text(String::new()),
            Cell::Text(String::new()),
            Cell::Text(String::from("10 of 57 results")),
        ]
    );
}

#[test]
fn limit_zero_shows_no_entries() {
    let entries = ten_entries();
    let rows = roster_rows(&entries, 0);
    assert!(rows.is_empty());
    let summary = leaderboard_summary_row(0, 4);
    assert_eq!(summary.cells[3], Cell::Text(String::from("0 of 100 results")));
}
