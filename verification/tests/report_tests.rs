use rlstats_cli::dates::date_string;
use rlstats_cli::lookup::NameIndex;
use rlstats_cli::records::{Platform, Player, PlayerStats, Playlist, RankInfo, SeasonRanks};
use rlstats_cli::report::{identity_rows, season_rows, season_titles, stats_rows, timestamp_rows};
use rlstats_cli::rows::Cell;

fn sample_player(ranked_seasons: Vec<SeasonRanks>) -> Player {
    Player {
        display_name: String::from("Scorer"),
        unique_id: String::from("76561198000000000"),
        platform: Platform { id: 1, name: String::from("Steam") },
        profile_url: String::from("https://example.invalid/scorer"),
        last_requested: 0,
        created_at: 1431648000,
        updated_at: 1431648000,
        next_update_at: 1431648000,
        stats: PlayerStats { wins: 10, goals: 20, mvps: 3, saves: 4, shots: 50, assists: 6 },
        ranked_seasons,
    }
}

fn no_rank() -> RankInfo {
    RankInfo { rank_points: None, matches_played: None, tier: None, division: None }
}

#[test]
fn season_section_resolves_names_and_substitutes_zero() {
    let seasons = vec![SeasonRanks {
        label: String::from("2020"),
        entries: vec![
            (1, RankInfo { rank_points: Some(100), ..no_rank() }),
            (2, no_rank()),
        ],
    }];
    let player = sample_player(seasons);
    let index = NameIndex {
        entries: vec![
            (1, String::from("Ranked Duel")),
            (2, String::from("Ranked Doubles")),
        ],
    };
    let rows = season_rows(&player, &index);
    assert_eq!(rows.len(), 2);
    assert_eq!(
        rows[0].cells,
        vec![
            Cell::Text(String::from("2020")),
            Cell::Text(String::from("Ranked Duel")),
            Cell::Num(100),
            Cell::Num(0),
            Cell::Num(0),
            Cell::Num(0),
        ]
    );
    assert_eq!(
        rows[1].cells,
        vec![
            Cell::Text(String::new()),
            Cell::Text(String::from("Ranked Doubles")),
            Cell::Num(0),
            Cell::Num(0),
            Cell::Num(0),
            Cell::Num(0),
        ]
    );
}

#[test]
fn unresolved_playlist_shows_unknown() {
    let seasons = vec![SeasonRanks {
        label: String::from("2021"),
        entries: vec![(42, no_rank())],
    }];
    let player = sample_player(seasons);
    let index = NameIndex { entries: vec![(1, String::from("Ranked Duel"))] };
    let rows = season_rows(&player, &index);
    assert_eq!(rows[0].cells[1], Cell::Text(String::from("Unknown")));
}

#[test]
fn season_label_blank_after_first_row_of_each_block() {
    let seasons = vec![
        SeasonRanks { label: String::from("S1"), entries: vec![(1, no_rank()), (2, no_rank())] },
        SeasonRanks { label: String::from("S2"), entries: vec![(1, no_rank())] },
    ];
    let player = sample_player(seasons);
    let index = NameIndex { entries: vec![] };
    let rows = season_rows(&player, &index);
    assert_eq!(rows.len(), 3);
    assert_eq!(rows[0].cells[0], Cell::Text(String::from("S1")));
    assert_eq!(rows[1].cells[0], Cell::Text(String::new()));
    assert_eq!(rows[2].cells[0], Cell::Text(String::from("S2")));
}

#[test]
fn index_built_from_records_keeps_first_seen_name() {
    let records = vec![
        Playlist { id: 1, name: String::from("Ranked Duel"), platform_id: 1, population: 4 },
        Playlist { id: 1, name: String::from("Ranked Duel"), platform_id: 2, population: 5 },
    ];
    let index = NameIndex::build(&records);
    assert_eq!(index.resolve(1), "Ranked Duel");
    assert_eq!(index.resolve(9), "Unknown");
}

#[test]
fn identity_section_lists_the_four_fields() {
    let player = sample_player(vec![]);
    let rows = identity_rows(&player);
    assert_eq!(rows.len(), 4);
    assert_eq!(
        rows[0].cells,
        vec![Cell::Text(String::from("Display Name")), Cell::Text(String::from("Scorer"))]
    );
    assert_eq!(rows[1].cells[1], Cell::Text(String::from("76561198000000000")));
    assert_eq!(rows[2].cells[1], Cell::Text(String::from("Steam")));
    assert_eq!(rows[3].cells[1], Cell::Text(String::from("https://example.invalid/scorer")));
}

#[test]
fn stats_section_lists_the_six_statistics() {
    let player = sample_player(vec![]);
    let rows = stats_rows(&player);
    assert_eq!(rows.len(), 7);
    assert!(rows[0].emphasis);
    assert_eq!(rows[0].cells, vec![Cell::Text(String::from("Statistics"))]);
    assert_eq!(rows[1].cells, vec![Cell::Text(String::from("Wins")), Cell::Num(10)]);
    assert_eq!(rows[2].cells, vec![Cell::Text(String::from("Goals")), Cell::Num(20)]);
    assert_eq!(rows[3].cells, vec![Cell::Text(String::from("MVPs")), Cell::Num(3)]);
    assert_eq!(rows[4].cells, vec![Cell::Text(String::from("Saves")), Cell::Num(4)]);
    assert_eq!(rows[5].cells, vec![Cell::Text(String::from("Shots")), Cell::Num(50)]);
    assert_eq!(rows[6].cells, vec![Cell::Text(String::from("Assists")), Cell::Num(6)]);
}

#[test]
fn timestamps_render_as_calendar_dates() {
    assert_eq!(date_string(0), "Jan  1 1970");
    assert_eq!(date_string(1431648000), "May 15 2015");
    let player = sample_player(vec![]);
    let rows = timestamp_rows(&player);
    assert_eq!(rows.len(), 2);
    assert!(rows[0].emphasis);
    assert_eq!(
        rows[0].cells,
        vec![
            Cell::Text(String::from("Requested")),
            Cell::Text(String::from("Created")),
            Cell::Text(String::from("Updated")),
            Cell::Text(String::from("Next Update")),
        ]
    );
    assert_eq!(rows[1].cells[0], Cell::Text(String::from("Jan  1 1970")));
    assert_eq!(rows[1].cells[1], Cell::Text(String::from("May 15 2015")));
}

#[test]
fn season_table_titles() {
    let row = season_titles();
    assert!(row.emphasis);
    assert_eq!(
        row.cells,
        vec![
            Cell::Text(String::from("Season")),
            Cell::Text(String::from("Playlist")),
            Cell::Text(String::from("Points")),
            Cell::Text(String::from("Played")),
            Cell::Text(String::from("Tier")),
            Cell::Text(String::from("Division")),
        ]
    );
}
