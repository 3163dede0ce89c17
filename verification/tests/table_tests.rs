use rlstats_cli::records::{Platform, Season, Tier};
use rlstats_cli::rows::Cell;
use rlstats_cli::sorting::sort_seasons;
use rlstats_cli::tables::{platform_rows, season_report_rows, tier_rows};
use rlstats_cli::text::{fmt_u64, str_eq};

#[test]
fn platform_listing_rows() {
    let platforms = vec![
        Platform { id: 1, name: String::from("Steam") },
        Platform { id: 2, name: String::from("PS4") },
    ];
    let rows = platform_rows(&platforms);
    assert_eq!(rows.len(), 2);
    assert_eq!(rows[0].cells, vec![Cell::Num(1), Cell::Text(String::from("Steam"))]);
    assert_eq!(rows[1].cells, vec![Cell::Num(2), Cell::Text(String::from("PS4"))]);
}

#[test]
fn tier_listing_rows() {
    let tiers = vec![Tier { id: 0, name: String::from("Unranked") }];
    let rows = tier_rows(&tiers);
    assert_eq!(rows[0].cells, vec![Cell::Num(0), Cell::Text(String::from("Unranked"))]);
}

#[test]
fn season_listing_shows_dates_and_current() {
    let seasons = vec![
        Season { season_id: 1, started_on: 0, ended_on: Some(1431648000) },
        Season { season_id: 2, started_on: 1431648000, ended_on: None },
    ];
    let rows = season_report_rows(&seasons);
    assert_eq!(rows.len(), 2);
    assert!(!rows[0].emphasis);
    assert_eq!(
        rows[0].cells,
        vec![
            Cell::Num(1),
            Cell::Text(String::from("Jan  1 1970")),
            Cell::Text(String::from("May 15 2015")),
        ]
    );
    assert!(rows[1].emphasis);
    assert_eq!(rows[1].cells[2], Cell::Text(String::from("Current")));
}

#[test]
fn seasons_sort_ascending_by_season_id() {
    let mut seasons = vec![
        Season { season_id: 5, started_on: 0, ended_on: None },
        Season { season_id: 1, started_on: 0, ended_on: Some(10) },
        Season { season_id: 3, started_on: 0, ended_on: Some(20) },
    ];
    sort_seasons(&mut seasons);
    let ids: Vec<u64> = seasons.iter().map(|s| s.season_id).collect();
    assert_eq!(ids, vec![1, 3, 5]);
}

#[test]
fn decimal_rendering_is_exact() {
    assert_eq!(fmt_u64(0), "0");
    assert_eq!(fmt_u64(7), "7");
    assert_eq!(fmt_u64(10), "10");
    assert_eq!(fmt_u64(1234567890), "1234567890");
    assert_eq!(fmt_u64(u64::MAX), "18446744073709551615");
}

#[test]
fn string_equality_is_character_wise() {
    assert!(str_eq("", ""));
    assert!(str_eq("wins", "wins"));
    assert!(!str_eq("wins", "win"));
    assert!(!str_eq("wins", "Wins"));
    assert!(str_eq("naïve", "naïve"));
}
