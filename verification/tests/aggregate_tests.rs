use rlstats_cli::aggregate::{aggregate_playlists, Aggregate};
use rlstats_cli::playlist_report::{playlist_rows, playlist_titles};
use rlstats_cli::records::{Platform, Playlist};
use rlstats_cli::rows::Cell;
use rlstats_cli::sorting::sort_platforms;

fn pl(id: u64, name: &str, platform_id: u64, population: u32) -> Playlist {
    Playlist { id, name: String::from(name), platform_id, population }
}

fn agg_ids(aggs: &[Aggregate]) -> Vec<u64> {
    aggs.iter().map(|a| a.id).collect()
}

#[test]
fn totals_sum_per_id_and_grand() {
    let records = vec![
        pl(10, "Duel", 1, 5),
        pl(3, "Doubles", 1, 2),
        pl(10, "Duel", 2, 7),
    ];
    let (grand, aggs) = aggregate_playlists(&records);
    assert_eq!(grand, 14);
    assert_eq!(agg_ids(&aggs), vec![3, 10]);
    assert_eq!(aggs[0].total, 2);
    assert_eq!(aggs[1].total, 12);
    assert_eq!(aggs[0].name, "Doubles");
    assert_eq!(aggs[1].name, "Duel");
    let sum: u64 = aggs.iter().map(|a| a.total).sum();
    assert_eq!(sum, grand);
}

#[test]
fn rows_ascend_by_playlist_id_regardless_of_input_order() {
    let records = vec![
        pl(7, "Seven", 1, 1),
        pl(2, "Two", 1, 1),
        pl(9, "Nine", 2, 1),
        pl(2, "Two", 2, 1),
    ];
    let (_, aggs) = aggregate_playlists(&records);
    assert_eq!(agg_ids(&aggs), vec![2, 7, 9]);
}

#[test]
fn duplicate_platform_pair_counts_once_per_cell_but_fully_in_total() {
    let records = vec![pl(1, "Duel", 1, 4), pl(1, "Duel", 1, 6)];
    let (grand, aggs) = aggregate_playlists(&records);
    assert_eq!(grand, 10);
    assert_eq!(aggs.len(), 1);
    assert_eq!(aggs[0].total, 10);
    assert_eq!(aggs[0].per_platform, vec![(1, 4)]);
}

#[test]
fn missing_platform_shows_na() {
    let platforms = vec![
        Platform { id: 1, name: String::from("Steam") },
        Platform { id: 2, name: String::from("PS4") },
    ];
    let records = vec![pl(3, "Doubles", 1, 2)];
    let (grand, aggs) = aggregate_playlists(&records);
    let rows = playlist_rows(&platforms, &aggs, grand);
    assert_eq!(rows.len(), 2);
    let cells = &rows[0].cells;
    assert_eq!(cells[0], Cell::Num(3));
    assert_eq!(cells[1], Cell::Text(String::from("Doubles")));
    assert_eq!(cells[2], Cell::Num(2));
    assert_eq!(cells[3], Cell::Text(String::from("N/A")));
    assert_eq!(cells[4], Cell::Num(2));
}

#[test]
fn summary_row_holds_only_grand_total() {
    let platforms = vec![Platform { id: 1, name: String::from("Steam") }];
    let records = vec![pl(1, "Duel", 1, 5), pl(2, "Doubles", 1, 6)];
    let (grand, aggs) = aggregate_playlists(&records);
    let rows = playlist_rows(&platforms, &aggs, grand);
    assert_eq!(rows.len(), 3);
    let summary = &rows[2];
    assert!(summary.emphasis);
    assert_eq!(
        summary.cells,
        vec![
            Cell::Text(String::new()),
            Cell::Text(String::new()),
            Cell::Text(String::new()),
            Cell::Num(11),
        ]
    );
}

#[test]
fn playlist_title_row_names_platform_columns() {
    let platforms = vec![
        Platform { id: 1, name: String::from("Steam") },
        Platform { id: 2, name: String::from("PS4") },
    ];
    let row = playlist_titles(&platforms);
    assert!(row.emphasis);
    assert_eq!(
        row.cells,
        vec![
            Cell::Text(String::from("ID")),
            Cell::Text(String::from("Playlist")),
            Cell::Text(String::from("Steam")),
            Cell::Text(String::from("PS4")),
            Cell::Text(String::from("Totals")),
        ]
    );
}

#[test]
fn platforms_sort_ascending_by_id() {
    let mut platforms = vec![
        Platform { id: 3, name: String::from("C") },
        Platform { id: 1, name: String::from("A") },
        Platform { id: 2, name: String::from("B") },
    ];
    sort_platforms(&mut platforms);
    let ids: Vec<u64> = platforms.iter().map(|p| p.id).collect();
    assert_eq!(ids, vec![1, 2, 3]);
    let names: Vec<&str> = platforms.iter().map(|p| p.name.as_str()).collect();
    assert_eq!(names, vec!["A", "B", "C"]);
}

#[test]
fn no_records_yield_only_the_summary_row() {
    let records: Vec<Playlist> = Vec::new();
    let (grand, aggs) = aggregate_playlists(&records);
    assert_eq!(grand, 0);
    assert!(aggs.is_empty());
    let platforms = vec![Platform { id: 1, name: String::from("Steam") }];
    let rows = playlist_rows(&platforms, &aggs, grand);
    assert_eq!(rows.len(), 1);
    assert_eq!(rows[0].cells[3], Cell::Num(0));
}
