use trakt_updater::api::{ApiIDs, ApiSeasonDetails};
use trakt_updater::models::{clone_shows, clone_text, TraktSeason, TraktShow};
use trakt_updater::status::{UserStatusSeason, UserStatusShow};
use trakt_updater::store::{
    merge_refresh, merge_update, season_from_api, seasons_from_api, ShowStore, StorageError,
};

fn show(id: &str, year: Option<i32>, status: UserStatusShow) -> TraktShow {
    TraktShow {
        imdb_id: id.to_string(),
        trakt_id: None,
        primary_title: format!("Title {}", id),
        original_title: format!("Native {}", id),
        country: Some("us".to_string()),
        release_year: year,
        network: None,
        no_seasons: Some(1),
        no_episodes: Some(10),
        overview: None,
        user_status: status,
    }
}

fn season(id: i32, show_id: i32, number: i32) -> TraktSeason {
    TraktSeason {
        id,
        title: format!("Season {}", number),
        first_aired: Some(1_000_000),
        show_id,
        season_number: number,
        episode_count: 8,
        user_status: UserStatusSeason::Unfilled,
    }
}

fn api_season(trakt: u32, number: usize, episodes: usize) -> ApiSeasonDetails {
    ApiSeasonDetails {
        number,
        ids: ApiIDs { trakt, slug: None, imdb: None },
        episode_count: episodes,
        title: format!("Season {}", number),
        first_aired: 1_600_000_000,
        overview: Some("text".to_string()),
        network: "net".to_string(),
    }
}

#[test]
fn empty_store_counts_zero() {
    let store = ShowStore::new();
    assert_eq!(store.count_shows(), 0);
    assert_eq!(store.count_seasons(), 0);
    assert!(store.filtered_shows_as_of(2024).is_empty());
    assert_eq!(store.get_show(&"tt1".to_string()), None);
}

#[test]
fn upsert_inserts_on_absent_id() {
    let mut store = ShowStore::new();
    assert_eq!(store.update_show(show("tt1", Some(2000), UserStatusShow::Todo)), Ok(()));
    assert_eq!(store.update_show(show("tt2", Some(2001), UserStatusShow::Watched)), Ok(()));
    assert_eq!(store.count_shows(), 2);
    assert_eq!(
        store.get_show(&"tt1".to_string()),
        Some(show("tt1", Some(2000), UserStatusShow::Todo))
    );
    assert_eq!(
        store.get_show(&"tt2".to_string()),
        Some(show("tt2", Some(2001), UserStatusShow::Watched))
    );
}

#[test]
fn upsert_twice_is_idempotent() {
    let mut store = ShowStore::new();
    let s = show("tt1", Some(2000), UserStatusShow::Watched);
    assert_eq!(store.update_show(s.clone()), Ok(()));
    let first = store.get_show(&"tt1".to_string());
    assert_eq!(store.update_show(s.clone()), Ok(()));
    assert_eq!(store.count_shows(), 1);
    assert_eq!(store.get_show(&"tt1".to_string()), first);
    assert_eq!(first, Some(s));
}

#[test]
fn upsert_conflict_updates_only_mutable_fields() {
    let mut store = ShowStore::new();
    store.update_show(show("tt1", Some(2000), UserStatusShow::Todo)).unwrap();
    let incoming = TraktShow {
        imdb_id: "tt1".to_string(),
        trakt_id: Some(42),
        primary_title: "Changed".to_string(),
        original_title: "Changed too".to_string(),
        country: Some("de".to_string()),
        release_year: Some(1999),
        network: Some("other".to_string()),
        no_seasons: Some(7),
        no_episodes: Some(70),
        overview: Some("a story".to_string()),
        user_status: UserStatusShow::Watched,
    };
    assert_eq!(store.update_show(incoming), Ok(()));
    assert_eq!(store.count_shows(), 1);
    let expected = TraktShow {
        trakt_id: Some(42),
        overview: Some("a story".to_string()),
        user_status: UserStatusShow::Watched,
        ..show("tt1", Some(2000), UserStatusShow::Todo)
    };
    assert_eq!(store.get_show(&"tt1".to_string()), Some(expected));
}

#[test]
fn numeric_id_is_never_cleared() {
    let mut store = ShowStore::new();
    let mut first = show("tt1", Some(2000), UserStatusShow::Todo);
    first.trakt_id = Some(7);
    store.update_show(first).unwrap();
    store.update_show(show("tt1", Some(2000), UserStatusShow::Watched)).unwrap();
    let row = store.get_show(&"tt1".to_string()).unwrap();
    assert_eq!(row.trakt_id, Some(7));
    assert_eq!(row.user_status, UserStatusShow::Watched);
    store.prefill_from_imdb(&vec![show("tt1", Some(2003), UserStatusShow::Todo)]).unwrap();
    assert_eq!(store.get_show(&"tt1".to_string()).unwrap().trakt_id, Some(7));
}

#[test]
fn merge_rules_on_single_rows() {
    let stored = TraktShow {
        trakt_id: Some(1),
        overview: Some("old".to_string()),
        ..show("tt9", Some(1990), UserStatusShow::Todo)
    };
    let incoming = TraktShow {
        trakt_id: Some(2),
        primary_title: "New title".to_string(),
        release_year: Some(1991),
        no_seasons: Some(3),
        no_episodes: None,
        overview: None,
        ..show("tt9", Some(1991), UserStatusShow::Unwatched)
    };
    let updated = merge_update(&stored, &incoming);
    assert_eq!(
        updated,
        TraktShow {
            trakt_id: Some(2),
            overview: None,
            user_status: UserStatusShow::Unwatched,
            ..show("tt9", Some(1990), UserStatusShow::Todo)
        }
    );
    let refreshed = merge_refresh(&stored, &incoming);
    assert_eq!(
        refreshed,
        TraktShow {
            trakt_id: Some(1),
            overview: Some("old".to_string()),
            release_year: Some(1991),
            no_seasons: Some(3),
            no_episodes: None,
            ..show("tt9", Some(1990), UserStatusShow::Todo)
        }
    );
}

#[test]
fn bulk_upsert_refreshes_dump_fields_only() {
    let mut store = ShowStore::new();
    let mut watched = show("tt1", Some(2000), UserStatusShow::Watched);
    watched.overview = Some("kept".to_string());
    store.update_show(watched).unwrap();
    let mut fresh = show("tt1", Some(2005), UserStatusShow::Todo);
    fresh.no_seasons = Some(4);
    fresh.no_episodes = Some(44);
    fresh.primary_title = "Other".to_string();
    let batch = vec![fresh, show("tt2", None, UserStatusShow::Todo)];
    assert_eq!(store.prefill_from_imdb(&batch), Ok(()));
    assert_eq!(store.count_shows(), 2);
    let row = store.get_show(&"tt1".to_string()).unwrap();
    assert_eq!(row.release_year, Some(2005));
    assert_eq!(row.no_seasons, Some(4));
    assert_eq!(row.no_episodes, Some(44));
    assert_eq!(row.user_status, UserStatusShow::Watched);
    assert_eq!(row.overview, Some("kept".to_string()));
    assert_eq!(row.primary_title, "Title tt1");
    assert_eq!(
        store.get_show(&"tt2".to_string()),
        Some(show("tt2", None, UserStatusShow::Todo))
    );
}

#[test]
fn bulk_upsert_with_repeated_id_keeps_one_row() {
    let mut store = ShowStore::new();
    let batch = vec![
        show("tt1", Some(2000), UserStatusShow::Todo),
        show("tt1", Some(2001), UserStatusShow::Todo),
    ];
    store.prefill_from_imdb(&batch).unwrap();
    assert_eq!(store.count_shows(), 1);
    assert_eq!(store.get_show(&"tt1".to_string()).unwrap().release_year, Some(2001));
}

#[test]
fn filtered_shows_keeps_table_order_within_a_year() {
    let mut store = ShowStore::new();
    for id in ["c", "a", "d", "b"] {
        store.update_show(show(id, Some(2001), UserStatusShow::Todo)).unwrap();
    }
    store.update_show(show("z", Some(2000), UserStatusShow::Todo)).unwrap();
    store.update_show(show("y", Some(2002), UserStatusShow::Todo)).unwrap();
    store.update_show(show("x", Some(2001), UserStatusShow::Watched)).unwrap();
    let listing = store.filtered_shows_as_of(2024);
    let ids: Vec<&str> = listing.iter().map(|s| s.imdb_id.as_str()).collect();
    assert_eq!(ids, vec!["z", "c", "a", "d", "b", "x", "y"]);
    assert_eq!(listing, store.filtered_shows_as_of(2024));
}

#[test]
fn filtered_shows_hides_declined_and_future_rows() {
    let mut store = ShowStore::new();
    store.update_show(show("a", Some(2010), UserStatusShow::Todo)).unwrap();
    store.update_show(show("b", Some(1999), UserStatusShow::Watched)).unwrap();
    store.update_show(show("c", Some(2005), UserStatusShow::Unwatched)).unwrap();
    store.update_show(show("d", Some(2026), UserStatusShow::Todo)).unwrap();
    store.update_show(show("e", Some(2025), UserStatusShow::Todo)).unwrap();
    store.update_show(show("f", None, UserStatusShow::Todo)).unwrap();
    let listing = store.filtered_shows_as_of(2024);
    let ids: Vec<&str> = listing.iter().map(|s| s.imdb_id.as_str()).collect();
    assert_eq!(ids, vec!["b", "a", "e"]);
    assert_eq!(listing[0], show("b", Some(1999), UserStatusShow::Watched));
    assert_eq!(store.count_shows(), 6);
}

#[test]
fn filtered_shows_at_the_edges_of_the_year_range() {
    let mut store = ShowStore::new();
    store.update_show(show("min", Some(i32::MIN), UserStatusShow::Todo)).unwrap();
    store.update_show(show("max", Some(i32::MAX), UserStatusShow::Todo)).unwrap();
    let ids = |year: i32| -> Vec<String> {
        store.filtered_shows_as_of(year).iter().map(|s| s.imdb_id.clone()).collect()
    };
    assert_eq!(ids(i32::MIN), vec!["min".to_string()]);
    assert_eq!(ids(i32::MAX - 2), vec!["min".to_string()]);
    assert_eq!(ids(i32::MAX - 1), vec!["min".to_string(), "max".to_string()]);
    assert_eq!(ids(i32::MAX), vec!["min".to_string(), "max".to_string()]);
}

#[test]
fn filtered_shows_with_the_clock_never_lists_declined_rows() {
    let mut store = ShowStore::new();
    store.update_show(show("a", Some(1990), UserStatusShow::Unwatched)).unwrap();
    store.update_show(show("b", Some(1980), UserStatusShow::Todo)).unwrap();
    store.update_show(show("c", Some(1970), UserStatusShow::Watched)).unwrap();
    let listing = store.filtered_shows();
    let ids: Vec<&str> = listing.iter().map(|s| s.imdb_id.as_str()).collect();
    assert_eq!(ids, vec!["c", "b"]);
}

fn store_with_parents(ids: &[i32]) -> ShowStore {
    let mut store = ShowStore::new();
    for id in ids {
        let mut parent = show(&format!("parent{}", id), Some(2000), UserStatusShow::Todo);
        parent.trakt_id = Some(*id);
        store.update_show(parent).unwrap();
    }
    store
}

#[test]
fn season_upsert_inserts_then_updates_number_only() {
    let mut store = store_with_parents(&[1, 99]);
    assert_eq!(store.update_season(season(10, 1, 1)), Ok(()));
    assert_eq!(store.count_seasons(), 1);
    let mut again = season(10, 99, 2);
    again.title = "Renamed".to_string();
    again.episode_count = 3;
    assert_eq!(store.update_season(again), Ok(()));
    assert_eq!(store.count_seasons(), 1);
    let mut expected = season(10, 1, 1);
    expected.season_number = 2;
    assert_eq!(store.get_season(10), Some(expected));
    assert_eq!(store.update_season(season(11, 1, 1)), Ok(()));
    assert_eq!(store.update_season(season(12, 1, 2)), Err(StorageError::Constraint));
    assert_eq!(store.update_season(season(12, 99, 2)), Ok(()));
    assert_eq!(store.count_seasons(), 3);
}

#[test]
fn season_upsert_refuses_a_taken_number() {
    let mut store = store_with_parents(&[1, 2]);
    store.update_season(season(10, 1, 1)).unwrap();
    assert_eq!(store.update_season(season(11, 1, 1)), Err(StorageError::Constraint));
    assert_eq!(store.count_seasons(), 1);
    assert_eq!(store.update_season(season(11, 2, 1)), Ok(()));
    assert_eq!(store.update_season(season(10, 1, 1)), Ok(()));
    assert_eq!(store.count_seasons(), 2);
}

#[test]
fn season_needs_a_show_with_its_numeric_id() {
    let mut store = ShowStore::new();
    assert_eq!(store.update_season(season(10, 1, 1)), Err(StorageError::Constraint));
    store.update_show(show("tt1", Some(2000), UserStatusShow::Todo)).unwrap();
    assert_eq!(store.update_season(season(10, 1, 1)), Err(StorageError::Constraint));
    assert_eq!(store.count_seasons(), 0);
    let mut detailed = show("tt1", Some(2000), UserStatusShow::Todo);
    detailed.trakt_id = Some(1);
    store.update_show(detailed).unwrap();
    assert_eq!(store.update_season(season(10, 1, 1)), Ok(()));
    assert_eq!(store.update_season(season(11, 2, 1)), Err(StorageError::Constraint));
    assert_eq!(store.count_seasons(), 1);
}

#[test]
fn numeric_id_with_seasons_cannot_be_replaced() {
    let mut store = store_with_parents(&[1]);
    store.update_season(season(10, 1, 1)).unwrap();
    let mut moved = show("parent1", Some(2000), UserStatusShow::Watched);
    moved.trakt_id = Some(2);
    assert_eq!(store.update_show(moved), Err(StorageError::Constraint));
    let stored = store.get_show(&"parent1".to_string()).unwrap();
    assert_eq!(stored.trakt_id, Some(1));
    assert_eq!(stored.user_status, UserStatusShow::Todo);
    let mut same = show("parent1", Some(2000), UserStatusShow::Watched);
    same.trakt_id = Some(1);
    assert_eq!(store.update_show(same), Ok(()));
    assert_eq!(store.update_show(show("parent1", None, UserStatusShow::Unwatched)), Ok(()));
    let stored = store.get_show(&"parent1".to_string()).unwrap();
    assert_eq!(stored.trakt_id, Some(1));
    assert_eq!(stored.user_status, UserStatusShow::Unwatched);
}

#[test]
fn numeric_id_without_seasons_is_replaced() {
    let mut store = store_with_parents(&[1, 5]);
    store.update_season(season(10, 5, 1)).unwrap();
    let mut moved = show("parent1", Some(2000), UserStatusShow::Todo);
    moved.trakt_id = Some(2);
    assert_eq!(store.update_show(moved), Ok(()));
    assert_eq!(store.get_show(&"parent1".to_string()).unwrap().trakt_id, Some(2));
}

#[test]
fn season_rows_from_remote_seasons() {
    let row = season_from_api(5, &api_season(77, 2, 13)).unwrap();
    assert_eq!(
        row,
        TraktSeason {
            id: 77,
            title: "Season 2".to_string(),
            first_aired: Some(1_600_000_000),
            show_id: 5,
            season_number: 2,
            episode_count: 13,
            user_status: UserStatusSeason::Unfilled,
        }
    );
    assert_eq!(season_from_api(5, &api_season(2147483648, 2, 13)), None);
    assert_eq!(season_from_api(5, &api_season(2147483647, 2147483647, 2147483647)).unwrap().id, i32::MAX);
    assert_eq!(season_from_api(5, &api_season(1, 2147483648, 1)), None);
    assert_eq!(season_from_api(5, &api_season(1, 1, 2147483648)), None);
    assert_eq!(seasons_from_api(5, &vec![]), Some(vec![]));
    assert_eq!(seasons_from_api(5, &vec![api_season(1, 1, 1), api_season(1, 1, 2147483648)]), None);
}

#[test]
fn show_with_seasons_needs_a_numeric_id() {
    let mut store = ShowStore::new();
    let parent = show("tt1", Some(2000), UserStatusShow::Todo);
    assert_eq!(
        store.update_show_with_seasons(&parent, &vec![api_season(1, 1, 10)]),
        Err(StorageError::Constraint)
    );
    assert_eq!(store.count_seasons(), 0);
}

#[test]
fn show_with_seasons_stores_each_season() {
    let mut store = ShowStore::new();
    let mut parent = show("tt1", Some(2000), UserStatusShow::Todo);
    parent.trakt_id = Some(5);
    store.update_show(parent.clone()).unwrap();
    let stored = store
        .update_show_with_seasons(&parent, &vec![api_season(1, 1, 10), api_season(2, 2, 12)])
        .unwrap();
    assert_eq!(stored.len(), 2);
    assert_eq!(stored[1].id, 2);
    assert_eq!(stored[1].show_id, 5);
    assert_eq!(stored[1].season_number, 2);
    assert_eq!(stored[1].episode_count, 12);
    assert_eq!(stored[1].user_status, UserStatusSeason::Unfilled);
    assert_eq!(store.count_seasons(), 2);
    assert_eq!(store.count_shows(), 1);
}

#[test]
fn show_with_seasons_needs_the_show_in_the_store() {
    let mut store = ShowStore::new();
    let mut parent = show("tt1", Some(2000), UserStatusShow::Todo);
    parent.trakt_id = Some(5);
    assert_eq!(
        store.update_show_with_seasons(&parent, &vec![api_season(1, 1, 10)]),
        Err(StorageError::Constraint)
    );
    assert_eq!(store.count_seasons(), 0);
    assert_eq!(store.update_show_with_seasons(&parent, &vec![]), Ok(vec![]));
}

#[test]
fn show_with_seasons_keeps_rows_written_before_a_refusal() {
    let mut store = ShowStore::new();
    let mut parent = show("tt1", Some(2000), UserStatusShow::Todo);
    parent.trakt_id = Some(5);
    store.update_show(parent.clone()).unwrap();
    let batch = vec![api_season(1, 1, 10), api_season(2, 1, 12), api_season(3, 3, 12)];
    assert_eq!(store.update_show_with_seasons(&parent, &batch), Err(StorageError::Constraint));
    assert_eq!(store.count_seasons(), 1);
}

#[test]
fn show_with_seasons_refuses_numbers_out_of_range_before_writing() {
    let mut store = ShowStore::new();
    let mut parent = show("tt1", Some(2000), UserStatusShow::Todo);
    parent.trakt_id = Some(5);
    store.update_show(parent.clone()).unwrap();
    let batch = vec![api_season(1, 1, 10), api_season(4_000_000_000, 2, 12)];
    assert_eq!(store.update_show_with_seasons(&parent, &batch), Err(StorageError::Constraint));
    assert_eq!(store.count_seasons(), 0);
}

#[test]
fn copies_equal_what_they_copy() {
    let rows = vec![show("a", Some(1), UserStatusShow::Todo), show("b", None, UserStatusShow::Watched)];
    assert_eq!(clone_shows(&rows), rows);
    assert_eq!(clone_text(&Some("x".to_string())), Some("x".to_string()));
    assert_eq!(clone_text(&None), None);
    assert_eq!(season(1, 2, 3).clone(), season(1, 2, 3));
}
