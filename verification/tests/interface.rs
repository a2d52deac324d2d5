use trakt_updater::api::{ApiIDs, ApiSeasonDetails, ApiShowDetails};
use trakt_updater::client::ApiError;
use trakt_updater::interface::{
    handle_key_events, handle_mouse_events, App, AppError, AppMode, Command, KeyCode, KeyPress,
    MouseKind, MousePress,
};
use trakt_updater::models::{TraktSeason, TraktShow};
use trakt_updater::sources::DataManager;
use trakt_updater::status::{UserStatusSeason, UserStatusShow};
use trakt_updater::store::{ShowStore, StorageError};

fn listed(id: &str, status: UserStatusShow) -> TraktShow {
    TraktShow {
        imdb_id: id.to_string(),
        trakt_id: None,
        primary_title: id.to_string(),
        original_title: id.to_string(),
        country: None,
        release_year: Some(2000),
        network: None,
        no_seasons: None,
        no_episodes: None,
        overview: None,
        user_status: status,
    }
}

fn app_with(n: usize) -> App {
    let mut app = App::new();
    let items: Vec<TraktShow> =
        (0..n).map(|i| listed(&format!("tt{}", i), UserStatusShow::Todo)).collect();
    app.receive_snapshot(Some(items)).unwrap();
    app
}

fn key(code: KeyCode) -> KeyPress {
    KeyPress { code, control: false }
}

fn ctrl(c: char) -> KeyPress {
    KeyPress { code: KeyCode::Char(c), control: true }
}

fn details() -> ApiShowDetails {
    ApiShowDetails {
        title: "A show".to_string(),
        year: 2011,
        ids: ApiIDs { trakt: 1390, slug: None, imdb: None },
        overview: "About".to_string(),
        first_aired: 1_300_000_000,
        network: "net".to_string(),
        country: "us".to_string(),
        aired_episodes: 73,
    }
}

fn api_seasons(n: usize) -> Vec<ApiSeasonDetails> {
    (0..n)
        .map(|i| ApiSeasonDetails {
            number: i,
            ids: ApiIDs { trakt: 100 + i as u32, slug: None, imdb: None },
            episode_count: 10,
            title: format!("Season {}", i),
            first_aired: 0,
            overview: None,
            network: "net".to_string(),
        })
        .collect()
}

#[test]
fn default_mode_is_initializing() {
    assert_eq!(AppMode::default(), AppMode::Initializing);
    let app = App::new();
    assert!(app.running);
    assert_eq!(app.mode, AppMode::Initializing);
    assert_eq!(app.selected, None);
    assert!(app.shows.is_empty());
    assert!(app.needs_snapshot());
}

#[test]
fn lost_servicer_is_fatal_and_changes_nothing() {
    let mut app = App::new();
    assert_eq!(app.receive_snapshot(None), Err(AppError::ServicerDisconnected));
    assert_eq!(app, App::new());
}

#[test]
fn tick_lists_the_snapshot_once() {
    let mut db = ShowStore::new();
    let source = vec![listed("tt1", UserStatusShow::Todo), listed("tt2", UserStatusShow::Watched)];
    let manager = DataManager::init_as_of(&mut db, &source, 2024).unwrap();
    let mut app = App::new();
    assert_eq!(app.tick(&manager), Ok(()));
    assert_eq!(app.shows, source);
    assert_eq!(app.mode, AppMode::MainView);
    app.mode = AppMode::Querying;
    let before = app.shows.clone();
    assert_eq!(app.tick(&manager), Ok(()));
    assert_eq!(app.shows, before);
    assert_eq!(app.mode, AppMode::Querying);
}

#[test]
fn selection_moves_within_the_list() {
    let mut app = app_with(30);
    app.next(1);
    assert_eq!(app.selected, Some(0));
    app.next(1);
    assert_eq!(app.selected, Some(1));
    assert_eq!(app.scroll_position, 1);
    app.next(20);
    assert_eq!(app.selected, Some(21));
    app.next(20);
    assert_eq!(app.selected, Some(29));
    app.next(usize::MAX);
    assert_eq!(app.selected, Some(29));
    app.prev(1);
    assert_eq!(app.selected, Some(28));
    app.prev(20);
    assert_eq!(app.selected, Some(8));
    app.prev(20);
    assert_eq!(app.selected, Some(0));
    assert_eq!(app.scroll_position, 0);
    app.selected = None;
    app.prev(1);
    assert_eq!(app.selected, Some(29));
}

#[test]
fn selection_on_an_empty_list_stays_at_the_top() {
    let mut app = App::new();
    app.next(1);
    assert_eq!(app.selected, Some(0));
    app.next(5);
    assert_eq!(app.selected, Some(0));
    app.selected = None;
    app.prev(1);
    assert_eq!(app.selected, Some(0));
}

#[test]
fn season_selection_moves_within_the_list() {
    let mut app = app_with(1);
    app.next(1);
    app.enter_show_details(Ok((details(), api_seasons(3)))).unwrap();
    assert_eq!(app.show_view.season_selected, Some(0));
    app.season_next(1);
    assert_eq!(app.show_view.season_selected, Some(1));
    app.season_next(5);
    assert_eq!(app.show_view.season_selected, Some(2));
    app.season_prev(1);
    assert_eq!(app.show_view.season_selected, Some(1));
    app.season_prev(9);
    assert_eq!(app.show_view.season_selected, Some(0));
    app.show_view.season_selected = None;
    app.season_prev(1);
    assert_eq!(app.show_view.season_selected, Some(0));
}

#[test]
fn toggle_three_times_returns_and_writes_once_each() {
    let mut db = ShowStore::new();
    let mut app = app_with(3);
    app.next(1);
    app.next(1);
    let before = app.shows[1].clone();
    let expected = [UserStatusShow::Watched, UserStatusShow::Unwatched, UserStatusShow::Todo];
    for status in expected {
        assert_eq!(app.toggle_watch_status(&mut db), Ok(()));
        assert_eq!(app.shows[1].user_status, status);
        assert_eq!(db.count_shows(), 1);
        assert_eq!(db.get_show(&"tt1".to_string()), Some(app.shows[1].clone()));
    }
    assert_eq!(app.shows[1], before);
    assert_eq!(app.shows[0].user_status, UserStatusShow::Todo);
    assert_eq!(app.shows[2].user_status, UserStatusShow::Todo);
}

#[test]
fn toggle_of_a_declined_show_wraps_to_todo() {
    let mut db = ShowStore::new();
    let mut app = App::new();
    app.receive_snapshot(Some(vec![listed("tt0", UserStatusShow::Unwatched)])).unwrap();
    app.next(1);
    assert_eq!(app.selected, Some(0));
    assert_eq!(app.toggle_watch_status(&mut db), Ok(()));
    assert_eq!(app.shows[0].user_status, UserStatusShow::Todo);
    assert_eq!(db.get_show(&"tt0".to_string()), Some(listed("tt0", UserStatusShow::Todo)));
}

#[test]
fn refused_toggle_write_leaves_the_list_as_it_was() {
    let mut db = ShowStore::new();
    let mut stored = listed("tt0", UserStatusShow::Todo);
    stored.trakt_id = Some(7);
    db.update_show(stored.clone()).unwrap();
    db.update_season(TraktSeason {
        id: 1,
        title: "Season 1".to_string(),
        first_aired: None,
        show_id: 7,
        season_number: 1,
        episode_count: 3,
        user_status: UserStatusSeason::Unfilled,
    })
    .unwrap();
    let mut stale = listed("tt0", UserStatusShow::Todo);
    stale.trakt_id = Some(8);
    let mut app = App::new();
    app.receive_snapshot(Some(vec![stale.clone()])).unwrap();
    app.next(1);
    assert_eq!(app.toggle_watch_status(&mut db), Err(StorageError::Constraint));
    assert_eq!(app.shows, vec![stale]);
    assert_eq!(db.get_show(&"tt0".to_string()), Some(stored));
}

#[test]
fn tick_keeps_the_scroll_position() {
    let mut db = ShowStore::new();
    let source = vec![listed("tt1", UserStatusShow::Todo)];
    let manager = DataManager::init_as_of(&mut db, &source, 2024).unwrap();
    let mut app = App::new();
    app.next(1);
    app.scroll_position = 4;
    assert_eq!(app.tick(&manager), Ok(()));
    assert_eq!(app.scroll_position, 4);
    assert_eq!(app.selected, Some(0));
    assert!(app.running);
}

#[test]
fn toggle_without_a_selected_row_does_nothing() {
    let mut db = ShowStore::new();
    let mut app = app_with(2);
    assert_eq!(app.toggled_show(), None);
    assert_eq!(app.toggle_watch_status(&mut db), Ok(()));
    assert_eq!(db.count_shows(), 0);
    app.selected = Some(2);
    assert_eq!(app.toggle_watch_status(&mut db), Ok(()));
    assert_eq!(db.count_shows(), 0);
    assert_eq!(app.shows, app_with(2).shows);
}

#[test]
fn toggled_row_is_computed_before_it_is_shown() {
    let mut app = app_with(2);
    app.next(1);
    let row = app.toggled_show().unwrap();
    assert_eq!(row.user_status, UserStatusShow::Watched);
    assert_eq!(row.imdb_id, "tt0");
    assert_eq!(app.shows[0].user_status, UserStatusShow::Todo);
    app.reflect_toggle();
    assert_eq!(app.shows[0], row);
}

#[test]
fn details_open_the_season_view() {
    let mut app = app_with(2);
    assert_eq!(app.details_request(), None);
    app.next(1);
    app.next(1);
    assert_eq!(app.details_request(), Some("tt1".to_string()));
    assert_eq!(app.enter_show_details(Ok((details(), api_seasons(2)))), Ok(()));
    assert_eq!(app.mode, AppMode::SeasonView);
    assert_eq!(app.show_view.show_details, Some(details()));
    assert_eq!(app.show_view.seasons, api_seasons(2));
    assert_eq!(app.show_view.season_selected, Some(0));
    assert_eq!(app.details_request(), None);
}

#[test]
fn details_without_seasons_select_nothing() {
    let mut app = app_with(1);
    app.next(1);
    assert_eq!(app.enter_show_details(Ok((details(), vec![]))), Ok(()));
    assert_eq!(app.mode, AppMode::SeasonView);
    assert_eq!(app.show_view.season_selected, None);
}

#[test]
fn failed_details_leave_the_list_as_it_was() {
    let mut app = app_with(2);
    app.next(1);
    let shows = app.shows.clone();
    assert_eq!(
        app.enter_show_details(Err(ApiError::Remote { status: 503 })),
        Err(ApiError::Remote { status: 503 })
    );
    assert!(app.running);
    assert_eq!(app.mode, AppMode::MainView);
    assert_eq!(app.shows, shows);
    assert_eq!(app.selected, Some(0));
    assert_eq!(app.show_view.show_details, None);
}

#[test]
fn details_outside_the_main_view_are_dropped() {
    let mut app = app_with(2);
    app.next(1);
    app.mode = AppMode::Querying;
    assert_eq!(app.enter_show_details(Ok((details(), api_seasons(1)))), Ok(()));
    assert_eq!(app.mode, AppMode::Querying);
    assert_eq!(app.show_view.show_details, None);
    assert_eq!(app.enter_show_details(Err(ApiError::Auth)), Ok(()));
}

#[test]
fn control_c_quits_from_any_mode() {
    for mode in [
        AppMode::Initializing,
        AppMode::MainView,
        AppMode::Querying,
        AppMode::HelpWindow,
        AppMode::SeasonView,
    ] {
        let mut app = app_with(2);
        app.mode = mode;
        handle_key_events(ctrl('c'), &mut app);
        assert!(!app.running);
        let mut app = app_with(2);
        app.mode = mode;
        handle_key_events(ctrl('C'), &mut app);
        assert!(!app.running);
    }
    let mut app = app_with(2);
    assert_eq!(handle_key_events(key(KeyCode::Char('c')), &mut app), Command::Nothing);
    assert!(app.running);
}

#[test]
fn main_view_keys() {
    let mut app = app_with(50);
    assert_eq!(handle_key_events(key(KeyCode::Down), &mut app), Command::Nothing);
    assert_eq!(app.selected, Some(0));
    handle_key_events(key(KeyCode::Char('j')), &mut app);
    assert_eq!(app.selected, Some(1));
    handle_key_events(key(KeyCode::PageDown), &mut app);
    assert_eq!(app.selected, Some(21));
    handle_key_events(ctrl('d'), &mut app);
    assert_eq!(app.selected, Some(41));
    handle_key_events(key(KeyCode::Char('d')), &mut app);
    assert_eq!(app.selected, Some(41));
    handle_key_events(key(KeyCode::Char('k')), &mut app);
    assert_eq!(app.selected, Some(40));
    handle_key_events(key(KeyCode::Up), &mut app);
    assert_eq!(app.selected, Some(39));
    handle_key_events(ctrl('U'), &mut app);
    assert_eq!(app.selected, Some(19));
    handle_key_events(key(KeyCode::PageUp), &mut app);
    assert_eq!(app.selected, Some(0));
    handle_key_events(key(KeyCode::Char('G')), &mut app);
    assert_eq!(app.selected, Some(49));
    handle_key_events(key(KeyCode::Char('g')), &mut app);
    assert_eq!(app.selected, Some(0));
    assert_eq!(handle_key_events(key(KeyCode::Char(' ')), &mut app), Command::ToggleWatchStatus);
    assert_eq!(handle_key_events(key(KeyCode::Char('l')), &mut app), Command::EnterShowDetails);
    assert_eq!(handle_key_events(key(KeyCode::Right), &mut app), Command::EnterShowDetails);
    assert_eq!(handle_key_events(key(KeyCode::Other), &mut app), Command::Nothing);
    assert_eq!(app.mode, AppMode::MainView);
    handle_key_events(key(KeyCode::Tab), &mut app);
    assert_eq!(app.mode, AppMode::Querying);
    assert!(app.running);
    app.mode = AppMode::MainView;
    handle_key_events(key(KeyCode::Char('q')), &mut app);
    assert!(!app.running);
    let mut app = app_with(1);
    handle_key_events(key(KeyCode::Esc), &mut app);
    assert!(!app.running);
}

#[test]
fn query_mode_keys() {
    for code in [KeyCode::Enter, KeyCode::Tab, KeyCode::Esc] {
        let mut app = app_with(1);
        app.mode = AppMode::Querying;
        assert_eq!(handle_key_events(key(code), &mut app), Command::Nothing);
        assert_eq!(app.mode, AppMode::MainView);
        assert!(app.running);
    }
    let mut app = app_with(1);
    app.mode = AppMode::Querying;
    assert_eq!(handle_key_events(key(KeyCode::Char('q')), &mut app), Command::EditInput);
    assert_eq!(app.mode, AppMode::Querying);
    assert!(app.running);
}

#[test]
fn season_view_keys() {
    let mut app = app_with(1);
    app.next(1);
    app.enter_show_details(Ok((details(), api_seasons(3)))).unwrap();
    handle_key_events(key(KeyCode::Char('j')), &mut app);
    assert_eq!(app.show_view.season_selected, Some(1));
    handle_key_events(key(KeyCode::Down), &mut app);
    assert_eq!(app.show_view.season_selected, Some(2));
    handle_key_events(key(KeyCode::Char('k')), &mut app);
    handle_key_events(key(KeyCode::Up), &mut app);
    assert_eq!(app.show_view.season_selected, Some(0));
    assert_eq!(
        handle_key_events(key(KeyCode::Char(' ')), &mut app),
        Command::ToggleSeasonWatchStatus
    );
    assert_eq!(handle_key_events(key(KeyCode::Char('q')), &mut app), Command::Nothing);
    assert!(app.running);
    handle_key_events(key(KeyCode::Char('h')), &mut app);
    assert_eq!(app.mode, AppMode::MainView);
    app.mode = AppMode::SeasonView;
    handle_key_events(key(KeyCode::Left), &mut app);
    assert_eq!(app.mode, AppMode::MainView);
}

#[test]
fn unbound_modes_take_no_key() {
    let mut app = app_with(3);
    app.mode = AppMode::HelpWindow;
    let before = app_with(3);
    assert_eq!(handle_key_events(key(KeyCode::Char('q')), &mut app), Command::Nothing);
    assert!(app.running);
    assert_eq!(app.shows, before.shows);
    assert_eq!(app.mode, AppMode::HelpWindow);
}

#[test]
fn mouse_events() {
    let mut app = app_with(5);
    handle_mouse_events(MousePress { kind: MouseKind::ScrollDown, row: 3 }, &mut app);
    assert_eq!(app.selected, Some(0));
    handle_mouse_events(MousePress { kind: MouseKind::ScrollDown, row: 3 }, &mut app);
    assert_eq!(app.selected, Some(1));
    handle_mouse_events(MousePress { kind: MouseKind::ScrollUp, row: 3 }, &mut app);
    assert_eq!(app.selected, Some(0));
    handle_mouse_events(MousePress { kind: MouseKind::Down, row: 2 }, &mut app);
    assert_eq!(app.mode, AppMode::MainView);
    handle_mouse_events(MousePress { kind: MouseKind::Other, row: 0 }, &mut app);
    assert_eq!(app.mode, AppMode::MainView);
    handle_mouse_events(MousePress { kind: MouseKind::Down, row: 0 }, &mut app);
    assert_eq!(app.mode, AppMode::Querying);
    handle_mouse_events(MousePress { kind: MouseKind::ScrollDown, row: 3 }, &mut app);
    assert_eq!(app.selected, Some(0));
    app.quit();
    assert!(!app.running);
}
