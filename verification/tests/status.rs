use trakt_updater::limiter::{
    acquire_step, permits_per_window, rate_is_allowed, AcquireAction, Limiter, QUOTA_CEILING,
    QUOTA_WINDOW_SECS, RATE_LIMIT, TIME_STEP_MILLIS,
};
use trakt_updater::status::{UserStatusEpisode, UserStatusSeason, UserStatusShow};

#[test]
fn t_api_check_rate_limit() {
    let total = RATE_LIMIT * 60 * 5;
    assert!(total < 1000u32);
}

#[test]
fn trakt_cache_check_rate_limit() {
    let total = RATE_LIMIT * 60 * 5;
    assert!(total < 1000u32);
}

#[test]
fn advance_follows_the_cycle() {
    assert_eq!(UserStatusShow::Todo.advance(), UserStatusShow::Watched);
    assert_eq!(UserStatusShow::Watched.advance(), UserStatusShow::Unwatched);
    assert_eq!(UserStatusShow::Unwatched.advance(), UserStatusShow::Todo);
}

#[test]
fn advance_three_times_returns() {
    for status in [UserStatusShow::Todo, UserStatusShow::Watched, UserStatusShow::Unwatched] {
        assert_eq!(status.advance().advance().advance(), status);
        assert_ne!(status.advance(), status);
        assert_ne!(status.advance().advance(), status);
    }
}

#[test]
fn new_shows_start_as_todo() {
    assert_eq!(UserStatusShow::initial(), UserStatusShow::Todo);
}

#[test]
fn status_labels() {
    assert_eq!(UserStatusShow::Unwatched.label(), "UNWATCHED");
    assert_eq!(UserStatusShow::Todo.label(), "TODO");
    assert_eq!(UserStatusShow::Watched.label(), "WATCHED");
    assert_eq!(UserStatusSeason::Unfilled.label(), "UNFILLED");
    assert_eq!(UserStatusSeason::OnRelease.label(), "ON_RELEASE");
    assert_eq!(UserStatusSeason::OtherDate.label(), "OTHER_DATE");
    assert_eq!(UserStatusEpisode::Unwatched.label(), "UNWATCHED");
    assert_eq!(UserStatusEpisode::Watched.label(), "WATCHED");
}

#[test]
fn window_permits_of_the_configured_rate() {
    assert_eq!(permits_per_window(RATE_LIMIT), 900);
    assert_eq!(permits_per_window(0), 0);
    assert_eq!(permits_per_window(u32::MAX), 4294967295u64 * 300);
    assert_eq!(QUOTA_WINDOW_SECS, 300);
    assert_eq!(QUOTA_CEILING, 1000);
}

#[test]
fn allowed_rates() {
    assert!(!rate_is_allowed(0));
    assert!(rate_is_allowed(1));
    assert!(rate_is_allowed(3));
    assert!(!rate_is_allowed(4));
    assert!(!rate_is_allowed(u32::MAX));
}

#[test]
fn acquire_step_proceeds_or_waits() {
    assert_eq!(acquire_step(true), AcquireAction::Proceed);
    assert_eq!(acquire_step(false), AcquireAction::Wait { millis: 100 });
    assert_eq!(TIME_STEP_MILLIS, 100);
}

#[test]
fn limiter_refuses_rates_out_of_bounds() {
    assert!(Limiter::new(0).is_none());
    assert!(Limiter::new(4).is_none());
    assert!(Limiter::new(1000).is_none());
}

#[test]
fn limiter_grants_the_burst_then_waits() {
    let limiter = Limiter::new(RATE_LIMIT).unwrap();
    assert_eq!(limiter.per_second(), 3);
    assert_eq!(limiter.poll(), AcquireAction::Proceed);
    let mut waits = 0;
    for _ in 0..20 {
        match limiter.poll() {
            AcquireAction::Proceed => {}
            AcquireAction::Wait { millis } => {
                assert_eq!(millis, 100);
                waits += 1;
            }
        }
    }
    assert!(waits > 0);
}
