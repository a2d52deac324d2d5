//! Record shapes of the catalog and their mathematical views.

use vstd::prelude::*;
use crate::status::{UserStatusEpisode, UserStatusSeason, UserStatusShow};

verus! {

/// A show of the catalog. `imdb_id` is the external catalog id and the key of
/// the show table; `trakt_id` is the numeric id the remote service assigns.
#[derive(Debug, PartialEq, Eq)]
pub struct TraktShow {
    pub imdb_id: String,
    pub trakt_id: Option<i32>,
    pub primary_title: String,
    pub original_title: String,
    pub country: Option<String>,
    pub release_year: Option<i32>,
    pub network: Option<String>,
    pub no_seasons: Option<i32>,
    pub no_episodes: Option<i32>,
    pub overview: Option<String>,
    pub user_status: UserStatusShow,
}

/// What a [`TraktShow`] is, with every text as a sequence of characters.
pub ghost struct ShowView {
    pub imdb_id: Seq<char>,
    pub trakt_id: Option<i32>,
    pub primary_title: Seq<char>,
    pub original_title: Seq<char>,
    pub country: Option<Seq<char>>,
    pub release_year: Option<i32>,
    pub network: Option<Seq<char>>,
    pub no_seasons: Option<i32>,
    pub no_episodes: Option<i32>,
    pub overview: Option<Seq<char>>,
    pub user_status: UserStatusShow,
}

/// A season of a show. `id` is the key of the season table, `show_id` the
/// numeric id of the parent show, `first_aired` a Unix time in seconds.
#[derive(Debug, PartialEq, Eq)]
pub struct TraktSeason {
    pub id: i32,
    pub title: String,
    pub first_aired: Option<i64>,
    pub show_id: i32,
    pub season_number: i32,
    pub episode_count: i32,
    pub user_status: UserStatusSeason,
}

pub ghost struct SeasonView {
    pub id: i32,
    pub title: Seq<char>,
    pub first_aired: Option<i64>,
    pub show_id: i32,
    pub season_number: i32,
    pub episode_count: i32,
    pub user_status: UserStatusSeason,
}

/// An episode of a season. The two times are Unix times in seconds.
#[derive(Debug, PartialEq, Eq)]
pub struct TraktEpisode {
    pub id: i32,
    pub show_id: i32,
    pub season_number: i32,
    pub episode_number: i32,
    pub title: String,
    pub first_aired: Option<i64>,
    pub watched_at: Option<i64>,
    pub user_status: UserStatusEpisode,
}

pub ghost struct EpisodeView {
    pub id: i32,
    pub show_id: i32,
    pub season_number: i32,
    pub episode_number: i32,
    pub title: Seq<char>,
    pub first_aired: Option<i64>,
    pub watched_at: Option<i64>,
    pub user_status: UserStatusEpisode,
}

/// The moment, as a Unix time in seconds, at which the user watched a show.
#[derive(Debug, PartialEq, Eq)]
pub struct UserDateTimeStatus {
    pub imdb_id: String,
    pub trakt_id: i32,
    pub watched: i64,
}

/// The view of an optional text.
pub open spec fn text_view(text: Option<String>) -> Option<Seq<char>> {
    match text {
        Some(s) => Some(s@),
        None => None,
    }
}

/// The views of a list of shows, in the same order.
pub open spec fn show_views(shows: Seq<TraktShow>) -> Seq<ShowView> {
    shows.map_values(|s: TraktShow| s@)
}

/// The views of a list of seasons, in the same order.
pub open spec fn season_views(seasons: Seq<TraktSeason>) -> Seq<SeasonView> {
    seasons.map_values(|s: TraktSeason| s@)
}

/// A copy of an optional text.
pub fn clone_text(text: &Option<String>) -> (copy: Option<String>)
    ensures
        text_view(copy) == text_view(*text),
{
    match text {
        Some(s) => Some(s.clone()),
        None => None,
    }
}

impl View for TraktShow {
    type V = ShowView;

    open spec fn view(&self) -> ShowView {
        ShowView {
            imdb_id: self.imdb_id@,
            trakt_id: self.trakt_id,
            primary_title: self.primary_title@,
            original_title: self.original_title@,
            country: text_view(self.country),
            release_year: self.release_year,
            network: text_view(self.network),
            no_seasons: self.no_seasons,
            no_episodes: self.no_episodes,
            overview: text_view(self.overview),
            user_status: self.user_status,
        }
    }
}

impl Clone for TraktShow {
    fn clone(&self) -> (copy: TraktShow)
        ensures
            copy@ == self@,
    {
        TraktShow {
            imdb_id: self.imdb_id.clone(),
            trakt_id: self.trakt_id,
            primary_title: self.primary_title.clone(),
            original_title: self.original_title.clone(),
            country: clone_text(&self.country),
            release_year: self.release_year,
            network: clone_text(&self.network),
            no_seasons: self.no_seasons,
            no_episodes: self.no_episodes,
            overview: clone_text(&self.overview),
            user_status: self.user_status,
        }
    }
}

impl View for TraktSeason {
    type V = SeasonView;

    open spec fn view(&self) -> SeasonView {
        SeasonView {
            id: self.id,
            title: self.title@,
            first_aired: self.first_aired,
            show_id: self.show_id,
            season_number: self.season_number,
            episode_count: self.episode_count,
            user_status: self.user_status,
        }
    }
}

impl Clone for TraktSeason {
    fn clone(&self) -> (copy: TraktSeason)
        ensures
            copy@ == self@,
    {
        TraktSeason {
            id: self.id,
            title: self.title.clone(),
            first_aired: self.first_aired,
            show_id: self.show_id,
            season_number: self.season_number,
            episode_count: self.episode_count,
            user_status: self.user_status,
        }
    }
}

impl View for TraktEpisode {
    type V = EpisodeView;

    open spec fn view(&self) -> EpisodeView {
        EpisodeView {
            id: self.id,
            show_id: self.show_id,
            season_number: self.season_number,
            episode_number: self.episode_number,
            title: self.title@,
            first_aired: self.first_aired,
            watched_at: self.watched_at,
            user_status: self.user_status,
        }
    }
}

impl Clone for TraktEpisode {
    fn clone(&self) -> (copy: TraktEpisode)
        ensures
            copy@ == self@,
    {
        TraktEpisode {
            id: self.id,
            show_id: self.show_id,
            season_number: self.season_number,
            episode_number: self.episode_number,
            title: self.title.clone(),
            first_aired: self.first_aired,
            watched_at: self.watched_at,
            user_status: self.user_status,
        }
    }
}

impl Clone for UserDateTimeStatus {
    fn clone(&self) -> (copy: UserDateTimeStatus)
        ensures
            copy.imdb_id@ == self.imdb_id@,
            copy.trakt_id == self.trakt_id,
            copy.watched == self.watched,
    {
        UserDateTimeStatus {
            imdb_id: self.imdb_id.clone(),
            trakt_id: self.trakt_id,
            watched: self.watched,
        }
    }
}

/// A copy of a list of shows, record by record.
pub fn clone_shows(shows: &Vec<TraktShow>) -> (copy: Vec<TraktShow>)
    ensures
        show_views(copy@) == show_views(shows@),
{
    let mut copy: Vec<TraktShow> = Vec::new();
    let mut i: usize = 0;
    while i < shows.len()
        invariant
            i <= shows.len(),
            copy.len() == i,
            forall|j: int| 0 <= j < i ==> (#[trigger] copy[j])@ == shows[j]@,
        decreases shows.len() - i,
    {
        copy.push(shows[i].clone());
        i += 1;
    }
    proof {
        assert(show_views(copy@) =~= show_views(shows@));
    }
    copy
}

} // verus!
