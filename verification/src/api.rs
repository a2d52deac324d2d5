//! Record shapes of the remote catalog-detail service.

use vstd::prelude::*;
use crate::models::text_view;

verus! {

/// The identifiers the remote service knows a show or a season by.
#[derive(Clone, Debug, PartialEq, Eq)]
pub struct ApiIDs {
    pub trakt: u32,
    pub slug: Option<String>,
    pub imdb: Option<String>,
}

pub ghost struct ApiIDsView {
    pub trakt: u32,
    pub slug: Option<Seq<char>>,
    pub imdb: Option<Seq<char>>,
}

impl View for ApiIDs {
    type V = ApiIDsView;

    open spec fn view(&self) -> ApiIDsView {
        ApiIDsView { trakt: self.trakt, slug: text_view(self.slug), imdb: text_view(self.imdb) }
    }
}

/// One show of a search result.
#[derive(Clone, Debug, PartialEq, Eq)]
pub struct ApiShow {
    pub title: String,
    pub year: Option<u32>,
    pub ids: ApiIDs,
}

/// One match of a search, with its score.
#[derive(Clone, Debug, PartialEq, Eq)]
pub struct ApiMatch {
    pub _type: String,
    pub score: u32,
    pub show: ApiShow,
}

/// The answer to a search.
#[derive(Clone, Debug, PartialEq, Eq)]
pub struct ApiResponse {
    pub results: Vec<ApiMatch>,
}

/// The answer to a show-detail request. `first_aired` is a Unix time in seconds.
#[derive(Clone, Debug, PartialEq, Eq)]
pub struct ApiShowDetails {
    pub title: String,
    pub year: u32,
    pub ids: ApiIDs,
    pub overview: String,
    pub first_aired: i64,
    pub network: String,
    pub country: String,
    pub aired_episodes: u32,
}

/// One season of the answer to a season-list request. `first_aired` is a Unix
/// time in seconds.
#[derive(Clone, Debug, PartialEq, Eq)]
pub struct ApiSeasonDetails {
    pub number: usize,
    pub ids: ApiIDs,
    pub episode_count: usize,
    pub title: String,
    pub first_aired: i64,
    pub overview: Option<String>,
    pub network: String,
}

pub ghost struct ApiSeasonView {
    pub number: usize,
    pub ids: ApiIDsView,
    pub episode_count: usize,
    pub title: Seq<char>,
    pub first_aired: i64,
    pub overview: Option<Seq<char>>,
    pub network: Seq<char>,
}

impl View for ApiSeasonDetails {
    type V = ApiSeasonView;

    open spec fn view(&self) -> ApiSeasonView {
        ApiSeasonView {
            number: self.number,
            ids: self.ids@,
            episode_count: self.episode_count,
            title: self.title@,
            first_aired: self.first_aired,
            overview: text_view(self.overview),
            network: self.network@,
        }
    }
}

/// The views of a list of seasons of the remote service, in the same order.
pub open spec fn api_season_views(seasons: Seq<ApiSeasonDetails>) -> Seq<ApiSeasonView> {
    seasons.map_values(|s: ApiSeasonDetails| s@)
}

/// The shows of a search answer, best match first as the service sent them.
pub fn matched_shows(response: ApiResponse) -> (shows: Vec<ApiShow>)
    ensures
        shows@ == response.results@.map_values(|m: ApiMatch| m.show),
{
    let mut results = response.results;
    let ghost all = results@;
    let mut shows: Vec<ApiShow> = Vec::new();
    while results.len() > 0
        invariant
            results.len() <= all.len(),
            results@ == all.take(results.len() as int),
            shows.len() + results.len() == all.len(),
            forall|k: int|
                0 <= k < shows.len() ==> #[trigger] shows[k] == all[all.len() - 1 - k].show,
        decreases results.len(),
    {
        let found = results.pop();
        match found {
            Some(m) => {
                shows.push(m.show);
            },
            None => {},
        }
        proof {
            assert(results@ =~= all.take(results.len() as int));
        }
    }
    let mut ordered: Vec<ApiShow> = Vec::new();
    while shows.len() > 0
        invariant
            shows.len() + ordered.len() == all.len(),
            forall|k: int|
                0 <= k < shows.len() ==> #[trigger] shows[k] == all[all.len() - 1 - k].show,
            forall|k: int| 0 <= k < ordered.len() ==> #[trigger] ordered[k] == all[k].show,
        decreases shows.len(),
    {
        let found = shows.pop();
        match found {
            Some(show) => {
                ordered.push(show);
            },
            None => {},
        }
    }
    proof {
        assert(ordered@ =~= all.map_values(|m: ApiMatch| m.show));
    }
    ordered
}

} // verus!
