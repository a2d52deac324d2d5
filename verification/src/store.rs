//! The show table: one row per external catalog id, with the rules that say
//! which columns an insert-or-update may change.

use vstd::prelude::*;
use crate::api::{api_season_views, ApiSeasonDetails, ApiSeasonView};
use crate::models::{
    clone_text, season_views, show_views, SeasonView, ShowView, TraktSeason, TraktShow,
};
use crate::status::{UserStatusSeason, UserStatusShow};

verus! {

/// Why a write to the store was refused.
#[derive(Clone, Copy, Debug, PartialEq, Eq, Structural)]
pub enum StorageError {
    /// The connection to the store failed.
    Connection,
    /// The row would break a constraint of its table.
    Constraint,
}

/// No two rows share an external catalog id.
pub open spec fn distinct_keys(rows: Seq<ShowView>) -> bool {
    forall|i: int, j: int|
        0 <= i < j < rows.len() ==> (#[trigger] rows[i]).imdb_id != (#[trigger] rows[j]).imdb_id
}

/// Some row has the external catalog id `key`.
pub open spec fn has_key(rows: Seq<ShowView>, key: Seq<char>) -> bool {
    exists|i: int| 0 <= i < rows.len() && (#[trigger] rows[i]).imdb_id == key
}

/// The place of a row with the external catalog id `key`.
pub open spec fn key_index(rows: Seq<ShowView>, key: Seq<char>) -> int {
    choose|i: int| 0 <= i < rows.len() && (#[trigger] rows[i]).imdb_id == key
}

/// The row stored under `key`, if there is one.
pub open spec fn row_of(rows: Seq<ShowView>, key: Seq<char>) -> Option<ShowView> {
    if has_key(rows, key) {
        Some(rows[key_index(rows, key)])
    } else {
        None
    }
}

/// The numeric id after a write: the incoming one where it is given, else the
/// stored one. A numeric id is filled in or replaced, never cleared.
pub open spec fn kept_numeric_id(stored: Option<i32>, incoming: Option<i32>) -> Option<i32> {
    if incoming is Some {
        incoming
    } else {
        stored
    }
}

/// The row that results when a single upsert meets a stored row: numeric id,
/// watch status and overview come from the incoming record, all else stays.
pub open spec fn resolve_update(stored: ShowView, incoming: ShowView) -> ShowView {
    ShowView {
        trakt_id: kept_numeric_id(stored.trakt_id, incoming.trakt_id),
        user_status: incoming.user_status,
        overview: incoming.overview,
        ..stored
    }
}

/// The row that results when a bulk upsert meets a stored row: release year,
/// season count and episode count come from the incoming record, all else stays.
pub open spec fn resolve_refresh(stored: ShowView, incoming: ShowView) -> ShowView {
    ShowView {
        release_year: incoming.release_year,
        no_seasons: incoming.no_seasons,
        no_episodes: incoming.no_episodes,
        ..stored
    }
}

/// The table after a single upsert of `show`.
pub open spec fn upserted(rows: Seq<ShowView>, show: ShowView) -> Seq<ShowView> {
    if has_key(rows, show.imdb_id) {
        let i = key_index(rows, show.imdb_id);
        rows.update(i, resolve_update(rows[i], show))
    } else {
        rows.push(show)
    }
}

/// The table after one row of a bulk upsert.
pub open spec fn refreshed(rows: Seq<ShowView>, show: ShowView) -> Seq<ShowView> {
    if has_key(rows, show.imdb_id) {
        let i = key_index(rows, show.imdb_id);
        rows.update(i, resolve_refresh(rows[i], show))
    } else {
        rows.push(show)
    }
}

/// The table after a bulk upsert of `batch`, row by row from the front.
pub open spec fn bulk_refreshed(rows: Seq<ShowView>, batch: Seq<ShowView>) -> Seq<ShowView>
    decreases batch.len(),
{
    if batch.len() == 0 {
        rows
    } else {
        bulk_refreshed(refreshed(rows, batch[0]), batch.skip(1))
    }
}

/// A show belongs to the default listing: it is not declined, and its release
/// year is known and at most one year ahead of `current_year`.
pub open spec fn is_listed(show: ShowView, current_year: int) -> bool {
    &&& show.user_status != UserStatusShow::Unwatched
    &&& show.release_year is Some
    &&& show.release_year->0 <= current_year + 1
}

/// Release years that are known do not decrease along the list.
pub open spec fn ordered_by_year(rows: Seq<ShowView>) -> bool {
    forall|i: int, j: int|
        0 <= i < j < rows.len() && (#[trigger] rows[i]).release_year is Some
            && (#[trigger] rows[j]).release_year is Some
            ==> rows[i].release_year->0 <= rows[j].release_year->0
}

/// No two season rows share a numeric id.
pub open spec fn distinct_season_ids(rows: Seq<SeasonView>) -> bool {
    forall|i: int, j: int| 0 <= i < j < rows.len() ==> (#[trigger] rows[i]).id != (#[trigger] rows[j]).id
}

/// No two season rows of one show share a season number.
pub open spec fn distinct_season_numbers(rows: Seq<SeasonView>) -> bool {
    forall|i: int, j: int|
        0 <= i < j < rows.len() && (#[trigger] rows[i]).show_id == (#[trigger] rows[j]).show_id
            ==> rows[i].season_number != rows[j].season_number
}

/// Some season row has the numeric id `id`.
pub open spec fn has_season(rows: Seq<SeasonView>, id: i32) -> bool {
    exists|i: int| 0 <= i < rows.len() && (#[trigger] rows[i]).id == id
}

/// The place of a season row with the numeric id `id`.
pub open spec fn season_index(rows: Seq<SeasonView>, id: i32) -> int {
    choose|i: int| 0 <= i < rows.len() && (#[trigger] rows[i]).id == id
}

/// Another season of the show `show_id` already has the season number `number`.
pub open spec fn number_taken(rows: Seq<SeasonView>, id: i32, show_id: i32, number: i32) -> bool {
    exists|i: int|
        0 <= i < rows.len() && (#[trigger] rows[i]).id != id && rows[i].show_id == show_id
            && rows[i].season_number == number
}

/// Some show has the numeric id `show_id`.
pub open spec fn has_parent(shows: Seq<ShowView>, show_id: i32) -> bool {
    exists|i: int| 0 <= i < shows.len() && (#[trigger] shows[i]).trakt_id == Some(show_id)
}

/// Every season belongs to a show that has its numeric id.
pub open spec fn seasons_have_parents(shows: Seq<ShowView>, seasons: Seq<SeasonView>) -> bool {
    forall|k: int| 0 <= k < seasons.len() ==> has_parent(shows, (#[trigger] seasons[k]).show_id)
}

/// Some season belongs to the show with the numeric id `show_id`.
pub open spec fn has_seasons(seasons: Seq<SeasonView>, show_id: i32) -> bool {
    exists|k: int| 0 <= k < seasons.len() && (#[trigger] seasons[k]).show_id == show_id
}

/// The single upsert of `show` is refused: it would replace a numeric id
/// that stored seasons belong to.
pub open spec fn upsert_refused(
    shows: Seq<ShowView>,
    seasons: Seq<SeasonView>,
    show: ShowView,
) -> bool {
    has_key(shows, show.imdb_id) && ({
        let stored = shows[key_index(shows, show.imdb_id)].trakt_id;
        &&& stored is Some
        &&& kept_numeric_id(stored, show.trakt_id) != stored
        &&& has_seasons(seasons, stored->0)
    })
}

/// The season table after an upsert of `season` into a store whose shows
/// are `shows`, or `None` where the upsert is refused. A stored numeric id
/// has its season number updated and nothing else; a new one inserts the
/// row, provided that a show has the season's `show_id` as its numeric id.
/// Either is refused where another season of the same show has the season
/// number.
pub open spec fn season_upserted(
    shows: Seq<ShowView>,
    rows: Seq<SeasonView>,
    season: SeasonView,
) -> Option<Seq<SeasonView>> {
    if has_season(rows, season.id) {
        let i = season_index(rows, season.id);
        if number_taken(rows, season.id, rows[i].show_id, season.season_number) {
            None
        } else {
            Some(rows.update(i, SeasonView { season_number: season.season_number, ..rows[i] }))
        }
    } else {
        if !has_parent(shows, season.show_id) || number_taken(
            rows,
            season.id,
            season.show_id,
            season.season_number,
        ) {
            None
        } else {
            Some(rows.push(season))
        }
    }
}

/// The season table after the upserts of `batch` from the front up to the
/// first refusal, and whether every one was applied.
pub open spec fn seasons_applied(
    shows: Seq<ShowView>,
    rows: Seq<SeasonView>,
    batch: Seq<SeasonView>,
) -> (Seq<SeasonView>, bool)
    decreases batch.len(),
{
    if batch.len() == 0 {
        (rows, true)
    } else {
        match season_upserted(shows, rows, batch[0]) {
            Some(next) => seasons_applied(shows, next, batch.skip(1)),
            None => (rows, false),
        }
    }
}

/// The numbers of a season of the remote service fit the columns of the
/// season table.
pub open spec fn api_season_fits(season: ApiSeasonView) -> bool {
    &&& season.ids.trakt <= i32::MAX
    &&& season.number <= i32::MAX
    &&& season.episode_count <= i32::MAX
}

/// The season row made from a season of the remote service for the show with
/// the numeric id `show_id`.
pub open spec fn season_of_api(show_id: i32, season: ApiSeasonView) -> SeasonView {
    SeasonView {
        id: season.ids.trakt as i32,
        title: season.title,
        first_aired: Some(season.first_aired),
        show_id,
        season_number: season.number as i32,
        episode_count: season.episode_count as i32,
        user_status: UserStatusSeason::Unfilled,
    }
}

/// The season rows made from the seasons of the remote service.
pub open spec fn seasons_of_api(show_id: i32, seasons: Seq<ApiSeasonView>) -> Seq<SeasonView> {
    seasons.map_values(|s: ApiSeasonView| season_of_api(show_id, s))
}

/// Every season of the list fits the columns of the season table.
pub open spec fn api_seasons_fit(seasons: Seq<ApiSeasonView>) -> bool {
    forall|i: int| 0 <= i < seasons.len() ==> api_season_fits(#[trigger] seasons[i])
}

/// The season row for a season of the remote service, or `None` where one of
/// its numbers does not fit.
pub fn season_from_api(show_id: i32, season: &ApiSeasonDetails) -> (row: Option<TraktSeason>)
    ensures
        match row {
            Some(r) => api_season_fits(season@) && r@ == season_of_api(show_id, season@),
            None => !api_season_fits(season@),
        },
{
    if season.ids.trakt > 2147483647u32 || season.number > 2147483647usize || season.episode_count
        > 2147483647usize {
        return None;
    }
    Some(
        TraktSeason {
            id: season.ids.trakt as i32,
            title: season.title.clone(),
            first_aired: Some(season.first_aired),
            show_id,
            season_number: season.number as i32,
            episode_count: season.episode_count as i32,
            user_status: UserStatusSeason::Unfilled,
        },
    )
}

/// The season rows for the seasons of the remote service, or `None` where a
/// number of one of them does not fit.
pub fn seasons_from_api(show_id: i32, seasons: &Vec<ApiSeasonDetails>) -> (rows: Option<
    Vec<TraktSeason>,
>)
    ensures
        rows is Some <==> api_seasons_fit(api_season_views(seasons@)),
        rows is Some ==> season_views(rows->0@) == seasons_of_api(
            show_id,
            api_season_views(seasons@),
        ),
{
    let mut rows: Vec<TraktSeason> = Vec::new();
    let mut i: usize = 0;
    while i < seasons.len()
        invariant
            i <= seasons.len(),
            rows.len() == i,
            forall|j: int| 0 <= j < i ==> api_season_fits(#[trigger] seasons[j]@),
            forall|j: int| 0 <= j < i ==> (#[trigger] rows[j])@ == season_of_api(show_id, seasons[j]@),
        decreases seasons.len() - i,
    {
        match season_from_api(show_id, &seasons[i]) {
            Some(row) => {
                rows.push(row);
            },
            None => {
                proof {
                    assert(api_season_views(seasons@)[i as int] == seasons[i as int]@);
                }
                return None;
            },
        }
        i += 1;
    }
    proof {
        assert forall|j: int| 0 <= j < seasons.len() implies api_season_fits(
            #[trigger] api_season_views(seasons@)[j],
        ) by {
            assert(api_season_fits(seasons[j]@));
        }
        assert(season_views(rows@) =~= seasons_of_api(show_id, api_season_views(seasons@)));
    }
    Some(rows)
}

/// The place at which a show released in `year` enters a listing: behind
/// the shows at its head that were released in `year` or earlier.
pub open spec fn place_for(listing: Seq<ShowView>, year: int) -> int
    decreases listing.len(),
{
    if listing.len() == 0 || listing[0].release_year->0 > year {
        0
    } else {
        1 + place_for(listing.skip(1), year)
    }
}

/// The default listing of `rows` in the year `current_year`: the listed rows
/// by ascending release year, rows of one year in the order of the table.
pub open spec fn default_listing(rows: Seq<ShowView>, current_year: int) -> Seq<ShowView>
    decreases rows.len(),
{
    if rows.len() == 0 {
        Seq::empty()
    } else {
        let before = default_listing(rows.drop_last(), current_year);
        let row = rows.last();
        if is_listed(row, current_year) {
            before.insert(place_for(before, row.release_year->0 as int), row)
        } else {
            before
        }
    }
}

/// `listing` is the default listing of `rows` in the year `current_year`: it
/// holds the listed rows, each as often as the table does, and no others, by
/// ascending release year, rows of one year in the order of the table.
pub open spec fn is_listing(rows: Seq<ShowView>, current_year: int, listing: Seq<ShowView>) -> bool {
    &&& listing == default_listing(rows, current_year)
    &&& forall|k: int| 0 <= k < listing.len() ==> is_listed(#[trigger] listing[k], current_year)
    &&& ordered_by_year(listing)
    &&& listing.to_multiset() == rows.filter(|s: ShowView| is_listed(s, current_year)).to_multiset()
}

/// `listing` is the default listing of `rows` in the year `year`.
pub open spec fn is_listing_in(rows: Seq<ShowView>, year: i32, listing: Seq<ShowView>) -> bool {
    is_listing(rows, year as int, listing)
}

/// `listing` is the default listing of `rows` in some year.
pub open spec fn is_listing_in_some_year(rows: Seq<ShowView>, listing: Seq<ShowView>) -> bool {
    exists|year: i32| #[trigger] is_listing_in(rows, year, listing)
}

/// `chrono::Utc::now` followed by `chrono::Datelike::year`: the calendar year
/// of the system clock in UTC. The result depends on the moment of the call,
/// so nothing is claimed of it. The clock is expected not to stand before the
/// Unix epoch.
#[verifier::external_body]
fn current_utc_year() -> (year: i32) {
    chrono::Datelike::year(&chrono::Utc::now())
}

/// The row written when `incoming` meets `stored` in a single upsert.
pub fn merge_update(stored: &TraktShow, incoming: &TraktShow) -> (row: TraktShow)
    ensures
        row@ == resolve_update(stored@, incoming@),
{
    TraktShow {
        imdb_id: stored.imdb_id.clone(),
        trakt_id: if incoming.trakt_id.is_some() { incoming.trakt_id } else { stored.trakt_id },
        primary_title: stored.primary_title.clone(),
        original_title: stored.original_title.clone(),
        country: clone_text(&stored.country),
        release_year: stored.release_year,
        network: clone_text(&stored.network),
        no_seasons: stored.no_seasons,
        no_episodes: stored.no_episodes,
        overview: clone_text(&incoming.overview),
        user_status: incoming.user_status,
    }
}

/// The row written when `incoming` meets `stored` in a bulk upsert.
pub fn merge_refresh(stored: &TraktShow, incoming: &TraktShow) -> (row: TraktShow)
    ensures
        row@ == resolve_refresh(stored@, incoming@),
{
    TraktShow {
        imdb_id: stored.imdb_id.clone(),
        trakt_id: stored.trakt_id,
        primary_title: stored.primary_title.clone(),
        original_title: stored.original_title.clone(),
        country: clone_text(&stored.country),
        release_year: incoming.release_year,
        network: clone_text(&stored.network),
        no_seasons: incoming.no_seasons,
        no_episodes: incoming.no_episodes,
        overview: clone_text(&stored.overview),
        user_status: stored.user_status,
    }
}

/// The show table and the season table, held in memory.
pub struct ShowStore {
    shows: Vec<TraktShow>,
    seasons: Vec<TraktSeason>,
}

impl ShowStore {
    /// The rows of the show table, in the order in which they were inserted.
    pub closed spec fn rows(&self) -> Seq<ShowView> {
        show_views(self.shows@)
    }

    /// The rows of the season table, in the order in which they were inserted.
    pub closed spec fn season_rows(&self) -> Seq<SeasonView> {
        season_views(self.seasons@)
    }

    /// The store's invariant: the external catalog id is a key of the show
    /// table, the numeric id is a key of the season table, a season number
    /// occurs once within a show, and every season belongs to a show that
    /// has its numeric id.
    pub open spec fn wf(&self) -> bool {
        &&& distinct_keys(self.rows())
        &&& distinct_season_ids(self.season_rows())
        &&& distinct_season_numbers(self.season_rows())
        &&& seasons_have_parents(self.rows(), self.season_rows())
    }

    /// An empty store.
    pub fn new() -> (store: ShowStore)
        ensures
            store.wf(),
            store.rows() == Seq::<ShowView>::empty(),
            store.season_rows() == Seq::<SeasonView>::empty(),
    {
        let store = ShowStore { shows: Vec::new(), seasons: Vec::new() };
        proof {
            assert(store.rows() =~= Seq::<ShowView>::empty());
            assert(store.season_rows() =~= Seq::<SeasonView>::empty());
        }
        store
    }

    /// The number of show rows.
    pub fn count_shows(&self) -> (count: usize)
        ensures
            count == self.rows().len(),
    {
        self.shows.len()
    }

    fn find(&self, key: &String) -> (found: Option<usize>)
        requires
            self.wf(),
        ensures
            found is Some <==> has_key(self.rows(), key@),
            found is Some ==> found->0 == key_index(self.rows(), key@) && found->0 < self.rows().len(),
    {
        let mut i: usize = 0;
        while i < self.shows.len()
            invariant
                self.wf(),
                i <= self.shows.len(),
                self.rows().len() == self.shows.len(),
                forall|j: int| 0 <= j < i ==> (#[trigger] self.rows()[j]).imdb_id != key@,
            decreases self.shows.len() - i,
        {
            if self.shows[i].imdb_id == *key {
                proof {
                    let rows = self.rows();
                    assert(rows[i as int].imdb_id == key@);
                    assert(has_key(rows, key@));
                    let c = key_index(rows, key@);
                    assert(0 <= c < rows.len() && rows[c].imdb_id == key@);
                    if c < i {
                        assert(rows[c].imdb_id != rows[i as int].imdb_id);
                    } else if c > i {
                        assert(rows[i as int].imdb_id != rows[c].imdb_id);
                    }
                }
                return Some(i);
            }
            i += 1;
        }
        None
    }

    fn seasons_belong_to(&self, show_id: i32) -> (found: bool)
        ensures
            found == has_seasons(self.season_rows(), show_id),
    {
        let mut k: usize = 0;
        while k < self.seasons.len()
            invariant
                k <= self.seasons.len(),
                self.season_rows().len() == self.seasons.len(),
                forall|j: int| 0 <= j < k ==> (#[trigger] self.season_rows()[j]).show_id != show_id,
            decreases self.seasons.len() - k,
        {
            if self.seasons[k].show_id == show_id {
                proof {
                    assert(self.season_rows()[k as int].show_id == show_id);
                }
                return true;
            }
            k += 1;
        }
        false
    }

    fn parent_exists(&self, show_id: i32) -> (found: bool)
        ensures
            found == has_parent(self.rows(), show_id),
    {
        let mut i: usize = 0;
        while i < self.shows.len()
            invariant
                i <= self.shows.len(),
                self.rows().len() == self.shows.len(),
                forall|j: int| 0 <= j < i ==> (#[trigger] self.rows()[j]).trakt_id != Some(show_id),
            decreases self.shows.len() - i,
        {
            match self.shows[i].trakt_id {
                Some(id) => {
                    if id == show_id {
                        proof {
                            assert(self.rows()[i as int].trakt_id == Some(show_id));
                        }
                        return true;
                    }
                },
                None => {},
            }
            i += 1;
        }
        false
    }

    /// Inserts `show`, or on a row with the same external catalog id updates
    /// its numeric id, watch status and overview. Refused, with the store
    /// unchanged, exactly when it would replace a numeric id that stored
    /// seasons belong to.
    pub fn update_show(&mut self, show: TraktShow) -> (done: Result<(), StorageError>)
        requires
            old(self).wf(),
        ensures
            final(self).wf(),
            final(self).season_rows() == old(self).season_rows(),
            if upsert_refused(old(self).rows(), old(self).season_rows(), show@) {
                done == Err::<(), StorageError>(StorageError::Constraint) && final(self).rows()
                    == old(self).rows()
            } else {
                done is Ok && final(self).rows() == upserted(old(self).rows(), show@)
            },
    {
        match self.find(&show.imdb_id) {
            Some(i) => {
                let row = merge_update(&self.shows[i], &show);
                match self.shows[i].trakt_id {
                    Some(stored) => {
                        if row.trakt_id != Some(stored) && self.seasons_belong_to(stored) {
                            return Err(StorageError::Constraint);
                        }
                    },
                    None => {},
                }
                self.shows[i] = row;
                proof {
                    let before = old(self).rows();
                    let after = self.rows();
                    assert(after =~= upserted(before, show@));
                    lemma_upsert_keeps_parents(before, old(self).season_rows(), show@);
                    assert forall|a: int, b: int| 0 <= a < b < after.len() implies (
                    #[trigger] after[a]).imdb_id != (#[trigger] after[b]).imdb_id by {
                        assert(after[a].imdb_id == before[a].imdb_id);
                        assert(after[b].imdb_id == before[b].imdb_id);
                    }
                }
            },
            None => {
                self.shows.push(show);
                proof {
                    let before = old(self).rows();
                    let after = self.rows();
                    assert(after =~= upserted(before, show@));
                    lemma_upsert_keeps_parents(before, old(self).season_rows(), show@);
                    assert forall|a: int, b: int| 0 <= a < b < after.len() implies (
                    #[trigger] after[a]).imdb_id != (#[trigger] after[b]).imdb_id by {
                        if b == before.len() {
                            assert(before[a].imdb_id != show@.imdb_id);
                        } else {
                            assert(after[a] == before[a] && after[b] == before[b]);
                        }
                    }
                }
            },
        }
        Ok(())
    }

    /// The stored row with the external catalog id `key`, if there is one.
    pub fn get_show(&self, key: &String) -> (row: Option<TraktShow>)
        requires
            self.wf(),
        ensures
            match row {
                Some(show) => row_of(self.rows(), key@) == Some(show@),
                None => row_of(self.rows(), key@) is None,
            },
    {
        match self.find(key) {
            Some(i) => Some(self.shows[i].clone()),
            None => None,
        }
    }

    fn refresh_one(&mut self, show: &TraktShow)
        requires
            old(self).wf(),
        ensures
            final(self).wf(),
            final(self).rows() == refreshed(old(self).rows(), show@),
            final(self).season_rows() == old(self).season_rows(),
    {
        match self.find(&show.imdb_id) {
            Some(i) => {
                let row = merge_refresh(&self.shows[i], show);
                self.shows[i] = row;
                proof {
                    let before = old(self).rows();
                    let after = self.rows();
                    assert(after =~= refreshed(before, show@));
                    lemma_same_ids_keep_parents(before, after, self.season_rows());
                    assert forall|a: int, b: int| 0 <= a < b < after.len() implies (
                    #[trigger] after[a]).imdb_id != (#[trigger] after[b]).imdb_id by {
                        assert(after[a].imdb_id == before[a].imdb_id);
                        assert(after[b].imdb_id == before[b].imdb_id);
                    }
                }
            },
            None => {
                self.shows.push(show.clone());
                proof {
                    let before = old(self).rows();
                    let after = self.rows();
                    assert(after =~= refreshed(before, show@));
                    lemma_same_ids_keep_parents(before, after, self.season_rows());
                    assert forall|a: int, b: int| 0 <= a < b < after.len() implies (
                    #[trigger] after[a]).imdb_id != (#[trigger] after[b]).imdb_id by {
                        if b == before.len() {
                            assert(before[a].imdb_id != show@.imdb_id);
                        } else {
                            assert(after[a] == before[a] && after[b] == before[b]);
                        }
                    }
                }
            },
        }
    }

    /// Bulk upsert of a dataset dump, row by row in the order given: a row
    /// with a new external catalog id is inserted, one that meets a stored row
    /// updates its release year, season count and episode count.
    /// Never fails in memory.
    pub fn prefill_from_imdb(&mut self, rows: &Vec<TraktShow>) -> (done: Result<(), StorageError>)
        requires
            old(self).wf(),
        ensures
            done is Ok,
            final(self).wf(),
            final(self).rows() == bulk_refreshed(old(self).rows(), show_views(rows@)),
            final(self).season_rows() == old(self).season_rows(),
    {
        let ghost batch = show_views(rows@);
        let mut i: usize = 0;
        proof {
            assert(batch.skip(0) =~= batch);
        }
        while i < rows.len()
            invariant
                i <= rows.len(),
                batch == show_views(rows@),
                self.wf(),
                self.season_rows() == old(self).season_rows(),
                bulk_refreshed(old(self).rows(), batch) == bulk_refreshed(
                    self.rows(),
                    batch.skip(i as int),
                ),
            decreases rows.len() - i,
        {
            proof {
                assert(batch.skip(i as int)[0] == rows[i as int]@);
                assert(batch.skip(i as int).skip(1) =~= batch.skip(i + 1));
            }
            self.refresh_one(&rows[i]);
            i += 1;
        }
        Ok(())
    }

    /// The number of season rows.
    pub fn count_seasons(&self) -> (count: usize)
        ensures
            count == self.season_rows().len(),
    {
        self.seasons.len()
    }

    fn find_season(&self, id: i32) -> (found: Option<usize>)
        requires
            self.wf(),
        ensures
            found is Some <==> has_season(self.season_rows(), id),
            found is Some ==> found->0 == season_index(self.season_rows(), id) && found->0
                < self.season_rows().len(),
    {
        let mut i: usize = 0;
        while i < self.seasons.len()
            invariant
                self.wf(),
                i <= self.seasons.len(),
                self.season_rows().len() == self.seasons.len(),
                forall|j: int| 0 <= j < i ==> (#[trigger] self.season_rows()[j]).id != id,
            decreases self.seasons.len() - i,
        {
            if self.seasons[i].id == id {
                proof {
                    let rows = self.season_rows();
                    assert(rows[i as int].id == id);
                    assert(has_season(rows, id));
                    let c = season_index(rows, id);
                    assert(0 <= c < rows.len() && rows[c].id == id);
                    if c < i {
                        assert(rows[c].id != rows[i as int].id);
                    } else if c > i {
                        assert(rows[i as int].id != rows[c].id);
                    }
                }
                return Some(i);
            }
            i += 1;
        }
        None
    }

    /// The stored season with the numeric id `id`, if there is one.
    pub fn get_season(&self, id: i32) -> (row: Option<TraktSeason>)
        requires
            self.wf(),
        ensures
            row is Some <==> has_season(self.season_rows(), id),
            row is Some ==> row->0@ == self.season_rows()[season_index(self.season_rows(), id)],
    {
        match self.find_season(id) {
            Some(i) => Some(self.seasons[i].clone()),
            None => None,
        }
    }

    fn season_number_taken(&self, id: i32, show_id: i32, number: i32) -> (taken: bool)
        ensures
            taken == number_taken(self.season_rows(), id, show_id, number),
    {
        let mut i: usize = 0;
        while i < self.seasons.len()
            invariant
                i <= self.seasons.len(),
                self.season_rows().len() == self.seasons.len(),
                forall|j: int|
                    0 <= j < i ==> !((#[trigger] self.season_rows()[j]).id != id
                        && self.season_rows()[j].show_id == show_id
                        && self.season_rows()[j].season_number == number),
            decreases self.seasons.len() - i,
        {
            let row = &self.seasons[i];
            if row.id != id && row.show_id == show_id && row.season_number == number {
                proof {
                    assert(self.season_rows()[i as int] == row@);
                }
                return true;
            }
            i += 1;
        }
        false
    }

    /// Inserts `season`, or on a row with the same numeric id updates its
    /// season number and nothing else. Refused, with the store unchanged,
    /// exactly when another season of the same show has that season number,
    /// or when the season is new and no show has its `show_id` as numeric id.
    pub fn update_season(&mut self, season: TraktSeason) -> (done: Result<(), StorageError>)
        requires
            old(self).wf(),
        ensures
            final(self).wf(),
            final(self).rows() == old(self).rows(),
            match season_upserted(old(self).rows(), old(self).season_rows(), season@) {
                Some(rows) => done is Ok && final(self).season_rows() == rows,
                None => done == Err::<(), StorageError>(StorageError::Constraint)
                    && final(self).season_rows() == old(self).season_rows(),
            },
    {
        match self.find_season(season.id) {
            Some(i) => {
                let show_id = self.seasons[i].show_id;
                if self.season_number_taken(season.id, show_id, season.season_number) {
                    return Err(StorageError::Constraint);
                }
                let row = TraktSeason {
                    id: self.seasons[i].id,
                    title: self.seasons[i].title.clone(),
                    first_aired: self.seasons[i].first_aired,
                    show_id,
                    season_number: season.season_number,
                    episode_count: self.seasons[i].episode_count,
                    user_status: self.seasons[i].user_status,
                };
                self.seasons[i] = row;
                proof {
                    let before = old(self).season_rows();
                    let after = self.season_rows();
                    assert(after =~= season_upserted(self.rows(), before, season@)->0);
                    lemma_season_upserted_wf(self.rows(), before, season@);
                }
            },
            None => {
                if !self.parent_exists(season.show_id) {
                    return Err(StorageError::Constraint);
                }
                if self.season_number_taken(season.id, season.show_id, season.season_number) {
                    return Err(StorageError::Constraint);
                }
                self.seasons.push(season);
                proof {
                    let before = old(self).season_rows();
                    let after = self.season_rows();
                    assert(after =~= season_upserted(self.rows(), before, season@)->0);
                    lemma_season_upserted_wf(self.rows(), before, season@);
                }
            },
        }
        Ok(())
    }

    /// Stores the seasons of `show` as the remote service lists them, one
    /// upsert per season in the order given. Refused before any write where
    /// `show` has no numeric id or a number of a season does not fit its
    /// column. The first refused upsert ends the call; the seasons written
    /// before it stay. A new season is refused unless a stored show has the
    /// numeric id of `show`.
    pub fn update_show_with_seasons(
        &mut self,
        show: &TraktShow,
        api_seasons: &Vec<ApiSeasonDetails>,
    ) -> (done: Result<Vec<TraktSeason>, StorageError>)
        requires
            old(self).wf(),
        ensures
            final(self).wf(),
            final(self).rows() == old(self).rows(),
            show.trakt_id is None || !api_seasons_fit(api_season_views(api_seasons@)) ==> done
                == Err::<Vec<TraktSeason>, StorageError>(StorageError::Constraint)
                && final(self).season_rows() == old(self).season_rows(),
            show.trakt_id is Some && api_seasons_fit(api_season_views(api_seasons@)) ==> ({
                let batch = seasons_of_api(show.trakt_id->0, api_season_views(api_seasons@));
                let outcome = seasons_applied(old(self).rows(), old(self).season_rows(), batch);
                &&& final(self).season_rows() == outcome.0
                &&& outcome.1 ==> done is Ok && season_views(done->Ok_0@) == batch
                &&& !outcome.1 ==> done == Err::<Vec<TraktSeason>, StorageError>(
                    StorageError::Constraint,
                )
            }),
    {
        let show_id = match show.trakt_id {
            Some(id) => id,
            None => {
                return Err(StorageError::Constraint);
            },
        };
        let rows = match seasons_from_api(show_id, api_seasons) {
            Some(rows) => rows,
            None => {
                return Err(StorageError::Constraint);
            },
        };
        let ghost batch = season_views(rows@);
        let mut i: usize = 0;
        proof {
            assert(batch.skip(0) =~= batch);
        }
        while i < rows.len()
            invariant
                i <= rows.len(),
                batch == season_views(rows@),
                batch == seasons_of_api(show_id, api_season_views(api_seasons@)),
                show.trakt_id == Some(show_id),
                api_seasons_fit(api_season_views(api_seasons@)),
                self.wf(),
                self.rows() == old(self).rows(),
                seasons_applied(old(self).rows(), old(self).season_rows(), batch)
                    == seasons_applied(self.rows(), self.season_rows(), batch.skip(i as int)),
            decreases rows.len() - i,
        {
            proof {
                assert(batch.skip(i as int).len() > 0);
                assert(batch.skip(i as int)[0] == rows[i as int]@);
                assert(batch.skip(i as int).skip(1) =~= batch.skip(i + 1));
            }
            match self.update_season(rows[i].clone()) {
                Ok(()) => {},
                Err(_) => {
                    return Err(StorageError::Constraint);
                },
            }
            i += 1;
        }
        Ok(rows)
    }

    /// The default listing in the year the system clock shows.
    pub fn filtered_shows(&self) -> (listing: Vec<TraktShow>)
        ensures
            is_listing_in_some_year(self.rows(), show_views(listing@)),
            forall|k: int|
                0 <= k < listing.len() ==> (#[trigger] listing[k]).user_status
                    != UserStatusShow::Unwatched,
    {
        let year = current_utc_year();
        let listing = self.filtered_shows_as_of(year);
        proof {
            assert(is_listing_in(self.rows(), year, show_views(listing@)));
            assert forall|k: int| 0 <= k < listing.len() implies (#[trigger] listing[k]).user_status
                != UserStatusShow::Unwatched by {
                assert(is_listed(show_views(listing@)[k], year as int));
            }
        }
        listing
    }

    /// The default listing in the year `current_year`: every stored show that
    /// is not declined and whose release year is known and at most
    /// `current_year + 1`, by ascending release year.
    pub fn filtered_shows_as_of(&self, current_year: i32) -> (listing: Vec<TraktShow>)
        ensures
            is_listing(self.rows(), current_year as int, show_views(listing@)),
    {
        let ghost listed = |s: ShowView| is_listed(s, current_year as int);
        let mut listing: Vec<TraktShow> = Vec::new();
        let mut i: usize = 0;
        proof {
            assert(self.rows().take(0) =~= Seq::<ShowView>::empty());
            assert(Seq::<ShowView>::empty().filter(listed) =~= Seq::<ShowView>::empty()) by {
                reveal(Seq::filter);
            }
            assert(show_views(listing@) =~= Seq::<ShowView>::empty());
        }
        while i < self.shows.len()
            invariant
                i <= self.shows.len(),
                self.rows().len() == self.shows.len(),
                listed == (|s: ShowView| is_listed(s, current_year as int)),
                forall|k: int|
                    0 <= k < listing.len() ==> is_listed(
                        #[trigger] show_views(listing@)[k],
                        current_year as int,
                    ),
                ordered_by_year(show_views(listing@)),
                show_views(listing@).to_multiset() == self.rows().take(i as int).filter(
                    listed,
                ).to_multiset(),
                show_views(listing@) == default_listing(
                    self.rows().take(i as int),
                    current_year as int,
                ),
            decreases self.shows.len() - i,
        {
            let ghost seen = self.rows().take(i as int);
            let ghost before = show_views(listing@);
            proof {
                assert(self.rows().take(i + 1) =~= seen.push(self.rows()[i as int]));
                assert(self.rows().take(i + 1).drop_last() =~= seen);
                seen.lemma_filter_push(self.rows()[i as int], listed);
                assert(self.rows()[i as int] == self.shows[i as int]@);
            }
            let show = &self.shows[i];
            let keep = match show.release_year {
                Some(year) => show.user_status != UserStatusShow::Unwatched && (year
                    <= current_year || year - 1 <= current_year),
                None => false,
            };
            if keep {
                let year = show.release_year.unwrap();
                proof {
                    assert forall|k: int| 0 <= k < listing.len() implies (
                    #[trigger] listing[k]).release_year is Some by {
                        assert(is_listed(show_views(listing@)[k], current_year as int));
                    }
                }
                let place = insertion_place(&listing, year);
                listing.insert(place, show.clone());
                proof {
                    let after = show_views(listing@);
                    assert(after =~= before.insert(place as int, show@));
                    lemma_insert_to_multiset(before, place as int, show@);
                    broadcast use vstd::seq_lib::to_multiset_build;
                    assert forall|k: int| 0 <= k < after.len() implies is_listed(
                        #[trigger] after[k],
                        current_year as int,
                    ) by {
                        if k < place {
                            assert(after[k] == before[k]);
                        } else if k > place {
                            assert(after[k] == before[k - 1]);
                        }
                    }
                    assert forall|a: int, b: int|
                        0 <= a < b < after.len() && (#[trigger] after[a]).release_year is Some
                            && (#[trigger] after[b]).release_year is Some
                        implies after[a].release_year->0 <= after[b].release_year->0 by {
                        let pa = if a < place { a } else { a - 1 };
                        let pb = if b < place { b } else { b - 1 };
                        if a != place {
                            assert(after[a] == before[pa]);
                        }
                        if b != place {
                            assert(after[b] == before[pb]);
                        }
                    }
                }
            }
            i += 1;
        }
        proof {
            assert(self.rows().take(i as int) =~= self.rows());
        }
        listing
    }
}

/// The first place in `listing` whose release year is known and above `year`,
/// or the end of the list.
fn insertion_place(listing: &Vec<TraktShow>, year: i32) -> (place: usize)
    requires
        ordered_by_year(show_views(listing@)),
        forall|k: int| 0 <= k < listing.len() ==> (#[trigger] listing[k]).release_year is Some,
    ensures
        place <= listing.len(),
        place == place_for(show_views(listing@), year as int),
        forall|k: int| 0 <= k < place ==> (#[trigger] listing[k]).release_year->0 <= year,
        forall|k: int|
            place <= k < listing.len() ==> (#[trigger] listing[k]).release_year->0 > year,
{
    let ghost views = show_views(listing@);
    let mut place: usize = 0;
    proof {
        assert(views.skip(0) =~= views);
    }
    while place < listing.len()
        invariant
            place <= listing.len(),
            views == show_views(listing@),
            place_for(views, year as int) == place + place_for(
                views.skip(place as int),
                year as int,
            ),
            ordered_by_year(show_views(listing@)),
            forall|k: int| 0 <= k < listing.len() ==> (#[trigger] listing[k]).release_year is Some,
            forall|k: int| 0 <= k < place ==> (#[trigger] listing[k]).release_year->0 <= year,
        decreases listing.len() - place,
    {
        proof {
            assert(views.skip(place as int)[0] == listing[place as int]@);
            assert(views.skip(place as int).skip(1) =~= views.skip(place + 1));
        }
        match listing[place].release_year {
            Some(y) => {
                if y > year {
                    proof {
                        assert forall|k: int| place <= k < listing.len() implies (
                        #[trigger] listing[k]).release_year->0 > year by {
                            assert(views[place as int] == listing[place as int]@);
                            assert(views[k] == listing[k]@);
                        }
                    }
                    return place;
                }
            },
            None => {},
        }
        place += 1;
    }
    place
}

/// Inserting an element into a sequence adds it once to the multiset of its elements.
pub proof fn lemma_insert_to_multiset<A>(s: Seq<A>, i: int, a: A)
    requires
        0 <= i <= s.len(),
    ensures
        s.insert(i, a).to_multiset() == s.to_multiset().insert(a),
{
    let t = s.insert(i, a);
    assert(t.remove(i) =~= s);
    vstd::seq_lib::to_multiset_remove(t, i);
    t.to_multiset_ensures();
    assert(t.contains(a)) by {
        assert(t[i] == a);
    }
    assert(t.to_multiset() =~= s.to_multiset().insert(a));
}

/// An accepted season upsert keeps the numeric ids distinct, the season
/// numbers distinct within each show, and every season with a parent.
pub proof fn lemma_season_upserted_wf(
    shows: Seq<ShowView>,
    rows: Seq<SeasonView>,
    season: SeasonView,
)
    requires
        distinct_season_ids(rows),
        distinct_season_numbers(rows),
        seasons_have_parents(shows, rows),
        season_upserted(shows, rows, season) is Some,
    ensures
        distinct_season_ids(season_upserted(shows, rows, season)->0),
        distinct_season_numbers(season_upserted(shows, rows, season)->0),
        seasons_have_parents(shows, season_upserted(shows, rows, season)->0),
{
    let after = season_upserted(shows, rows, season)->0;
    assert forall|k: int| 0 <= k < after.len() implies has_parent(
        shows,
        (#[trigger] after[k]).show_id,
    ) by {
        if k < rows.len() {
            assert(after[k].show_id == rows[k].show_id);
        }
    }
    if has_season(rows, season.id) {
        let c = season_index(rows, season.id);
        assert(0 <= c < rows.len() && rows[c].id == season.id);
        assert forall|i: int, j: int| 0 <= i < j < after.len() implies (#[trigger] after[i]).id != (
        #[trigger] after[j]).id by {
            assert(after[i].id == rows[i].id && after[j].id == rows[j].id);
        }
        assert forall|i: int, j: int|
            0 <= i < j < after.len() && (#[trigger] after[i]).show_id == (
            #[trigger] after[j]).show_id implies after[i].season_number
            != after[j].season_number by {
            assert(after[i].show_id == rows[i].show_id && after[j].show_id == rows[j].show_id);
            if i == c {
                assert(rows[j].id != season.id);
            } else if j == c {
                assert(rows[i].id != season.id);
            } else {
                assert(after[i] == rows[i] && after[j] == rows[j]);
            }
        }
    } else {
        assert forall|i: int, j: int| 0 <= i < j < after.len() implies (#[trigger] after[i]).id != (
        #[trigger] after[j]).id by {
            if j == rows.len() {
                assert(rows[i].id != season.id);
            } else {
                assert(after[i] == rows[i] && after[j] == rows[j]);
            }
        }
        assert forall|i: int, j: int|
            0 <= i < j < after.len() && (#[trigger] after[i]).show_id == (
            #[trigger] after[j]).show_id implies after[i].season_number
            != after[j].season_number by {
            if j == rows.len() {
                assert(after[i] == rows[i]);
                assert(rows[i].id != season.id);
            } else {
                assert(after[i] == rows[i] && after[j] == rows[j]);
            }
        }
    }
}

/// A table of shows that keeps every place's numeric id, and may have grown,
/// keeps every season with a parent.
pub proof fn lemma_same_ids_keep_parents(
    before: Seq<ShowView>,
    after: Seq<ShowView>,
    seasons: Seq<SeasonView>,
)
    requires
        seasons_have_parents(before, seasons),
        before.len() <= after.len(),
        forall|i: int| 0 <= i < before.len() ==> (#[trigger] after[i]).trakt_id == before[i].trakt_id,
    ensures
        seasons_have_parents(after, seasons),
{
    assert forall|k: int| 0 <= k < seasons.len() implies has_parent(
        after,
        (#[trigger] seasons[k]).show_id,
    ) by {
        assert(has_parent(before, seasons[k].show_id));
        let i = choose|i: int|
            0 <= i < before.len() && (#[trigger] before[i]).trakt_id == Some(seasons[k].show_id);
        assert(after[i].trakt_id == Some(seasons[k].show_id));
    }
}

/// A single upsert that is not refused keeps every season with a parent.
pub proof fn lemma_upsert_keeps_parents(
    shows: Seq<ShowView>,
    seasons: Seq<SeasonView>,
    show: ShowView,
)
    requires
        seasons_have_parents(shows, seasons),
        !upsert_refused(shows, seasons, show),
    ensures
        seasons_have_parents(upserted(shows, show), seasons),
{
    let after = upserted(shows, show);
    assert forall|k: int| 0 <= k < seasons.len() implies has_parent(
        after,
        (#[trigger] seasons[k]).show_id,
    ) by {
        let id = seasons[k].show_id;
        assert(has_parent(shows, id));
        let i = choose|i: int| 0 <= i < shows.len() && (#[trigger] shows[i]).trakt_id == Some(id);
        if has_key(shows, show.imdb_id) {
            let c = key_index(shows, show.imdb_id);
            if i == c {
                assert(has_seasons(seasons, id));
                assert(after[i].trakt_id == Some(id));
            } else {
                assert(after[i].trakt_id == Some(id));
            }
        } else {
            assert(after[i].trakt_id == Some(id));
        }
    }
}

} // verus!
