//! The bulk dataset and the start-up reconciliation of the in-memory snapshot
//! with the store.

use vstd::prelude::*;
use crate::models::{clone_shows, show_views, ShowView, TraktShow};
use crate::status::UserStatusShow;
use crate::store::{
    bulk_refreshed, is_listing, is_listing_in_some_year, ShowStore, StorageError,
};

verus! {

/// A store with fewer show rows than this is cold and is filled from the
/// bulk dataset.
pub const POPULATION_THRESHOLD: usize = 100;

/// Why the bulk dataset cannot be had.
#[derive(Clone, Copy, Debug, PartialEq, Eq, Structural)]
pub enum SourceError {
    /// The library fetches nothing: the dump has to be on disk already.
    DownloadUnavailable,
}

/// Fetching the dataset dump is not offered: every call reports so.
pub fn _download_source() -> (done: Result<(), SourceError>)
    ensures
        done == Err::<(), SourceError>(SourceError::DownloadUnavailable),
{
    Err(SourceError::DownloadUnavailable)
}

/// One record of the dataset dump.
#[derive(Clone, Debug, PartialEq, Eq)]
pub struct ImdbShow {
    pub tconst: String,
    pub title_type: String,
    pub primary_title: Option<String>,
    pub original_title: Option<String>,
    pub start_year: Option<i64>,
    pub end_year: Option<i64>,
}

/// A title type that stands for a series.
pub open spec fn is_series_type(title_type: Seq<char>) -> bool {
    title_type == "tvSeries"@ || title_type == "tvMiniSeries"@
}

/// The record is a series.
pub open spec fn is_series(record: ImdbShow) -> bool {
    is_series_type(record.title_type@)
}

/// The record carries both titles.
pub open spec fn has_titles(record: ImdbShow) -> bool {
    record.primary_title is Some && record.original_title is Some
}

/// The series among `records`, in their order.
pub open spec fn series_of(records: Seq<ImdbShow>) -> Seq<ImdbShow> {
    records.filter(|r: ImdbShow| is_series(r))
}

/// The release year of a show whose first year the dump gives as `year`: the
/// number cut down to 32 bits.
pub open spec fn year_of_dump(year: Option<i64>) -> Option<i32> {
    match year {
        Some(y) => Some(y as i32),
        None => None,
    }
}

/// The show that a dataset record with both titles stands for: not yet
/// looked up at the remote service, and still to be watched.
pub open spec fn show_of_record(record: ImdbShow) -> ShowView {
    ShowView {
        imdb_id: record.tconst@,
        trakt_id: None,
        primary_title: record.primary_title->0@,
        original_title: record.original_title->0@,
        country: None,
        release_year: year_of_dump(record.start_year),
        network: None,
        no_seasons: None,
        no_episodes: None,
        overview: None,
        user_status: UserStatusShow::Todo,
    }
}

/// The title type stands for a series.
pub fn is_series_title(title_type: &String) -> (yes: bool)
    ensures
        yes == is_series_type(title_type@),
{
    let series = String::from_str("tvSeries");
    let mini = String::from_str("tvMiniSeries");
    *title_type == series || *title_type == mini
}

/// The show for one dataset record, or `None` where a title is missing.
pub fn show_from_record(record: &ImdbShow) -> (show: Option<TraktShow>)
    ensures
        show is Some <==> has_titles(*record),
        show is Some ==> show->0@ == show_of_record(*record),
{
    let primary_title = match &record.primary_title {
        Some(t) => t.clone(),
        None => {
            return None;
        },
    };
    let original_title = match &record.original_title {
        Some(t) => t.clone(),
        None => {
            return None;
        },
    };
    let release_year = match record.start_year {
        Some(y) => Some(#[verifier::truncate] (y as i32)),
        None => None,
    };
    Some(
        TraktShow {
            imdb_id: record.tconst.clone(),
            trakt_id: None,
            primary_title,
            original_title,
            country: None,
            release_year,
            network: None,
            no_seasons: None,
            no_episodes: None,
            overview: None,
            user_status: UserStatusShow::Todo,
        },
    )
}

/// The shows of a dataset dump: every series among `records`, in the order
/// of the dump, each as a show that is still to be watched. `None` exactly
/// when one of the series lacks a title.
pub fn load_show_vec_from_source(records: &Vec<ImdbShow>) -> (shows: Option<Vec<TraktShow>>)
    ensures
        ({
            let series = series_of(records@);
            &&& shows is Some <==> forall|k: int|
                0 <= k < series.len() ==> has_titles(#[trigger] series[k])
            &&& shows is Some ==> show_views(shows->0@) == series.map_values(
                |r: ImdbShow| show_of_record(r),
            )
        }),
{
    let ghost pred = |r: ImdbShow| is_series(r);
    let mut shows: Vec<TraktShow> = Vec::new();
    let mut i: usize = 0;
    proof {
        assert(records@.take(0) =~= Seq::<ImdbShow>::empty());
        assert(Seq::<ImdbShow>::empty().filter(pred) =~= Seq::<ImdbShow>::empty()) by {
            reveal(Seq::filter);
        }
    }
    while i < records.len()
        invariant
            i <= records.len(),
            pred == (|r: ImdbShow| is_series(r)),
            shows.len() == records@.take(i as int).filter(pred).len(),
            forall|k: int|
                0 <= k < shows.len() ==> has_titles(
                    #[trigger] records@.take(i as int).filter(pred)[k],
                ),
            forall|k: int|
                0 <= k < shows.len() ==> (#[trigger] shows[k])@ == show_of_record(
                    records@.take(i as int).filter(pred)[k],
                ),
        decreases records.len() - i,
    {
        let ghost seen = records@.take(i as int);
        proof {
            assert(records@.take(i + 1) =~= seen.push(records[i as int]));
            seen.lemma_filter_push(records[i as int], pred);
        }
        if is_series_title(&records[i].title_type) {
            match show_from_record(&records[i]) {
                Some(show) => {
                    shows.push(show);
                },
                None => {
                    proof {
                        let series = series_of(records@);
                        let kept = seen.filter(pred);
                        assert(records@ =~= records@.take(i + 1) + records@.skip(i + 1));
                        Seq::filter_distributes_over_add(
                            records@.take(i + 1),
                            records@.skip(i + 1),
                            pred,
                        );
                        assert(series[kept.len() as int] == records[i as int]);
                        assert(!has_titles(series[kept.len() as int]));
                    }
                    return None;
                },
            }
        }
        i += 1;
    }
    proof {
        assert(records@.take(i as int) =~= records@);
        assert(show_views(shows@) =~= series_of(records@).map_values(
            |r: ImdbShow| show_of_record(r),
        ));
    }
    Some(shows)
}

/// A store with `row_count` show rows is cold.
pub fn is_cold(row_count: usize) -> (cold: bool)
    ensures
        cold == (row_count < POPULATION_THRESHOLD),
{
    row_count < POPULATION_THRESHOLD
}

/// The snapshot at start-up, in the year `current_year`. A cold store takes
/// the whole of `source` by bulk upsert, and `source` is the snapshot; a warm
/// store stays as it is, and its default listing is the snapshot.
pub fn load_combined_data_sources_as_of(
    db: &mut ShowStore,
    source: &Vec<TraktShow>,
    current_year: i32,
) -> (loaded: Result<Vec<TraktShow>, StorageError>)
    requires
        old(db).wf(),
    ensures
        final(db).wf(),
        final(db).season_rows() == old(db).season_rows(),
        loaded is Ok,
        old(db).rows().len() < POPULATION_THRESHOLD ==> {
            &&& final(db).rows() == bulk_refreshed(old(db).rows(), show_views(source@))
            &&& show_views(loaded->Ok_0@) == show_views(source@)
        },
        old(db).rows().len() >= POPULATION_THRESHOLD ==> {
            &&& final(db).rows() == old(db).rows()
            &&& is_listing(old(db).rows(), current_year as int, show_views(loaded->Ok_0@))
        },
{
    let row_count = db.count_shows();
    if is_cold(row_count) {
        match db.prefill_from_imdb(source) {
            Ok(()) => Ok(clone_shows(source)),
            Err(e) => Err(e),
        }
    } else {
        Ok(db.filtered_shows_as_of(current_year))
    }
}

/// The snapshot at start-up, in the year the system clock shows.
pub fn load_combined_data_sources(db: &mut ShowStore, source: &Vec<TraktShow>) -> (loaded: Result<
    Vec<TraktShow>,
    StorageError,
>)
    requires
        old(db).wf(),
    ensures
        final(db).wf(),
        final(db).season_rows() == old(db).season_rows(),
        loaded is Ok,
        old(db).rows().len() < POPULATION_THRESHOLD ==> {
            &&& final(db).rows() == bulk_refreshed(old(db).rows(), show_views(source@))
            &&& show_views(loaded->Ok_0@) == show_views(source@)
        },
        old(db).rows().len() >= POPULATION_THRESHOLD ==> {
            &&& final(db).rows() == old(db).rows()
            &&& is_listing_in_some_year(old(db).rows(), show_views(loaded->Ok_0@))
        },
{
    let row_count = db.count_shows();
    if is_cold(row_count) {
        match db.prefill_from_imdb(source) {
            Ok(()) => Ok(clone_shows(source)),
            Err(e) => Err(e),
        }
    } else {
        Ok(db.filtered_shows())
    }
}

/// The in-memory snapshot of the catalog, taken once at start-up.
#[derive(Debug)]
pub struct DataManager {
    items: Vec<TraktShow>,
}

impl DataManager {
    /// The shows of the snapshot, in their order.
    pub closed spec fn snapshot(&self) -> Seq<ShowView> {
        show_views(self.items@)
    }

    /// Takes the snapshot in the year the system clock shows.
    pub fn init(db: &mut ShowStore, source: &Vec<TraktShow>) -> (made: Result<
        DataManager,
        StorageError,
    >)
        requires
            old(db).wf(),
        ensures
            final(db).wf(),
            final(db).season_rows() == old(db).season_rows(),
            made is Ok,
            old(db).rows().len() < POPULATION_THRESHOLD ==> {
                &&& final(db).rows() == bulk_refreshed(old(db).rows(), show_views(source@))
                &&& made->Ok_0.snapshot() == show_views(source@)
            },
            old(db).rows().len() >= POPULATION_THRESHOLD ==> {
                &&& final(db).rows() == old(db).rows()
                &&& is_listing_in_some_year(old(db).rows(), made->Ok_0.snapshot())
            },
    {
        match load_combined_data_sources(db, source) {
            Ok(items) => Ok(DataManager { items }),
            Err(e) => Err(e),
        }
    }

    /// Takes the snapshot in the year `current_year`.
    pub fn init_as_of(db: &mut ShowStore, source: &Vec<TraktShow>, current_year: i32) -> (made:
        Result<DataManager, StorageError>)
        requires
            old(db).wf(),
        ensures
            final(db).wf(),
            final(db).season_rows() == old(db).season_rows(),
            made is Ok,
            old(db).rows().len() < POPULATION_THRESHOLD ==> {
                &&& final(db).rows() == bulk_refreshed(old(db).rows(), show_views(source@))
                &&& made->Ok_0.snapshot() == show_views(source@)
            },
            old(db).rows().len() >= POPULATION_THRESHOLD ==> {
                &&& final(db).rows() == old(db).rows()
                &&& is_listing(old(db).rows(), current_year as int, made->Ok_0.snapshot())
            },
    {
        match load_combined_data_sources_as_of(db, source, current_year) {
            Ok(items) => Ok(DataManager { items }),
            Err(e) => Err(e),
        }
    }

    /// One turn of the servicer. A request is answered with the whole
    /// snapshot, whatever it says; `None`, the sign that every sender of
    /// requests is gone, ends the servicer with no answer and no error.
    pub fn serve(&self, request: Option<String>) -> (reply: Option<Vec<TraktShow>>)
        ensures
            reply is Some <==> request is Some,
            reply is Some ==> show_views(reply->0@) == self.snapshot(),
    {
        match request {
            Some(q) => self.query(q),
            None => None,
        }
    }

    /// Answers a query: always the whole snapshot, whatever the query says.
    pub fn query(&self, _q: String) -> (answer: Option<Vec<TraktShow>>)
        ensures
            answer is Some,
            show_views(answer->0@) == self.snapshot(),
    {
        Some(clone_shows(&self.items))
    }
}

} // verus!
