//! What holds of the show table whatever its contents.

use vstd::prelude::*;
use crate::models::{SeasonView, ShowView};
use crate::status::UserStatusShow;
use crate::store::{
    bulk_refreshed, distinct_keys, has_key, has_parent, has_seasons, is_listed, is_listing,
    kept_numeric_id, key_index, refreshed, resolve_refresh, resolve_update, row_of,
    season_upserted, seasons_have_parents, upsert_refused, upserted,
};

verus! {

/// In a table whose keys are distinct, the row at place `i` is the row stored
/// under its own key.
pub proof fn lemma_key_index_at(rows: Seq<ShowView>, i: int)
    requires
        distinct_keys(rows),
        0 <= i < rows.len(),
    ensures
        has_key(rows, rows[i].imdb_id),
        key_index(rows, rows[i].imdb_id) == i,
        row_of(rows, rows[i].imdb_id) == Some(rows[i]),
{
    let key = rows[i].imdb_id;
    assert(has_key(rows, key));
    let c = key_index(rows, key);
    assert(0 <= c < rows.len() && rows[c].imdb_id == key);
    if c < i {
        assert(rows[c].imdb_id != rows[i].imdb_id);
    } else if c > i {
        assert(rows[i].imdb_id != rows[c].imdb_id);
    }
}

/// A single upsert keeps the keys distinct, changes the number of rows by one
/// exactly when the key is new, and touches no row under another key.
pub proof fn lemma_upserted_frame(rows: Seq<ShowView>, show: ShowView)
    requires
        distinct_keys(rows),
    ensures
        distinct_keys(upserted(rows, show)),
        has_key(upserted(rows, show), show.imdb_id),
        upserted(rows, show).len() == if has_key(rows, show.imdb_id) {
            rows.len()
        } else {
            rows.len() + 1
        },
        forall|key: Seq<char>|
            key != show.imdb_id ==> #[trigger] row_of(upserted(rows, show), key) == row_of(
                rows,
                key,
            ),
{
    let after = upserted(rows, show);
    if has_key(rows, show.imdb_id) {
        let i = key_index(rows, show.imdb_id);
        assert forall|a: int, b: int| 0 <= a < b < after.len() implies (#[trigger] after[a]).imdb_id
            != (#[trigger] after[b]).imdb_id by {
            assert(after[a].imdb_id == rows[a].imdb_id);
            assert(after[b].imdb_id == rows[b].imdb_id);
        }
        assert(after[i].imdb_id == show.imdb_id);
    } else {
        assert forall|a: int, b: int| 0 <= a < b < after.len() implies (#[trigger] after[a]).imdb_id
            != (#[trigger] after[b]).imdb_id by {
            if b == rows.len() {
                assert(rows[a].imdb_id != show.imdb_id);
            } else {
                assert(after[a] == rows[a] && after[b] == rows[b]);
            }
        }
        assert(after[rows.len() as int].imdb_id == show.imdb_id);
    }
    assert forall|key: Seq<char>| key != show.imdb_id implies #[trigger] row_of(after, key)
        == row_of(rows, key) by {
        lemma_other_rows_stay(rows, after, show.imdb_id, key);
    }
}

/// Two tables that agree on every row whose key is not `touched`, and differ
/// at most by a last row under `touched`, store the same under any other key.
proof fn lemma_other_rows_stay(
    rows: Seq<ShowView>,
    after: Seq<ShowView>,
    touched: Seq<char>,
    key: Seq<char>,
)
    requires
        distinct_keys(rows),
        distinct_keys(after),
        key != touched,
        rows.len() <= after.len() <= rows.len() + 1,
        forall|i: int| 0 <= i < rows.len() ==> (#[trigger] after[i]).imdb_id == rows[i].imdb_id,
        forall|i: int|
            0 <= i < rows.len() && rows[i].imdb_id != touched ==> #[trigger] after[i] == rows[i],
        after.len() > rows.len() ==> after[rows.len() as int].imdb_id == touched,
    ensures
        row_of(after, key) == row_of(rows, key),
{
    if has_key(rows, key) {
        let i = key_index(rows, key);
        assert(after[i] == rows[i]);
        lemma_key_index_at(after, i);
    } else if has_key(after, key) {
        let j = key_index(after, key);
        if j < rows.len() {
            assert(after[j].imdb_id == rows[j].imdb_id);
        }
    }
}

/// Upserting the same show a second time changes nothing.
pub proof fn lemma_update_show_idempotent(rows: Seq<ShowView>, show: ShowView)
    requires
        distinct_keys(rows),
    ensures
        upserted(upserted(rows, show), show) == upserted(rows, show),
{
    let once = upserted(rows, show);
    lemma_upserted_frame(rows, show);
    let i = key_index(once, show.imdb_id);
    assert(0 <= i < once.len() && once[i].imdb_id == show.imdb_id);
    if has_key(rows, show.imdb_id) {
        let c = key_index(rows, show.imdb_id);
        lemma_key_index_at(once, c);
    } else {
        lemma_key_index_at(once, rows.len() as int);
    }
    assert(resolve_update(once[i], show) == once[i]);
    assert(upserted(once, show) =~= once);
}

/// When a single upsert meets a stored row, the row keeps its identity,
/// titles, country, release year, network and counts; it takes the watch
/// status and overview of the incoming record, and its numeric id where one
/// is given.
pub proof fn lemma_update_show_conflict(rows: Seq<ShowView>, show: ShowView)
    requires
        distinct_keys(rows),
        has_key(rows, show.imdb_id),
    ensures
        upserted(rows, show).len() == rows.len(),
        row_of(upserted(rows, show), show.imdb_id) is Some,
        ({
            let stored = row_of(rows, show.imdb_id)->0;
            let row = row_of(upserted(rows, show), show.imdb_id)->0;
            &&& row.imdb_id == stored.imdb_id
            &&& row.primary_title == stored.primary_title
            &&& row.original_title == stored.original_title
            &&& row.country == stored.country
            &&& row.release_year == stored.release_year
            &&& row.network == stored.network
            &&& row.no_seasons == stored.no_seasons
            &&& row.no_episodes == stored.no_episodes
            &&& row.user_status == show.user_status
            &&& row.overview == show.overview
            &&& row.trakt_id == kept_numeric_id(stored.trakt_id, show.trakt_id)
        }),
{
    lemma_upserted_frame(rows, show);
    let c = key_index(rows, show.imdb_id);
    lemma_key_index_at(upserted(rows, show), c);
}

/// When one row of a bulk upsert meets a stored row, the row keeps its
/// identity, numeric id, titles, country, network, overview and watch status;
/// it takes the release year and the two counts of the incoming record. No
/// row under another key is touched, and the number of rows stays.
pub proof fn lemma_refresh_conflict(rows: Seq<ShowView>, show: ShowView)
    requires
        distinct_keys(rows),
        has_key(rows, show.imdb_id),
    ensures
        distinct_keys(refreshed(rows, show)),
        refreshed(rows, show).len() == rows.len(),
        row_of(refreshed(rows, show), show.imdb_id) is Some,
        ({
            let stored = row_of(rows, show.imdb_id)->0;
            let row = row_of(refreshed(rows, show), show.imdb_id)->0;
            &&& row.imdb_id == stored.imdb_id
            &&& row.trakt_id == stored.trakt_id
            &&& row.primary_title == stored.primary_title
            &&& row.original_title == stored.original_title
            &&& row.country == stored.country
            &&& row.network == stored.network
            &&& row.overview == stored.overview
            &&& row.user_status == stored.user_status
            &&& row.release_year == show.release_year
            &&& row.no_seasons == show.no_seasons
            &&& row.no_episodes == show.no_episodes
        }),
        forall|key: Seq<char>|
            key != show.imdb_id ==> #[trigger] row_of(refreshed(rows, show), key) == row_of(
                rows,
                key,
            ),
{
    let after = refreshed(rows, show);
    let c = key_index(rows, show.imdb_id);
    assert forall|a: int, b: int| 0 <= a < b < after.len() implies (#[trigger] after[a]).imdb_id != (
    #[trigger] after[b]).imdb_id by {
        assert(after[a].imdb_id == rows[a].imdb_id);
        assert(after[b].imdb_id == rows[b].imdb_id);
    }
    lemma_key_index_at(after, c);
    assert forall|key: Seq<char>| key != show.imdb_id implies #[trigger] row_of(after, key)
        == row_of(rows, key) by {
        lemma_other_rows_stay(rows, after, show.imdb_id, key);
    }
}

/// A show upserted under a new key is stored as given.
pub proof fn lemma_update_show_insert(rows: Seq<ShowView>, show: ShowView)
    requires
        distinct_keys(rows),
        !has_key(rows, show.imdb_id),
    ensures
        upserted(rows, show).len() == rows.len() + 1,
        row_of(upserted(rows, show), show.imdb_id) == Some(show),
{
    lemma_upserted_frame(rows, show);
    lemma_key_index_at(upserted(rows, show), rows.len() as int);
}

/// No write clears a numeric id: a row that has one before a single upsert or
/// one row of a bulk upsert has one after it.
pub proof fn lemma_numeric_id_never_cleared(rows: Seq<ShowView>, show: ShowView, i: int)
    requires
        distinct_keys(rows),
        0 <= i < rows.len(),
        rows[i].trakt_id is Some,
    ensures
        upserted(rows, show)[i].imdb_id == rows[i].imdb_id,
        upserted(rows, show)[i].trakt_id is Some,
        refreshed(rows, show)[i].imdb_id == rows[i].imdb_id,
        refreshed(rows, show)[i].trakt_id == rows[i].trakt_id,
{
    if has_key(rows, show.imdb_id) {
        let c = key_index(rows, show.imdb_id);
        assert(0 <= c < rows.len() && rows[c].imdb_id == show.imdb_id);
        assert(resolve_refresh(rows[c], show).trakt_id == rows[c].trakt_id);
    }
}

/// A bulk upsert of rows whose keys are distinct and new to the table
/// appends them as given, so the table grows by their number.
pub proof fn lemma_bulk_fresh(rows: Seq<ShowView>, batch: Seq<ShowView>)
    requires
        distinct_keys(rows + batch),
    ensures
        bulk_refreshed(rows, batch) == rows + batch,
        bulk_refreshed(rows, batch).len() == rows.len() + batch.len(),
    decreases batch.len(),
{
    let all = rows + batch;
    if batch.len() == 0 {
        assert(rows + batch =~= rows);
    } else {
        let head = batch[0];
        assert(all[rows.len() as int] == head);
        if has_key(rows, head.imdb_id) {
            let c = key_index(rows, head.imdb_id);
            assert(all[c] == rows[c]);
            assert(all[c].imdb_id != all[rows.len() as int].imdb_id);
        }
        assert(refreshed(rows, head) == rows.push(head));
        assert(rows.push(head) + batch.skip(1) =~= all);
        lemma_bulk_fresh(rows.push(head), batch.skip(1));
    }
}

/// A cold start on an empty store with a dataset whose keys are distinct
/// leaves exactly the dataset in the store.
pub proof fn lemma_cold_start_fills_store(batch: Seq<ShowView>)
    requires
        distinct_keys(batch),
    ensures
        bulk_refreshed(Seq::empty(), batch) == batch,
        bulk_refreshed(Seq::empty(), batch).len() == batch.len(),
{
    assert(Seq::<ShowView>::empty() + batch =~= batch);
    lemma_bulk_fresh(Seq::empty(), batch);
}

/// The default listing holds no declined show and no show released later
/// than the year after `current_year`, and every row of the table that is
/// listed is in it.
pub proof fn lemma_listing_content(rows: Seq<ShowView>, current_year: int, listing: Seq<ShowView>)
    requires
        is_listing(rows, current_year, listing),
    ensures
        forall|k: int|
            0 <= k < listing.len() ==> (#[trigger] listing[k]).user_status
                != UserStatusShow::Unwatched && listing[k].release_year is Some
                && listing[k].release_year->0 <= current_year + 1 && rows.contains(listing[k]),
        forall|i: int|
            0 <= i < rows.len() && is_listed(#[trigger] rows[i], current_year)
                ==> listing.contains(rows[i]),
{
    let listed = |s: ShowView| is_listed(s, current_year);
    let kept = rows.filter(listed);
    kept.to_multiset_ensures();
    listing.to_multiset_ensures();
    assert forall|k: int| 0 <= k < listing.len() implies rows.contains(#[trigger] listing[k]) by {
        assert(listing.contains(listing[k]));
        assert(kept.to_multiset().count(listing[k]) > 0);
        assert(kept.contains(listing[k]));
        rows.lemma_filter_contains_rev(listed, listing[k]);
    }
    assert forall|i: int|
        0 <= i < rows.len() && is_listed(#[trigger] rows[i], current_year) implies listing.contains(
        rows[i],
    ) by {
        assert(listed(rows[i]));
        rows.lemma_filter_contains(listed, i);
        assert(kept.contains(rows[i]));
        assert(kept.to_multiset().count(rows[i]) > 0);
    }
}

/// The upsert of a show that was just taken is taken again, and changes
/// nothing.
pub proof fn lemma_update_show_repeats(
    rows: Seq<ShowView>,
    seasons: Seq<SeasonView>,
    show: ShowView,
)
    requires
        distinct_keys(rows),
    ensures
        !upsert_refused(upserted(rows, show), seasons, show),
        upserted(upserted(rows, show), show) == upserted(rows, show),
{
    let once = upserted(rows, show);
    lemma_upserted_frame(rows, show);
    lemma_update_show_idempotent(rows, show);
    if has_key(rows, show.imdb_id) {
        lemma_key_index_at(once, key_index(rows, show.imdb_id));
    } else {
        lemma_key_index_at(once, rows.len() as int);
    }
}

/// A single upsert is never refused where the key is new, where the stored
/// row has no numeric id, where the incoming record brings none or the same,
/// or where no season belongs to the stored numeric id. A toggle of a row as
/// the store holds it is therefore always taken.
pub proof fn lemma_upsert_taken(rows: Seq<ShowView>, seasons: Seq<SeasonView>, show: ShowView)
    requires
        distinct_keys(rows),
        !has_key(rows, show.imdb_id) || ({
            let stored = row_of(rows, show.imdb_id)->0.trakt_id;
            stored is None || show.trakt_id is None || show.trakt_id == stored || !has_seasons(
                seasons,
                stored->0,
            )
        }),
    ensures
        !upsert_refused(rows, seasons, show),
{
}

/// In a store whose seasons all have parents, a season that is taken leaves
/// every season with a parent, and a new season is taken only if a show has
/// its `show_id` as numeric id.
pub proof fn lemma_season_needs_parent(
    shows: Seq<ShowView>,
    rows: Seq<SeasonView>,
    season: SeasonView,
)
    requires
        seasons_have_parents(shows, rows),
        season_upserted(shows, rows, season) is Some,
    ensures
        seasons_have_parents(shows, season_upserted(shows, rows, season)->0),
        has_parent(shows, season.show_id) || crate::store::has_season(rows, season.id),
{
    let after = season_upserted(shows, rows, season)->0;
    assert forall|k: int| 0 <= k < after.len() implies has_parent(
        shows,
        (#[trigger] after[k]).show_id,
    ) by {
        if k < rows.len() {
            assert(after[k].show_id == rows[k].show_id);
        }
    }
}

/// The default listing of a table in a year is one list: two results for the
/// same table and year are equal, row by row.
pub proof fn lemma_listing_unique(
    rows: Seq<ShowView>,
    current_year: int,
    first: Seq<ShowView>,
    second: Seq<ShowView>,
)
    requires
        is_listing(rows, current_year, first),
        is_listing(rows, current_year, second),
    ensures
        first == second,
{
}

} // verus!
