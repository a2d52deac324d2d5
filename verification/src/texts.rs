//! The texts of the views: what each row of the tables and each line of the
//! panels says. Layout and drawing are left to the caller.

use vstd::prelude::*;
use crate::api::{ApiSeasonDetails, ApiShowDetails};
use crate::interface::AppMode;
use crate::models::{SeasonView, ShowView, TraktSeason, TraktShow};

verus! {

/// The character of the decimal digit `d`.
pub open spec fn digit_char(d: int) -> char {
    if d == 0 {
        '0'
    } else if d == 1 {
        '1'
    } else if d == 2 {
        '2'
    } else if d == 3 {
        '3'
    } else if d == 4 {
        '4'
    } else if d == 5 {
        '5'
    } else if d == 6 {
        '6'
    } else if d == 7 {
        '7'
    } else if d == 8 {
        '8'
    } else {
        '9'
    }
}

/// The decimal digits of a natural number, without leading zeros.
pub open spec fn decimal_nat(n: nat) -> Seq<char>
    decreases n,
{
    if n < 10 {
        seq![digit_char(n as int)]
    } else {
        decimal_nat(n / 10).push(digit_char((n % 10) as int))
    }
}

/// The decimal text of an integer, with a minus sign where it is negative.
pub open spec fn decimal_int(i: int) -> Seq<char> {
    if i < 0 {
        seq!['-'] + decimal_nat((-i) as nat)
    } else {
        decimal_nat(i as nat)
    }
}

/// The texts of a list of strings, in the same order.
pub open spec fn texts_of(lines: Seq<String>) -> Seq<Seq<char>> {
    lines.map_values(|s: String| s@)
}

/// An optional text, empty where it is missing.
pub open spec fn text_or_empty(text: Option<Seq<char>>) -> Seq<char> {
    match text {
        Some(t) => t,
        None => Seq::empty(),
    }
}

/// An optional number, zero where it is missing.
pub open spec fn number_or_zero(number: Option<i32>) -> int {
    match number {
        Some(n) => n as int,
        None => 0,
    }
}

/// The release year as the show table prints it.
pub open spec fn year_text(year: Option<i32>) -> Seq<char> {
    match year {
        Some(y) => decimal_int(y as int),
        None => "<unreleased>"@,
    }
}

/// The cells of a show's row of the show table: external catalog id,
/// original title, release year, watch status.
pub open spec fn show_row_text(show: ShowView) -> Seq<Seq<char>> {
    seq![
        show.imdb_id,
        show.original_title,
        year_text(show.release_year),
        show.user_status.label_text(),
    ]
}

/// The lines of a show's summary panel.
pub open spec fn show_summary_text(show: ShowView) -> Seq<Seq<char>> {
    seq![
        Seq::empty(),
        "Release Year: "@ + decimal_int(number_or_zero(show.release_year)),
        "Network: "@ + text_or_empty(show.network),
        decimal_int(number_or_zero(show.no_seasons)) + " seasons, "@ + decimal_int(
            number_or_zero(show.no_episodes),
        ) + " episodes"@,
        Seq::empty(),
        text_or_empty(show.overview),
    ]
}

/// The second from which a season's day is printed: the first airing, or the
/// start of the Unix time where that is unknown.
pub open spec fn aired_or_epoch(first_aired: Option<i64>) -> i64 {
    match first_aired {
        Some(t) => t,
        None => 0,
    }
}

/// The cells of a season's row of the season table, given the text of the
/// day it first aired: season number, title, episode count, that day in UTC,
/// watch status.
pub open spec fn season_row_text(season: SeasonView, day: Option<Seq<char>>) -> Seq<Seq<char>> {
    seq![
        decimal_int(season.season_number as int),
        season.title,
        decimal_int(season.episode_count as int),
        text_or_empty(day) + " UTC"@,
        season.user_status.label_text(),
    ]
}

/// The lines of the panel above the seasons of a show on view.
pub open spec fn details_text(year: u32, network: Seq<char>, episodes: u32, overview: Seq<char>) -> Seq<
    Seq<char>,
> {
    seq![
        Seq::empty(),
        "Release Year: "@ + decimal_nat(year as nat),
        "Network: "@ + network,
        "Episodes: "@ + decimal_nat(episodes as nat),
        Seq::empty(),
        overview,
    ]
}

/// The cells of a row of the seasons of a show on view, given the text of
/// the day the season first aired: number, title, episode count, that day.
pub open spec fn api_season_row_text(
    number: usize,
    title: Seq<char>,
    episode_count: usize,
    day: Option<Seq<char>>,
) -> Seq<Seq<char>> {
    seq![decimal_nat(number as nat), title, decimal_nat(episode_count as nat), text_or_empty(day)]
}

/// What `chrono` prints for the day, in UTC, of the second `unix_seconds` of
/// the Unix time under the pattern `%Y-%m-%d`; `None` for a second that
/// `chrono` cannot hold.
pub uninterp spec fn day_text(unix_seconds: i64) -> Option<Seq<char>>;

/// `chrono::DateTime::from_timestamp` and `chrono::DateTime::format` with the
/// pattern `%Y-%m-%d`: the calendar day in UTC of a second of the Unix time,
/// or `None` where the second is out of the range of `chrono`. The result
/// depends on the argument alone.
#[verifier::external_body]
fn format_day(unix_seconds: i64) -> (day: Option<String>)
    ensures
        match day {
            Some(text) => day_text(unix_seconds) == Some(text@),
            None => day_text(unix_seconds) is None,
        },
{
    match chrono::DateTime::from_timestamp(unix_seconds, 0) {
        Some(moment) => Some(moment.format("%Y-%m-%d").to_string()),
        None => None,
    }
}

fn digit_str(d: u64) -> (text: &'static str)
    requires
        d < 10,
    ensures
        text@ == seq![digit_char(d as int)],
{
    proof {
        reveal_strlit("0");
        reveal_strlit("1");
        reveal_strlit("2");
        reveal_strlit("3");
        reveal_strlit("4");
        reveal_strlit("5");
        reveal_strlit("6");
        reveal_strlit("7");
        reveal_strlit("8");
        reveal_strlit("9");
    }
    let text = if d == 0 {
        "0"
    } else if d == 1 {
        "1"
    } else if d == 2 {
        "2"
    } else if d == 3 {
        "3"
    } else if d == 4 {
        "4"
    } else if d == 5 {
        "5"
    } else if d == 6 {
        "6"
    } else if d == 7 {
        "7"
    } else if d == 8 {
        "8"
    } else {
        "9"
    };
    proof {
        assert(text@ =~= seq![digit_char(d as int)]);
    }
    text
}

/// The decimal text of an unsigned number.
pub fn decimal_u64(n: u64) -> (text: String)
    ensures
        text@ == decimal_nat(n as nat),
    decreases n,
{
    if n < 10 {
        String::from_str(digit_str(n))
    } else {
        let mut text = decimal_u64(n / 10);
        text.append(digit_str(n % 10));
        proof {
            assert(text@ =~= decimal_nat((n / 10) as nat).push(digit_char((n % 10) as int)));
        }
        text
    }
}

/// The decimal text of a signed number.
pub fn decimal_i32(i: i32) -> (text: String)
    ensures
        text@ == decimal_int(i as int),
{
    if i < 0 {
        let magnitude: u64 = (-(i as i64)) as u64;
        let mut text = String::from_str("-");
        let digits = decimal_u64(magnitude);
        text.append(digits.as_str());
        proof {
            reveal_strlit("-");
            assert("-"@ =~= seq!['-']);
        }
        text
    } else {
        decimal_u64(i as u64)
    }
}

fn owned_or_empty(text: &Option<String>) -> (owned: String)
    ensures
        owned@ == text_or_empty(crate::models::text_view(*text)),
{
    match text {
        Some(t) => t.clone(),
        None => String::new(),
    }
}

fn number_text(number: Option<i32>) -> (text: String)
    ensures
        text@ == decimal_int(number_or_zero(number)),
{
    match number {
        Some(n) => decimal_i32(n),
        None => decimal_i32(0),
    }
}

/// The cells of a show's row of the show table.
pub fn show_row_cells(show: &TraktShow) -> (cells: Vec<String>)
    ensures
        texts_of(cells@) == show_row_text(show@),
{
    let year = match show.release_year {
        Some(y) => decimal_i32(y),
        None => String::from_str("<unreleased>"),
    };
    let mut cells: Vec<String> = Vec::new();
    cells.push(show.imdb_id.clone());
    cells.push(show.original_title.clone());
    cells.push(year);
    cells.push(String::from_str(show.user_status.label()));
    proof {
        assert(texts_of(cells@) =~= show_row_text(show@));
    }
    cells
}

/// The lines of a show's summary panel.
pub fn show_summary_lines(show: &TraktShow) -> (lines: Vec<String>)
    ensures
        texts_of(lines@) == show_summary_text(show@),
{
    let mut year = String::from_str("Release Year: ");
    year.append(number_text(show.release_year).as_str());
    let mut network = String::from_str("Network: ");
    network.append(owned_or_empty(&show.network).as_str());
    let mut counts = number_text(show.no_seasons);
    counts.append(" seasons, ");
    counts.append(number_text(show.no_episodes).as_str());
    counts.append(" episodes");
    let mut lines: Vec<String> = Vec::new();
    lines.push(String::new());
    lines.push(year);
    lines.push(network);
    lines.push(counts);
    lines.push(String::new());
    lines.push(owned_or_empty(&show.overview));
    proof {
        assert(texts_of(lines@) =~= show_summary_text(show@));
    }
    lines
}

/// The cells of a season's row of the season table, given the text of the
/// day it first aired.
pub fn season_row_cells_with(season: &TraktSeason, day: Option<String>) -> (cells: Vec<String>)
    ensures
        texts_of(cells@) == season_row_text(season@, crate::models::text_view(day)),
{
    let mut aired = owned_or_empty(&day);
    aired.append(" UTC");
    let mut cells: Vec<String> = Vec::new();
    cells.push(decimal_i32(season.season_number));
    cells.push(season.title.clone());
    cells.push(decimal_i32(season.episode_count));
    cells.push(aired);
    cells.push(String::from_str(season.user_status.label()));
    proof {
        assert(texts_of(cells@) =~= season_row_text(season@, crate::models::text_view(day)));
    }
    cells
}

/// The cells of a season's row of the season table.
pub fn season_row_cells(season: &TraktSeason) -> (cells: Vec<String>)
    ensures
        texts_of(cells@) == season_row_text(
            season@,
            day_text(aired_or_epoch(season.first_aired)),
        ),
{
    let second = match season.first_aired {
        Some(t) => t,
        None => 0,
    };
    let day = format_day(second);
    proof {
        assert(crate::models::text_view(day) == day_text(second));
    }
    season_row_cells_with(season, day)
}

/// The title and the lines of the panel above the seasons of a show on view.
pub fn details_lines(details: &ApiShowDetails) -> (lines: Vec<String>)
    ensures
        texts_of(lines@) == details_text(
            details.year,
            details.network@,
            details.aired_episodes,
            details.overview@,
        ),
{
    let mut year = String::from_str("Release Year: ");
    year.append(decimal_u64(details.year as u64).as_str());
    let mut network = String::from_str("Network: ");
    network.append(details.network.as_str());
    let mut episodes = String::from_str("Episodes: ");
    episodes.append(decimal_u64(details.aired_episodes as u64).as_str());
    let mut lines: Vec<String> = Vec::new();
    lines.push(String::new());
    lines.push(year);
    lines.push(network);
    lines.push(episodes);
    lines.push(String::new());
    lines.push(details.overview.clone());
    proof {
        assert(texts_of(lines@) =~= details_text(
            details.year,
            details.network@,
            details.aired_episodes,
            details.overview@,
        ));
    }
    lines
}

/// The cells of a row of the seasons of a show on view, given the text of
/// the day the season first aired.
pub fn api_season_row_cells_with(season: &ApiSeasonDetails, day: Option<String>) -> (cells: Vec<
    String,
>)
    ensures
        texts_of(cells@) == api_season_row_text(
            season.number,
            season.title@,
            season.episode_count,
            crate::models::text_view(day),
        ),
{
    let mut cells: Vec<String> = Vec::new();
    cells.push(decimal_u64(season.number as u64));
    cells.push(season.title.clone());
    cells.push(decimal_u64(season.episode_count as u64));
    cells.push(owned_or_empty(&day));
    proof {
        assert(texts_of(cells@) =~= api_season_row_text(
            season.number,
            season.title@,
            season.episode_count,
            crate::models::text_view(day),
        ));
    }
    cells
}

/// The cells of a row of the seasons of a show on view.
pub fn api_season_row_cells(season: &ApiSeasonDetails) -> (cells: Vec<String>)
    ensures
        texts_of(cells@) == api_season_row_text(
            season.number,
            season.title@,
            season.episode_count,
            day_text(season.first_aired),
        ),
{
    let day = format_day(season.first_aired);
    proof {
        assert(crate::models::text_view(day) == day_text(season.first_aired));
    }
    api_season_row_cells_with(season, day)
}

/// The prompt in front of the search bar, for the two modes that show one.
pub open spec fn prompt_text(mode: AppMode) -> Option<Seq<char>> {
    match mode {
        AppMode::MainView => Some("Search "@),
        AppMode::Querying => Some("Search > "@),
        _ => None,
    }
}

/// The prompt in front of the search bar; `None` in a mode without one.
pub fn search_prompt(mode: AppMode) -> (prompt: Option<&'static str>)
    ensures
        match prompt {
            Some(text) => prompt_text(mode) == Some(text@),
            None => prompt_text(mode) is None,
        },
{
    match mode {
        AppMode::MainView => Some("Search "),
        AppMode::Querying => Some("Search > "),
        _ => None,
    }
}

/// The columns left for the text of the search bar in an area `area_width`
/// wide: three less, and none in an area of three columns or fewer.
pub fn input_width(area_width: u16) -> (width: u16)
    ensures
        width == if area_width > 3 {
            area_width - 3
        } else {
            0
        },
{
    if area_width > 3 {
        area_width - 3
    } else {
        0
    }
}

/// How far right of the search bar's start the cursor stands, for a cursor
/// at `visual_cursor` in a text scrolled by `scroll`.
pub fn cursor_offset(visual_cursor: usize, scroll: usize) -> (offset: usize)
    ensures
        offset == if visual_cursor > scroll {
            visual_cursor - scroll
        } else {
            0
        },
{
    if visual_cursor > scroll {
        visual_cursor - scroll
    } else {
        0
    }
}

} // verus!
