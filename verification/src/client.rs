//! The decisions around one detail lookup at the remote service: where to
//! ask, what to send along, how to read the status of an answer, and how the
//! two chained requests make one result.

use vstd::prelude::*;
use crate::api::{ApiSeasonDetails, ApiShowDetails};
use crate::texts::{decimal_nat, decimal_u64};

verus! {

/// The user agent the client names itself by.
pub const APP_USER_AGENT: &'static str = "Trakt TV Selector";

/// The version of the remote interface that the client speaks.
pub const API_VERSION: &'static str = "2";

/// Seconds after which a request is given up.
pub const REQUEST_TIMEOUT_SECS: u64 = 5;

/// Why a detail lookup failed.
#[derive(Clone, Copy, Debug, PartialEq, Eq, Structural)]
pub enum ApiError {
    /// The request did not get an answer.
    Transport,
    /// The answer did not have the expected shape.
    Decode,
    /// The remote service did not accept the key.
    Auth,
    /// The remote service answered with another status.
    Remote { status: u16 },
}

/// What the status of an answer means.
pub open spec fn status_outcome(status: u16) -> Result<(), ApiError> {
    if status == 200 {
        Ok(())
    } else if status == 401 {
        Err(ApiError::Auth)
    } else {
        Err(ApiError::Remote { status })
    }
}

/// Reads the status of an answer: 200 lets the body through, 401 is a
/// refused key, and any other status is reported with its number.
pub fn check_status(status: u16) -> (outcome: Result<(), ApiError>)
    ensures
        outcome == status_outcome(status),
{
    if status == 200 {
        Ok(())
    } else if status == 401 {
        Err(ApiError::Auth)
    } else {
        Err(ApiError::Remote { status })
    }
}

/// The body of an answer with the status `status`, or why there is none.
pub fn response_body(status: u16, body: String) -> (outcome: Result<String, ApiError>)
    ensures
        match status_outcome(status) {
            Ok(_) => outcome == Ok::<String, ApiError>(body),
            Err(e) => outcome == Err::<String, ApiError>(e),
        },
{
    match check_status(status) {
        Ok(()) => Ok(body),
        Err(e) => Err(e),
    }
}

/// What was decoded from a body, or a decode failure where nothing was.
pub fn decoded_or_error<T>(decoded: Option<T>) -> (outcome: Result<T, ApiError>)
    ensures
        match decoded {
            Some(value) => outcome == Ok::<T, ApiError>(value),
            None => outcome == Err::<T, ApiError>(ApiError::Decode),
        },
{
    match decoded {
        Some(value) => Ok(value),
        None => Err(ApiError::Decode),
    }
}

/// The path of the show-detail request for the external catalog id `imdb_id`.
pub open spec fn show_path(imdb_id: Seq<char>) -> Seq<char> {
    "shows/"@ + imdb_id + "?extended=full"@
}

/// The path of the season-list request for the external catalog id `imdb_id`.
pub open spec fn seasons_path(imdb_id: Seq<char>) -> Seq<char> {
    "shows/"@ + imdb_id + "/seasons?extended=full"@
}

/// The path of the search for the show with the catalog number `imdb_id`.
pub open spec fn search_path(imdb_id: u32) -> Seq<char> {
    "search/imdb/"@ + decimal_nat(imdb_id as nat)
}

/// The address of the request with the path `endpoint` at the remote
/// service whose base path is `base`.
pub open spec fn url_of(base: Seq<char>, endpoint: Seq<char>) -> Seq<char> {
    base + "/"@ + endpoint
}

/// The path of the show-detail request.
pub fn show_endpoint(imdb_id: &str) -> (path: String)
    ensures
        path@ == show_path(imdb_id@),
{
    let mut path = String::from_str("shows/");
    path.append(imdb_id);
    path.append("?extended=full");
    path
}

/// The path of the season-list request.
pub fn seasons_endpoint(imdb_id: &str) -> (path: String)
    ensures
        path@ == seasons_path(imdb_id@),
{
    let mut path = String::from_str("shows/");
    path.append(imdb_id);
    path.append("/seasons?extended=full");
    path
}

/// The path of the search for the show with the catalog number `imdb_id`.
pub fn search_endpoint(imdb_id: u32) -> (path: String)
    ensures
        path@ == search_path(imdb_id),
{
    let mut path = String::from_str("search/imdb/");
    path.append(decimal_u64(imdb_id as u64).as_str());
    path
}

/// The address of the request with the path `endpoint` at the remote
/// service whose base path is `base`.
pub fn request_url(base: &str, endpoint: &str) -> (url: String)
    ensures
        url@ == url_of(base@, endpoint@),
{
    let mut url = String::from_str(base);
    url.append("/");
    url.append(endpoint);
    url
}

/// A header sent with every request.
#[derive(Clone, Debug, PartialEq, Eq)]
pub struct Header {
    pub name: String,
    pub value: String,
}

/// The headers sent with every request, for the key `client_id`.
pub open spec fn headers_for(client_id: Seq<char>) -> Seq<(Seq<char>, Seq<char>)> {
    seq![
        ("User-Agent"@, APP_USER_AGENT@),
        ("Content-Type"@, "application/json"@),
        ("trakt-api-version"@, API_VERSION@),
        ("trakt-api-key"@, client_id),
    ]
}

/// The headers sent with every request: user agent, content type, interface
/// version and key, in this order.
pub fn default_headers(client_id: &str) -> (headers: Vec<Header>)
    ensures
        headers@.map_values(|h: Header| (h.name@, h.value@)) == headers_for(client_id@),
{
    let mut headers: Vec<Header> = Vec::new();
    headers.push(
        Header { name: String::from_str("User-Agent"), value: String::from_str(APP_USER_AGENT) },
    );
    headers.push(
        Header {
            name: String::from_str("Content-Type"),
            value: String::from_str("application/json"),
        },
    );
    headers.push(
        Header {
            name: String::from_str("trakt-api-version"),
            value: String::from_str(API_VERSION),
        },
    );
    headers.push(
        Header { name: String::from_str("trakt-api-key"), value: String::from_str(client_id) },
    );
    proof {
        assert(headers@.map_values(|h: Header| (h.name@, h.value@)) =~= headers_for(client_id@));
    }
    headers
}

/// How far a detail lookup has come.
#[derive(Debug, PartialEq, Eq)]
pub enum DetailState {
    /// The show-detail request is under way.
    AwaitingShow,
    /// The show detail is here; the season-list request is under way.
    AwaitingSeasons { show: ApiShowDetails },
    /// The lookup has ended.
    Finished,
}

/// What came back from the remote service.
#[derive(Debug, PartialEq, Eq)]
pub enum DetailEvent {
    /// The outcome of the show-detail request.
    Show { outcome: Result<ApiShowDetails, ApiError> },
    /// The outcome of the season-list request.
    Seasons { outcome: Result<Vec<ApiSeasonDetails>, ApiError> },
}

/// What the caller of a detail lookup does next.
#[derive(Debug, PartialEq, Eq)]
pub enum DetailAction {
    /// Send the season-list request.
    RequestSeasons,
    /// Both requests succeeded: hand out what they brought.
    Deliver { show: ApiShowDetails, seasons: Vec<ApiSeasonDetails> },
    /// The lookup failed as a whole; whatever was fetched is dropped.
    Fail { error: ApiError },
    /// The event does not belong to the state: it is dropped.
    Ignore,
}

/// The state and the action that follow `event` in `state`.
pub open spec fn detail_step(state: DetailState, event: DetailEvent) -> (DetailState, DetailAction) {
    match (state, event) {
        (DetailState::AwaitingShow, DetailEvent::Show { outcome: Ok(show) }) => (
            DetailState::AwaitingSeasons { show },
            DetailAction::RequestSeasons,
        ),
        (DetailState::AwaitingShow, DetailEvent::Show { outcome: Err(error) }) => (
            DetailState::Finished,
            DetailAction::Fail { error },
        ),
        (DetailState::AwaitingSeasons { show }, DetailEvent::Seasons { outcome: Ok(seasons) }) => (
            DetailState::Finished,
            DetailAction::Deliver { show, seasons },
        ),
        (DetailState::AwaitingSeasons { show }, DetailEvent::Seasons { outcome: Err(error) }) => (
            DetailState::Finished,
            DetailAction::Fail { error },
        ),
        (state, _) => (state, DetailAction::Ignore),
    }
}

/// A detail lookup starts with the show-detail request.
pub fn query_detailed_start() -> (state: DetailState)
    ensures
        state == DetailState::AwaitingShow,
{
    DetailState::AwaitingShow
}

/// One step of a detail lookup: the show detail is asked for first, the
/// season list only after it has come, and the lookup succeeds only if both
/// do. The first failure ends it.
pub fn query_detailed(state: DetailState, event: DetailEvent) -> (next: (DetailState, DetailAction))
    ensures
        next == detail_step(state, event),
{
    match state {
        DetailState::AwaitingShow => match event {
            DetailEvent::Show { outcome: Ok(show) } => (
                DetailState::AwaitingSeasons { show },
                DetailAction::RequestSeasons,
            ),
            DetailEvent::Show { outcome: Err(error) } => (
                DetailState::Finished,
                DetailAction::Fail { error },
            ),
            DetailEvent::Seasons { .. } => (DetailState::AwaitingShow, DetailAction::Ignore),
        },
        DetailState::AwaitingSeasons { show } => match event {
            DetailEvent::Seasons { outcome: Ok(seasons) } => (
                DetailState::Finished,
                DetailAction::Deliver { show, seasons },
            ),
            DetailEvent::Seasons { outcome: Err(error) } => (
                DetailState::Finished,
                DetailAction::Fail { error },
            ),
            DetailEvent::Show { .. } => (
                DetailState::AwaitingSeasons { show },
                DetailAction::Ignore,
            ),
        },
        DetailState::Finished => (DetailState::Finished, DetailAction::Ignore),
    }
}

/// The outcome of a whole detail lookup from the outcomes of its two
/// requests: both results together, or the first failure.
pub open spec fn detailed_outcome(
    show: Result<ApiShowDetails, ApiError>,
    seasons: Result<Vec<ApiSeasonDetails>, ApiError>,
) -> Result<(ApiShowDetails, Vec<ApiSeasonDetails>), ApiError> {
    match show {
        Ok(s) => match seasons {
            Ok(list) => Ok((s, list)),
            Err(e) => Err(e),
        },
        Err(e) => Err(e),
    }
}

/// A lookup that is fed the outcomes of its two requests in turn delivers
/// both results if both succeeded, and fails with the first failure else;
/// after a failed show-detail request no season list is asked for.
pub proof fn lemma_query_detailed_composite(
    show: Result<ApiShowDetails, ApiError>,
    seasons: Result<Vec<ApiSeasonDetails>, ApiError>,
)
    ensures
        ({
            let first = detail_step(DetailState::AwaitingShow, DetailEvent::Show { outcome: show });
            match detailed_outcome(show, seasons) {
                Ok((s, list)) => {
                    &&& first.1 == DetailAction::RequestSeasons
                    &&& detail_step(first.0, DetailEvent::Seasons { outcome: seasons }) == (
                        DetailState::Finished,
                        DetailAction::Deliver { show: s, seasons: list },
                    )
                },
                Err(e) => if show is Err {
                    first == (DetailState::Finished, DetailAction::Fail { error: e })
                } else {
                    &&& first.1 == DetailAction::RequestSeasons
                    &&& detail_step(first.0, DetailEvent::Seasons { outcome: seasons }) == (
                        DetailState::Finished,
                        DetailAction::Fail { error: e },
                    )
                },
            }
        }),
{
}

} // verus!
