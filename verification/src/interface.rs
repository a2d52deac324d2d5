//! The state of the interactive front end and how keys, the mouse, the
//! snapshot and the remote service change it. Drawing and input are left to
//! the caller, who also performs the commands that need the outside world.

use vstd::prelude::*;
use crate::api::{ApiSeasonDetails, ApiShowDetails};
use crate::client::ApiError;
use crate::models::{show_views, ShowView, TraktShow};
use crate::sources::DataManager;
use crate::store::{upsert_refused, upserted, ShowStore, StorageError};

verus! {

/// Different modes for the app.
#[derive(Clone, Copy, Debug, PartialEq, Eq, Structural)]
pub enum AppMode {
    /// Various tasks to start the app.
    Initializing,
    /// List of all the shows of the snapshot.
    MainView,
    /// The search bar has the input.
    Querying,
    /// Key bindings.
    HelpWindow,
    /// Detailed view of one show and its seasons.
    SeasonView,
}

impl Default for AppMode {
    fn default() -> (mode: AppMode)
        ensures
            mode == AppMode::Initializing,
    {
        AppMode::Initializing
    }
}

/// The keys the front end tells apart.
#[derive(Clone, Copy, Debug, PartialEq, Eq, Structural)]
pub enum KeyCode {
    Char(char),
    Esc,
    Enter,
    Tab,
    Up,
    Down,
    Left,
    Right,
    PageUp,
    PageDown,
    Other,
}

/// A key press; `control` says that Control, and no other modifier, was held.
#[derive(Clone, Copy, Debug, PartialEq, Eq, Structural)]
pub struct KeyPress {
    pub code: KeyCode,
    pub control: bool,
}

/// What the mouse did.
#[derive(Clone, Copy, Debug, PartialEq, Eq, Structural)]
pub enum MouseKind {
    ScrollDown,
    ScrollUp,
    Down,
    Other,
}

/// A mouse event at the terminal row `row`.
#[derive(Clone, Copy, Debug, PartialEq, Eq, Structural)]
pub struct MousePress {
    pub kind: MouseKind,
    pub row: u16,
}

/// What the caller has to do after a key, beyond redrawing.
#[derive(Clone, Copy, Debug, PartialEq, Eq, Structural)]
pub enum Command {
    /// Nothing.
    Nothing,
    /// Cycle the watch status of the selected show.
    ToggleWatchStatus,
    /// Cycle the watch status of the selected season.
    ToggleSeasonWatchStatus,
    /// Look up the details of the selected show.
    EnterShowDetails,
    /// Hand the key to the search bar.
    EditInput,
}

/// Why the front end has to stop.
#[derive(Clone, Copy, Debug, PartialEq, Eq, Structural)]
pub enum AppError {
    /// The servicer of the snapshot is gone.
    ServicerDisconnected,
}

/// Rows that one page key moves the selection by.
pub const PAGE_STEP: usize = 20;

/// Inner state of the detailed show view.
#[derive(Debug, PartialEq, Eq)]
pub struct AppShowView {
    pub show_details: Option<ApiShowDetails>,
    pub seasons: Vec<ApiSeasonDetails>,
    pub season_selected: Option<usize>,
}

/// Application.
#[derive(Debug, PartialEq, Eq)]
pub struct App {
    /// Is the application running?
    pub running: bool,
    /// The current view.
    pub mode: AppMode,
    /// The selected row of the show table.
    pub selected: Option<usize>,
    /// The position of the scroll bar of the show table.
    pub scroll_position: usize,
    /// The rows of the show table.
    pub shows: Vec<TraktShow>,
    /// The detailed show view.
    pub show_view: AppShowView,
}

/// What key and mouse handling read and change of an [`App`].
pub ghost struct Screen {
    pub running: bool,
    pub mode: AppMode,
    pub selected: Option<usize>,
    pub scroll_position: usize,
    pub season_selected: Option<usize>,
    pub shows_len: usize,
    pub seasons_len: usize,
}

/// The last index of a list of `len` rows, and 0 for an empty list.
pub open spec fn last_index(len: usize) -> usize {
    if len == 0 {
        0
    } else {
        (len - 1) as usize
    }
}

/// The row reached from `selected` by `step` rows down a list of `len` rows:
/// the last row at most, and the first row where nothing was selected.
pub open spec fn index_down(selected: Option<usize>, step: usize, len: usize) -> usize {
    match selected {
        Some(i) => if i + step <= last_index(len) {
            (i + step) as usize
        } else {
            last_index(len)
        },
        None => 0,
    }
}

/// The row reached from `selected` by `step` rows up: the first row at
/// least, and `fallback` where nothing was selected.
pub open spec fn index_up(selected: Option<usize>, step: usize, fallback: usize) -> usize {
    match selected {
        Some(i) => if i >= step {
            (i - step) as usize
        } else {
            0
        },
        None => fallback,
    }
}

impl Screen {
    pub open spec fn quit(self) -> Screen {
        Screen { running: false, ..self }
    }

    pub open spec fn next(self, step: usize) -> Screen {
        let i = index_down(self.selected, step, self.shows_len);
        Screen { selected: Some(i), scroll_position: i, ..self }
    }

    pub open spec fn prev(self, step: usize) -> Screen {
        let i = index_up(self.selected, step, last_index(self.shows_len));
        Screen { selected: Some(i), scroll_position: i, ..self }
    }

    pub open spec fn season_next(self, step: usize) -> Screen {
        Screen {
            season_selected: Some(index_down(self.season_selected, step, self.seasons_len)),
            ..self
        }
    }

    pub open spec fn season_prev(self, step: usize) -> Screen {
        Screen { season_selected: Some(index_up(self.season_selected, step, 0)), ..self }
    }

    pub open spec fn with_mode(self, mode: AppMode) -> Screen {
        Screen { mode, ..self }
    }

    pub open spec fn select(self, i: usize) -> Screen {
        Screen { selected: Some(i), ..self }
    }

    /// The screen after Control-C, which stops the application from any mode.
    pub open spec fn after_interrupt(self, key: KeyPress) -> Screen {
        if key.control && (key.code == KeyCode::Char('c') || key.code == KeyCode::Char('C')) {
            self.quit()
        } else {
            self
        }
    }

    /// The screen and the command after a key in the list of shows.
    pub open spec fn after_main_key(self, key: KeyPress) -> (Screen, Command) {
        match key.code {
            KeyCode::Esc => (self.quit(), Command::Nothing),
            KeyCode::Up => (self.prev(1), Command::Nothing),
            KeyCode::Down => (self.next(1), Command::Nothing),
            KeyCode::PageUp => (self.prev(PAGE_STEP), Command::Nothing),
            KeyCode::PageDown => (self.next(PAGE_STEP), Command::Nothing),
            KeyCode::Tab => (self.with_mode(AppMode::Querying), Command::Nothing),
            KeyCode::Right => (self, Command::EnterShowDetails),
            KeyCode::Char(c) => if c == 'q' {
                (self.quit(), Command::Nothing)
            } else if c == 'k' {
                (self.prev(1), Command::Nothing)
            } else if c == 'j' {
                (self.next(1), Command::Nothing)
            } else if c == 'u' || c == 'U' {
                (if key.control { self.prev(PAGE_STEP) } else { self }, Command::Nothing)
            } else if c == 'd' || c == 'D' {
                (if key.control { self.next(PAGE_STEP) } else { self }, Command::Nothing)
            } else if c == 'g' {
                (self.select(0), Command::Nothing)
            } else if c == 'G' {
                (self.select(last_index(self.shows_len)), Command::Nothing)
            } else if c == ' ' {
                (self, Command::ToggleWatchStatus)
            } else if c == 'l' {
                (self, Command::EnterShowDetails)
            } else {
                (self, Command::Nothing)
            },
            _ => (self, Command::Nothing),
        }
    }

    /// The screen and the command after a key in the search bar.
    pub open spec fn after_query_key(self, key: KeyPress) -> (Screen, Command) {
        match key.code {
            KeyCode::Enter | KeyCode::Tab | KeyCode::Esc => (
                self.with_mode(AppMode::MainView),
                Command::Nothing,
            ),
            _ => (self, Command::EditInput),
        }
    }

    /// The screen and the command after a key in the detailed show view.
    pub open spec fn after_season_key(self, key: KeyPress) -> (Screen, Command) {
        match key.code {
            KeyCode::Left => (self.with_mode(AppMode::MainView), Command::Nothing),
            KeyCode::Up => (self.season_prev(1), Command::Nothing),
            KeyCode::Down => (self.season_next(1), Command::Nothing),
            KeyCode::Char(c) => if c == 'h' {
                (self.with_mode(AppMode::MainView), Command::Nothing)
            } else if c == 'k' {
                (self.season_prev(1), Command::Nothing)
            } else if c == 'j' {
                (self.season_next(1), Command::Nothing)
            } else if c == ' ' {
                (self, Command::ToggleSeasonWatchStatus)
            } else {
                (self, Command::Nothing)
            },
            _ => (self, Command::Nothing),
        }
    }

    /// The screen and the command after a key: Control-C first, then the
    /// bindings of the mode. The other modes bind no key.
    pub open spec fn after_key(self, key: KeyPress) -> (Screen, Command) {
        let s = self.after_interrupt(key);
        match s.mode {
            AppMode::MainView => s.after_main_key(key),
            AppMode::Querying => s.after_query_key(key),
            AppMode::SeasonView => s.after_season_key(key),
            _ => (s, Command::Nothing),
        }
    }

    /// The screen after a mouse event: the wheel moves the selection of the
    /// list of shows, and a click on the first row opens the search bar.
    pub open spec fn after_mouse(self, mouse: MousePress) -> Screen {
        if self.mode == AppMode::MainView {
            match mouse.kind {
                MouseKind::ScrollDown => self.next(1),
                MouseKind::ScrollUp => self.prev(1),
                MouseKind::Down => if mouse.row == 0 {
                    self.with_mode(AppMode::Querying)
                } else {
                    self
                },
                MouseKind::Other => self,
            }
        } else {
            self
        }
    }
}

fn last_of(len: usize) -> (last: usize)
    ensures
        last == last_index(len),
{
    if len == 0 {
        0
    } else {
        len - 1
    }
}

fn step_down(selected: Option<usize>, step: usize, len: usize) -> (i: usize)
    ensures
        i == index_down(selected, step, len),
{
    let last = last_of(len);
    match selected {
        Some(i) => if i <= last && step <= last - i {
            i + step
        } else {
            last
        },
        None => 0,
    }
}

fn step_up(selected: Option<usize>, step: usize, fallback: usize) -> (i: usize)
    ensures
        i == index_up(selected, step, fallback),
{
    match selected {
        Some(i) => if i >= step {
            i - step
        } else {
            0
        },
        None => fallback,
    }
}

impl App {
    /// What key and mouse handling read and change.
    pub open spec fn screen(&self) -> Screen {
        Screen {
            running: self.running,
            mode: self.mode,
            selected: self.selected,
            scroll_position: self.scroll_position,
            season_selected: self.show_view.season_selected,
            shows_len: self.shows.len(),
            seasons_len: self.show_view.seasons.len(),
        }
    }

    /// The lists are as they were and only the screen is `screen`.
    pub open spec fn only_screen_changed(&self, before: &App, screen: Screen) -> bool {
        &&& self.screen() == screen
        &&& self.shows == before.shows
        &&& self.show_view.show_details == before.show_view.show_details
        &&& self.show_view.seasons == before.show_view.seasons
    }

    /// The index of the selected show, if a row of the table is selected.
    pub open spec fn selected_row(&self) -> Option<int> {
        match self.selected {
            Some(i) => if i < self.shows.len() {
                Some(i as int)
            } else {
                None
            },
            None => None,
        }
    }

    /// A running application that waits for its snapshot.
    pub fn new() -> (app: App)
        ensures
            app.running,
            app.mode == AppMode::Initializing,
            app.selected is None,
            app.scroll_position == 0,
            app.shows@.len() == 0,
            app.show_view.show_details is None,
            app.show_view.seasons@.len() == 0,
            app.show_view.season_selected is None,
    {
        App {
            running: true,
            mode: AppMode::Initializing,
            selected: None,
            scroll_position: 0,
            shows: Vec::new(),
            show_view: AppShowView {
                show_details: None,
                seasons: Vec::new(),
                season_selected: None,
            },
        }
    }

    /// The tick has to ask for the snapshot: no show is listed yet.
    pub fn needs_snapshot(&self) -> (needed: bool)
        ensures
            needed == (self.shows@.len() == 0),
    {
        self.shows.len() == 0
    }

    /// Takes the answer to a snapshot query. A lost servicer is an error and
    /// changes nothing; an answer becomes the list of shows and ends the
    /// initializing mode.
    pub fn receive_snapshot(&mut self, answer: Option<Vec<TraktShow>>) -> (done: Result<
        (),
        AppError,
    >)
        ensures
            match answer {
                None => done == Err::<(), AppError>(AppError::ServicerDisconnected) && *final(self)
                    == *old(self),
                Some(items) => done is Ok && final(self).only_screen_but_list(old(self), items),
            },
    {
        match answer {
            None => Err(AppError::ServicerDisconnected),
            Some(items) => {
                self.shows = items;
                if self.mode == AppMode::Initializing {
                    self.mode = AppMode::MainView;
                }
                Ok(())
            },
        }
    }

    /// The state after a snapshot arrived: its shows are listed, an
    /// initializing application shows its main view, all else is as before.
    pub open spec fn only_screen_but_list(&self, before: &App, items: Vec<TraktShow>) -> bool {
        &&& self.shows == items
        &&& self.mode == if before.mode == AppMode::Initializing {
            AppMode::MainView
        } else {
            before.mode
        }
        &&& self.running == before.running
        &&& self.selected == before.selected
        &&& self.scroll_position == before.scroll_position
        &&& self.show_view == before.show_view
    }

    /// Handles the tick event: while no show is listed, the snapshot is
    /// asked for and listed.
    pub fn tick(&mut self, data_manager: &DataManager) -> (done: Result<(), AppError>)
        ensures
            done is Ok,
            old(self).shows@.len() > 0 ==> *final(self) == *old(self),
            old(self).shows@.len() == 0 ==> {
                &&& show_views(final(self).shows@) == data_manager.snapshot()
                &&& final(self).mode == if old(self).mode == AppMode::Initializing {
                    AppMode::MainView
                } else {
                    old(self).mode
                }
                &&& final(self).running == old(self).running
                &&& final(self).selected == old(self).selected
                &&& final(self).scroll_position == old(self).scroll_position
                &&& final(self).show_view == old(self).show_view
            },
    {
        if self.needs_snapshot() {
            let answer = data_manager.query(String::from_str("spurious"));
            self.receive_snapshot(answer)
        } else {
            Ok(())
        }
    }

    /// Set running to false to quit the application.
    pub fn quit(&mut self)
        ensures
            final(self).only_screen_changed(old(self), old(self).screen().quit()),
    {
        self.running = false;
    }

    /// Moves the selection `step` rows down the list of shows.
    pub fn next(&mut self, step: usize)
        ensures
            final(self).only_screen_changed(old(self), old(self).screen().next(step)),
    {
        let i = step_down(self.selected, step, self.shows.len());
        self.selected = Some(i);
        self.scroll_position = i;
    }

    /// Moves the selection `step` rows up the list of shows.
    pub fn prev(&mut self, step: usize)
        ensures
            final(self).only_screen_changed(old(self), old(self).screen().prev(step)),
    {
        let i = step_up(self.selected, step, last_of(self.shows.len()));
        self.selected = Some(i);
        self.scroll_position = i;
    }

    /// Moves the selection `step` rows down the list of seasons.
    pub fn season_next(&mut self, step: usize)
        ensures
            final(self).only_screen_changed(old(self), old(self).screen().season_next(step)),
    {
        let i = step_down(self.show_view.season_selected, step, self.show_view.seasons.len());
        self.show_view.season_selected = Some(i);
    }

    /// Moves the selection `step` rows up the list of seasons.
    pub fn season_prev(&mut self, step: usize)
        ensures
            final(self).only_screen_changed(old(self), old(self).screen().season_prev(step)),
    {
        let i = step_up(self.show_view.season_selected, step, 0);
        self.show_view.season_selected = Some(i);
    }

    /// The selected show with its watch status moved one step on: the row to
    /// write when the user toggles. `None` where no row is selected.
    pub fn toggled_show(&self) -> (row: Option<TraktShow>)
        ensures
            match self.selected_row() {
                Some(i) => row is Some && row->0@ == toggled(self.shows[i]@),
                None => row is None,
            },
    {
        match self.selected {
            Some(i) => if i < self.shows.len() {
                let mut row = self.shows[i].clone();
                row.user_status = row.user_status.advance();
                Some(row)
            } else {
                None
            },
            None => None,
        }
    }

    /// Shows the toggled watch status of the selected show. To be called
    /// once the write of the toggled row has succeeded, and not before.
    pub fn reflect_toggle(&mut self)
        ensures
            final(self).screen() == old(self).screen(),
            final(self).show_view == old(self).show_view,
            match old(self).selected_row() {
                Some(i) => show_views(final(self).shows@) == show_views(old(self).shows@).update(
                    i,
                    toggled(old(self).shows[i]@),
                ),
                None => final(self).shows == old(self).shows,
            },
    {
        match self.selected {
            Some(i) => if i < self.shows.len() {
                let mut row = self.shows[i].clone();
                row.user_status = row.user_status.advance();
                self.shows[i] = row;
                proof {
                    assert(show_views(self.shows@) =~= show_views(old(self).shows@).update(
                        i as int,
                        toggled(old(self).shows[i as int]@),
                    ));
                }
            },
            None => {},
        }
    }

    /// Cycle watch status of the currently selected show: the toggled row is
    /// written with one upsert, and the list shows the new status once the
    /// write has succeeded. The call succeeds exactly when the store takes
    /// the row; a refused write leaves the list and the store as they were.
    /// Without a selected row nothing happens.
    pub fn toggle_watch_status(&mut self, db: &mut ShowStore) -> (done: Result<(), StorageError>)
        requires
            old(db).wf(),
        ensures
            final(db).wf(),
            final(db).season_rows() == old(db).season_rows(),
            final(self).screen() == old(self).screen(),
            final(self).show_view == old(self).show_view,
            match old(self).selected_row() {
                Some(i) => {
                    let row = toggled(old(self).shows[i]@);
                    if upsert_refused(old(db).rows(), old(db).season_rows(), row) {
                        &&& done == Err::<(), StorageError>(StorageError::Constraint)
                        &&& final(db).rows() == old(db).rows()
                        &&& final(self).shows == old(self).shows
                    } else {
                        &&& done is Ok
                        &&& final(db).rows() == upserted(old(db).rows(), row)
                        &&& show_views(final(self).shows@) == show_views(old(self).shows@).update(
                            i,
                            row,
                        )
                    }
                },
                None => done is Ok && final(self).shows == old(self).shows && final(db).rows()
                    == old(db).rows(),
            },
    {
        match self.toggled_show() {
            Some(row) => match db.update_show(row) {
                Ok(()) => {
                    self.reflect_toggle();
                    Ok(())
                },
                Err(e) => Err(e),
            },
            None => Ok(()),
        }
    }

    /// The details view can be entered: the list of shows has the input and
    /// one of its rows is selected.
    pub open spec fn can_enter_details(&self) -> bool {
        self.mode == AppMode::MainView && self.selected_row() is Some
    }

    /// The external catalog id to look up when the user asks for details, or
    /// `None` where the details view cannot be entered.
    pub fn details_request(&self) -> (imdb_id: Option<String>)
        ensures
            imdb_id is Some <==> self.can_enter_details(),
            imdb_id is Some ==> imdb_id->0@ == self.shows[self.selected_row()->0].imdb_id@,
    {
        if self.mode != AppMode::MainView {
            return None;
        }
        match self.selected {
            Some(i) => if i < self.shows.len() {
                Some(self.shows[i].imdb_id.clone())
            } else {
                None
            },
            None => None,
        }
    }

    /// Takes the outcome of a detail lookup. Where the details view can be
    /// entered and the lookup succeeded, the view opens on what was fetched,
    /// with the first season selected if there is one. A failed lookup is
    /// handed back and changes nothing; so does any outcome that arrives
    /// where the details view cannot be entered, without an error.
    pub fn enter_show_details(
        &mut self,
        outcome: Result<(ApiShowDetails, Vec<ApiSeasonDetails>), ApiError>,
    ) -> (done: Result<(), ApiError>)
        ensures
            !old(self).can_enter_details() ==> done is Ok && *final(self) == *old(self),
            old(self).can_enter_details() ==> match outcome {
                Err(e) => done == Err::<(), ApiError>(e) && *final(self) == *old(self),
                Ok((details, seasons)) => {
                    &&& done is Ok
                    &&& final(self).mode == AppMode::SeasonView
                    &&& final(self).show_view.show_details == Some(details)
                    &&& final(self).show_view.seasons == seasons
                    &&& final(self).show_view.season_selected == if seasons@.len() > 0 {
                        Some(0usize)
                    } else {
                        old(self).show_view.season_selected
                    }
                    &&& final(self).running == old(self).running
                    &&& final(self).selected == old(self).selected
                    &&& final(self).scroll_position == old(self).scroll_position
                    &&& final(self).shows == old(self).shows
                },
            },
    {
        let open = self.mode == AppMode::MainView && match self.selected {
            Some(i) => i < self.shows.len(),
            None => false,
        };
        if !open {
            return Ok(());
        }
        match outcome {
            Ok((details, seasons)) => {
                self.show_view.show_details = Some(details);
                if seasons.len() > 0 {
                    self.show_view.season_selected = Some(0);
                }
                self.show_view.seasons = seasons;
                self.mode = AppMode::SeasonView;
                Ok(())
            },
            Err(e) => Err(e),
        }
    }
}

/// The show with its watch status moved one step on.
pub open spec fn toggled(show: ShowView) -> ShowView {
    ShowView { user_status: show.user_status.next(), ..show }
}

/// Three toggles bring a show back to what it was, and each toggle changes
/// nothing but the watch status.
pub proof fn lemma_toggle_three_times(show: ShowView)
    ensures
        toggled(toggled(toggled(show))) == show,
        toggled(show) != show,
        toggled(show) == (ShowView { user_status: toggled(show).user_status, ..show }),
{
}

fn main_view_key(key: KeyPress, app: &mut App) -> (command: Command)
    ensures
        final(app).only_screen_changed(old(app), old(app).screen().after_main_key(key).0),
        command == old(app).screen().after_main_key(key).1,
{
    match key.code {
        KeyCode::Esc => {
            app.quit();
        },
        KeyCode::Up => {
            app.prev(1);
        },
        KeyCode::Down => {
            app.next(1);
        },
        KeyCode::PageUp => {
            app.prev(PAGE_STEP);
        },
        KeyCode::PageDown => {
            app.next(PAGE_STEP);
        },
        KeyCode::Tab => {
            app.mode = AppMode::Querying;
        },
        KeyCode::Right => {
            return Command::EnterShowDetails;
        },
        KeyCode::Char(c) => {
            if c == 'q' {
                app.quit();
            } else if c == 'k' {
                app.prev(1);
            } else if c == 'j' {
                app.next(1);
            } else if c == 'u' || c == 'U' {
                if key.control {
                    app.prev(PAGE_STEP);
                }
            } else if c == 'd' || c == 'D' {
                if key.control {
                    app.next(PAGE_STEP);
                }
            } else if c == 'g' {
                app.selected = Some(0);
            } else if c == 'G' {
                app.selected = Some(last_of(app.shows.len()));
            } else if c == ' ' {
                return Command::ToggleWatchStatus;
            } else if c == 'l' {
                return Command::EnterShowDetails;
            }
        },
        _ => {},
    }
    Command::Nothing
}

fn season_view_key(key: KeyPress, app: &mut App) -> (command: Command)
    ensures
        final(app).only_screen_changed(old(app), old(app).screen().after_season_key(key).0),
        command == old(app).screen().after_season_key(key).1,
{
    match key.code {
        KeyCode::Left => {
            app.mode = AppMode::MainView;
        },
        KeyCode::Up => {
            app.season_prev(1);
        },
        KeyCode::Down => {
            app.season_next(1);
        },
        KeyCode::Char(c) => {
            if c == 'h' {
                app.mode = AppMode::MainView;
            } else if c == 'k' {
                app.season_prev(1);
            } else if c == 'j' {
                app.season_next(1);
            } else if c == ' ' {
                return Command::ToggleSeasonWatchStatus;
            }
        },
        _ => {},
    }
    Command::Nothing
}

/// Handles the key events and updates the state of [`App`]. What the key
/// asks of the outside world comes back as a command.
pub fn handle_key_events(key_event: KeyPress, app: &mut App) -> (command: Command)
    ensures
        final(app).only_screen_changed(old(app), old(app).screen().after_key(key_event).0),
        command == old(app).screen().after_key(key_event).1,
{
    match key_event.code {
        KeyCode::Char(c) => {
            if (c == 'c' || c == 'C') && key_event.control {
                app.quit();
            }
        },
        _ => {},
    }
    match app.mode {
        AppMode::MainView => main_view_key(key_event, app),
        AppMode::Querying => match key_event.code {
            KeyCode::Enter | KeyCode::Tab | KeyCode::Esc => {
                app.mode = AppMode::MainView;
                Command::Nothing
            },
            _ => Command::EditInput,
        },
        AppMode::SeasonView => season_view_key(key_event, app),
        _ => Command::Nothing,
    }
}

/// Handles the mouse events and updates the state of [`App`].
pub fn handle_mouse_events(mouse_event: MousePress, app: &mut App)
    ensures
        final(app).only_screen_changed(old(app), old(app).screen().after_mouse(mouse_event)),
{
    match app.mode {
        AppMode::MainView => match mouse_event.kind {
            MouseKind::ScrollDown => {
                app.next(1);
            },
            MouseKind::ScrollUp => {
                app.prev(1);
            },
            MouseKind::Down => {
                if mouse_event.row == 0 {
                    app.mode = AppMode::Querying;
                }
            },
            MouseKind::Other => {},
        },
        _ => {},
    }
}

} // verus!
