//! The input loop, one turn at a time: what a terminal event asks for, how the
//! state answers it, and what the screen shows for a state.
//!
//! Nothing here touches a terminal. A turn of the loop draws the screen that
//! [`render`] describes, waits up to [`POLL_TIMEOUT_MS`] for an event, and
//! hands it to [`handle_events`], which moves the selection and says what the
//! loop has to do next.

use vstd::prelude::*;

use crate::cli::{Query, QueryView};
use crate::google::{
    GoogleError,
    GoogleErrorView,
    GoogleSearchInformationView,
    GoogleSearchResponse,
    GoogleSearchResponseView,
    GoogleSearchResult,
    GoogleSearchResultView,
};
use crate::selection::{
    is_gap, item_of, logical_to_visual, moved, row_count, row_of, Motion, SelectionState,
};
use crate::state::{Outcome, QueryState, State, StateView};

verus! {

/// Longest wait for an event before the screen is drawn again, in
/// milliseconds.
pub const POLL_TIMEOUT_MS: u64 = 50;

/// The keys that mean something here; every other key is `Other`.
#[derive(Clone, Copy, Debug, PartialEq, Eq)]
pub enum KeyCode {
    Char(char),
    Down,
    Up,
    PageDown,
    PageUp,
    Enter,
    Other,
}

/// What happened to a key.
#[derive(Clone, Copy, Debug, PartialEq, Eq)]
pub enum KeyKind {
    Press,
    Repeat,
    Release,
}

/// An event of the terminal.
#[derive(Clone, Copy, Debug, PartialEq, Eq)]
pub enum Event {
    /// A key changed.
    Key { code: KeyCode, kind: KeyKind },
    /// Anything else: the mouse, a resize, focus, pasted text.
    Other,
}

/// What the user asks for with an event.
#[derive(Clone, Copy, Debug, PartialEq, Eq)]
pub enum Command {
    /// Leave the program.
    Quit,
    /// Move the selection.
    Move(Motion),
    /// Open the selected result.
    Activate,
    /// Nothing.
    Ignore,
}

/// The command that an event stands for; `None` is a wait that ended with
/// no event. Only a key going down counts, never its release or repeat.
pub open spec fn command_of(event: Option<Event>) -> Command {
    match event {
        Some(Event::Key { code, kind: KeyKind::Press }) => match code {
            KeyCode::Char(c) => if c == 'q' {
                Command::Quit
            } else {
                Command::Ignore
            },
            KeyCode::Down => Command::Move(Motion::Next),
            KeyCode::Up => Command::Move(Motion::Previous),
            KeyCode::PageDown => Command::Move(Motion::Last),
            KeyCode::PageUp => Command::Move(Motion::First),
            KeyCode::Enter => Command::Activate,
            KeyCode::Other => Command::Ignore,
        },
        _ => Command::Ignore,
    }
}

/// Reads an event as a command.
pub fn command(event: Option<Event>) -> (command: Command)
    ensures
        command == command_of(event),
{
    match event {
        Some(Event::Key { code, kind: KeyKind::Press }) => match code {
            KeyCode::Char(c) => if c == 'q' {
                Command::Quit
            } else {
                Command::Ignore
            },
            KeyCode::Down => Command::Move(Motion::Next),
            KeyCode::Up => Command::Move(Motion::Previous),
            KeyCode::PageDown => Command::Move(Motion::Last),
            KeyCode::PageUp => Command::Move(Motion::First),
            KeyCode::Enter => Command::Activate,
            KeyCode::Other => Command::Ignore,
        },
        _ => Command::Ignore,
    }
}

/// What the loop has to do after an event.
#[derive(Debug, PartialEq, Eq)]
pub enum Action {
    /// Go on with the next turn.
    Continue,
    /// Stop.
    Quit,
    /// Open this address with the system's handler, then go on.
    Open(String),
}

/// An [`Action`] as plain text.
pub ghost enum ActionView {
    Continue,
    Quit,
    Open(Seq<char>),
}

impl View for Action {
    type V = ActionView;

    open spec fn view(&self) -> ActionView {
        match self {
            Action::Continue => ActionView::Continue,
            Action::Quit => ActionView::Quit,
            Action::Open(url) => ActionView::Open(url@),
        }
    }
}

/// The state after an event: a motion moves the selection among the results
/// of a search that has succeeded; nothing else changes anything.
pub open spec fn after_event(state: StateView, event: Option<Event>) -> StateView {
    match command_of(event) {
        Command::Move(motion) => StateView {
            selection: moved(state.selection, motion, state.item_count()),
            ..state
        },
        _ => state,
    }
}

/// The state after every event of `events`, in order.
pub open spec fn after_events(state: StateView, events: Seq<Option<Event>>) -> StateView
    decreases events.len(),
{
    if events.len() == 0 {
        state
    } else {
        after_event(after_events(state, events.drop_last()), events.last())
    }
}

/// The action that an event calls for: the quit key stops the loop; enter
/// opens the address of the selected result if the search has succeeded and
/// the selection names a result; everything else goes on.
pub open spec fn action_of(state: StateView, event: Option<Event>) -> ActionView {
    match command_of(event) {
        Command::Quit => ActionView::Quit,
        Command::Activate => match state.outcome {
            Outcome::Succeeded(response) => if state.selection < response.items.len() {
                ActionView::Open(response.items[state.selection as int].link)
            } else {
                ActionView::Continue
            },
            _ => ActionView::Continue,
        },
        _ => ActionView::Continue,
    }
}

/// Answers one event: moves the selection if the event asks for it, and says
/// what the loop has to do next. Neither the query nor the outcome of the
/// search is touched.
pub fn handle_events(state: &mut State, event: Option<Event>) -> (action: Action)
    ensures
        final(state)@ == after_event(old(state)@, event),
        final(state).query == old(state).query,
        final(state).results == old(state).results,
        action@ == action_of(old(state)@, event),
{
    match command(event) {
        Command::Quit => Action::Quit,
        Command::Move(motion) => {
            let count: usize = state.results.item_count();
            state.list.apply(motion, count);
            Action::Continue
        },
        Command::Activate => match state.results.results() {
            Some(response) => match state.list.selected(response.items.len()) {
                Some(index) => Action::Open(response.items[index].link.clone()),
                None => Action::Continue,
            },
            None => Action::Continue,
        },
        Command::Ignore => Action::Continue,
    }
}

/// Hint shown at the bottom of every screen.
pub const FOOTER: &'static str = "Press 'q' to quit";

/// The text of one result in the list.
#[derive(Debug, PartialEq, Eq)]
pub struct ListEntry {
    /// First line, first part: the title of the page.
    pub title: String,
    /// First line, second part: a dash and the short address.
    pub link: String,
    /// Second line: the excerpt.
    pub snippet: String,
}

/// A [`ListEntry`] as plain text.
pub ghost struct ListEntryView {
    pub title: Seq<char>,
    pub link: Seq<char>,
    pub snippet: Seq<char>,
}

impl View for ListEntry {
    type V = ListEntryView;

    open spec fn view(&self) -> ListEntryView {
        ListEntryView { title: self.title@, link: self.link@, snippet: self.snippet@ }
    }
}

/// One row of the list on screen.
#[derive(Debug, PartialEq, Eq)]
pub enum Row {
    /// A result.
    Entry(ListEntry),
    /// The blank row between two results.
    Gap,
}

/// A [`Row`] as plain text.
pub ghost enum RowView {
    Entry(ListEntryView),
    Gap,
}

impl View for Row {
    type V = RowView;

    open spec fn view(&self) -> RowView {
        match self {
            Row::Entry(entry) => RowView::Entry(entry@),
            Row::Gap => RowView::Gap,
        }
    }
}

/// The rows of `rows`, each as plain text.
pub open spec fn rows_view(rows: Seq<Row>) -> Seq<RowView> {
    Seq::new(rows.len(), |i: int| rows[i]@)
}

/// The entries of `entries`, each as plain text.
pub open spec fn entries_view(entries: Seq<ListEntry>) -> Seq<ListEntryView> {
    Seq::new(entries.len(), |i: int| entries[i]@)
}

/// What the terminal shows.
#[derive(Debug, PartialEq, Eq)]
pub enum Screen {
    /// The search is under way.
    Searching { status: String, footer: String },
    /// The search has succeeded: a header, the list, and the row of the
    /// list that is highlighted, if any.
    Results { header: String, rows: Vec<Row>, highlighted: Option<usize>, footer: String },
    /// The search has failed.
    Failed { message: String, footer: String },
}

/// A [`Screen`] as plain text.
pub ghost enum ScreenView {
    Searching { status: Seq<char>, footer: Seq<char> },
    Results { header: Seq<char>, rows: Seq<RowView>, highlighted: Option<nat>, footer: Seq<char> },
    Failed { message: Seq<char>, footer: Seq<char> },
}

impl View for Screen {
    type V = ScreenView;

    open spec fn view(&self) -> ScreenView {
        match self {
            Screen::Searching { status, footer } => ScreenView::Searching {
                status: status@,
                footer: footer@,
            },
            Screen::Results { header, rows, highlighted, footer } => ScreenView::Results {
                header: header@,
                rows: rows_view(rows@),
                highlighted: match highlighted {
                    Some(row) => Some(*row as nat),
                    None => None,
                },
                footer: footer@,
            },
            Screen::Failed { message, footer } => ScreenView::Failed {
                message: message@,
                footer: footer@,
            },
        }
    }
}

/// The text of a result in the list.
pub open spec fn entry_of(result: GoogleSearchResultView) -> ListEntryView {
    ListEntryView {
        title: result.title,
        link: " - "@ + result.display_link,
        snippet: result.snippet,
    }
}

/// The text of each result, in the order of the results.
pub open spec fn entries_of(items: Seq<GoogleSearchResultView>) -> Seq<ListEntryView> {
    Seq::new(items.len(), |i: int| entry_of(items[i]))
}

/// The rows that show `entries`: each entry on the row of its position, and
/// a blank row between each two.
pub open spec fn with_gaps(entries: Seq<ListEntryView>) -> Seq<RowView> {
    Seq::new(
        row_count(entries.len()),
        |row: int|
            if is_gap(row as nat) {
                RowView::Gap
            } else {
                RowView::Entry(entries[item_of(row as nat) as int])
            },
    )
}

/// The line shown while the search is under way.
pub open spec fn searching_status(query: QueryView) -> Seq<char> {
    "Searching for '"@ + query.query + "'..."@
}

/// The line shown above the results.
pub open spec fn results_header(
    information: GoogleSearchInformationView,
    query: QueryView,
) -> Seq<char> {
    "Found "@ + information.formatted_total_results + " results in "@
        + information.formatted_search_time + " ms for '"@ + query.query + "'"@
}

/// The row that is highlighted when the selection is at `selection` among
/// `item_count` results: the row of the selected result, and none when the
/// selection names no result.
pub open spec fn highlighted_row(selection: nat, item_count: nat) -> Option<nat> {
    if selection < item_count {
        Some(row_of(selection))
    } else {
        None
    }
}

/// The screen for a search under way.
pub open spec fn searching_screen(query: QueryView) -> ScreenView {
    ScreenView::Searching { status: searching_status(query), footer: FOOTER@ }
}

/// The screen for a search that has succeeded.
pub open spec fn results_screen(
    response: GoogleSearchResponseView,
    query: QueryView,
    selection: nat,
) -> ScreenView {
    ScreenView::Results {
        header: results_header(response.search_information, query),
        rows: with_gaps(entries_of(response.items)),
        highlighted: highlighted_row(selection, response.items.len()),
        footer: FOOTER@,
    }
}

/// The screen for a search that has failed.
pub open spec fn failed_screen(error: GoogleErrorView) -> ScreenView {
    ScreenView::Failed { message: error.message(), footer: FOOTER@ }
}

/// The screen for a state.
pub open spec fn screen_of(state: StateView) -> ScreenView {
    match state.outcome {
        Outcome::Pending => searching_screen(state.query),
        Outcome::Succeeded(response) => results_screen(response, state.query, state.selection),
        Outcome::Failed(error) => failed_screen(error),
    }
}

/// Describes the screen for a state.
pub fn render(state: &State) -> (screen: Screen)
    ensures
        screen@ == screen_of(state@),
{
    match &state.results {
        QueryState::Searching => render_searching(&state.query),
        QueryState::Finished(Ok(response)) => render_results(response, &state.query, &state.list),
        QueryState::Finished(Err(error)) => render_failed(error),
    }
}

/// Describes the screen for a search under way.
pub fn render_searching(query: &Query) -> (screen: Screen)
    ensures
        screen@ == searching_screen(query@),
{
    let mut status = String::from_str("Searching for '");
    status.append(query.query.as_str());
    status.append("'...");
    Screen::Searching { status, footer: String::from_str(FOOTER) }
}

/// Describes the screen for a search that has failed.
pub fn render_failed(error: &GoogleError) -> (screen: Screen)
    ensures
        screen@ == failed_screen(error@),
{
    Screen::Failed { message: error.message(), footer: String::from_str(FOOTER) }
}

/// Describes the screen for a search that has succeeded.
pub fn render_results(
    response: &GoogleSearchResponse,
    query: &Query,
    selection: &SelectionState,
) -> (screen: Screen)
    ensures
        screen@ == results_screen(response@, query@, selection@),
{
    let mut header = String::from_str("Found ");
    header.append(response.search_information.formatted_total_results.as_str());
    header.append(" results in ");
    header.append(response.search_information.formatted_search_time.as_str());
    header.append(" ms for '");
    header.append(query.query.as_str());
    header.append("'");

    let mut entries: Vec<ListEntry> = Vec::new();
    let mut i: usize = 0;
    while i < response.items.len()
        invariant
            i <= response.items.len(),
            entries@.len() == i,
            forall|k: int| 0 <= k < i ==> (#[trigger] entries@[k])@ == entry_of(response.items@[k]@),
        decreases response.items.len() - i,
    {
        entries.push(list_item(&response.items[i]));
        i = i + 1;
    }
    assert(entries_view(entries@) =~= entries_of(response@.items));
    let rows = add_gaps_to_list_items(entries);

    let row_total: usize = rows.len();
    assert(row_total == row_count(response.items@.len())) by {
        assert(rows_view(rows@).len() == row_count(entries_view(entries@).len()));
    }
    let highlighted = match selection.selected(response.items.len()) {
        Some(index) => Some(logical_to_visual(index)),
        None => None,
    };
    Screen::Results { header, rows, highlighted, footer: String::from_str(FOOTER) }
}

/// The text of a result in the list.
pub fn list_item(result: &GoogleSearchResult) -> (entry: ListEntry)
    ensures
        entry@ == entry_of(result@),
{
    ListEntry {
        title: result.title.clone(),
        link: String::from_str(" - ").concat(result.display_link.as_str()),
        snippet: result.snippet.clone(),
    }
}

/// Lays entries out as rows, with a blank row between each two.
pub fn add_gaps_to_list_items(entries: Vec<ListEntry>) -> (rows: Vec<Row>)
    ensures
        rows_view(rows@) == with_gaps(entries_view(entries@)),
{
    let ghost source = entries@;
    let ghost all = entries_view(source);
    let mut rows: Vec<Row> = Vec::new();
    for entry in it: entries
        invariant
            it.seq() == source,
            all == entries_view(source),
            rows@.len() == row_count(it.index() as nat),
            rows@.len() <= with_gaps(all).len(),
            forall|row: int|
                0 <= row < rows@.len() ==> (#[trigger] rows@[row])@ == with_gaps(all)[row],
    {
        let ghost k = it.index();
        assert(k < source.len() && entry == source[k]);
        assert(all.len() == source.len() && all[k] == entry@);
        assert(with_gaps(all).len() == row_count(all.len()));
        if rows.len() > 0 {
            rows.push(Row::Gap);
        }
        rows.push(Row::Entry(entry));
    }
    assert(rows_view(rows@) =~= with_gaps(all));
    rows
}

/// The event of the quit key going down.
pub open spec fn quit_key() -> Option<Event> {
    Some(Event::Key { code: KeyCode::Char('q'), kind: KeyKind::Press })
}

/// The event of the enter key going down.
pub open spec fn enter_key() -> Option<Event> {
    Some(Event::Key { code: KeyCode::Enter, kind: KeyKind::Press })
}

/// The quit key stops the loop in every state, whatever the outcome of the
/// search and wherever the selection is, and leaves the state as it was.
pub proof fn lemma_quit_key_always_quits(state: StateView)
    ensures
        action_of(state, quit_key()) == ActionView::Quit,
        after_event(state, quit_key()) == state,
{
}

/// Enter does nothing while the search is pending, after it has failed, and
/// when it has succeeded with no results: nothing is opened and the state
/// stays as it was.
pub proof fn lemma_activate_needs_a_result(state: StateView)
    requires
        state.outcome is Pending || state.outcome is Failed || state.item_count() == 0,
    ensures
        action_of(state, enter_key()) == ActionView::Continue,
        after_event(state, enter_key()) == state,
{
}

/// Until the search has succeeded, no event changes the state, and the only
/// event that asks anything of the loop is the quit key.
pub proof fn lemma_only_quit_acts_without_results(state: StateView, event: Option<Event>)
    requires
        !(state.outcome is Succeeded),
    ensures
        after_event(state, event) == state,
        action_of(state, event) == if command_of(event) == Command::Quit {
            ActionView::Quit
        } else {
            ActionView::Continue
        },
{
}

/// No sequence of events changes the query or the outcome of the search,
/// and a legal selection stays legal: inside the list of results when there
/// are any, untouched when there are none.
pub proof fn lemma_events_keep_state_legal(state: StateView, events: Seq<Option<Event>>)
    ensures
        after_events(state, events).query == state.query,
        after_events(state, events).outcome == state.outcome,
        state.wf() ==> after_events(state, events).wf(),
        state.item_count() == 0 ==> after_events(state, events) == state,
    decreases events.len(),
{
    if events.len() > 0 {
        lemma_events_keep_state_legal(state, events.drop_last());
    }
}

/// Once the outcome of the search has been deposited, it is what every later
/// reading finds, whatever events come in between: a finished search never
/// turns back to pending.
pub proof fn lemma_completion_is_final(
    state: StateView,
    outcome: Outcome,
    events: Seq<Option<Event>>,
)
    ensures
        after_events(state.completed(outcome), events).outcome == outcome,
    decreases events.len(),
{
    if events.len() > 0 {
        lemma_completion_is_final(state, outcome, events.drop_last());
    }
}

/// In the rows that show a list of entries, each entry stands on the row of
/// its position, each row after an entry but the last is blank, and there
/// are no other rows. In particular the first row shows the first entry.
pub proof fn lemma_rows_alternate(entries: Seq<ListEntryView>)
    ensures
        with_gaps(entries).len() == row_count(entries.len()),
        forall|i: int|
            0 <= i < entries.len() ==> with_gaps(entries)[#[trigger] row_of(i as nat) as int]
                == RowView::Entry(entries[i]),
        forall|i: int|
            0 <= i < entries.len() - 1 ==> with_gaps(entries)[(#[trigger] row_of(i as nat)) as int
                + 1]
                == RowView::Gap,
{
}

/// The highlighted row shows the selected result, and it is the address of
/// that result that enter opens: the blank rows in between never shift the
/// selection onto a neighbour.
pub proof fn lemma_highlighted_row_is_activated(
    query: QueryView,
    response: GoogleSearchResponseView,
    selection: nat,
)
    requires
        selection < response.items.len(),
    ensures
        ({
            let state = StateView { query, outcome: Outcome::Succeeded(response), selection };
            let row = row_of(selection);
            &&& screen_of(state) matches ScreenView::Results { rows, highlighted, .. }
            &&& highlighted == Some(row)
            &&& row < rows.len()
            &&& rows[row as int] == RowView::Entry(entry_of(response.items[selection as int]))
            &&& action_of(state, enter_key()) == ActionView::Open(
                response.items[selection as int].link,
            )
        }),
{
}

} // verus!
