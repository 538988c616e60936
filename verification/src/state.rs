//! Everything that the fetch and the input loop share: the query, the
//! outcome of the search, and the selection.
//!
//! The outcome starts as pending and is written once, by the fetch. The
//! selection is moved by the input loop alone.

use vstd::prelude::*;

use crate::cli::{Query, QueryView};
use crate::google::{GoogleError, GoogleErrorView, GoogleSearchResponse, GoogleSearchResponseView};
use crate::selection::{in_range, SelectionState};

verus! {

/// The outcome of the search, as far as it is known.
#[derive(Debug, PartialEq, Eq)]
pub enum QueryState {
    /// The request is still under way.
    Searching,
    /// The request is over, with an answer or with the reason for none.
    Finished(Result<GoogleSearchResponse, GoogleError>),
}

/// A [`QueryState`] as plain text: one of three cases.
pub ghost enum Outcome {
    Pending,
    Succeeded(GoogleSearchResponseView),
    Failed(GoogleErrorView),
}

impl Outcome {
    /// Number of results to move through: those of the answer, and none
    /// while there is no answer.
    pub open spec fn item_count(self) -> nat {
        match self {
            Outcome::Succeeded(response) => response.items.len(),
            _ => 0,
        }
    }
}

/// The outcome that a finished request leaves behind.
pub open spec fn finished(result: Result<GoogleSearchResponse, GoogleError>) -> Outcome {
    match result {
        Ok(response) => Outcome::Succeeded(response@),
        Err(error) => Outcome::Failed(error@),
    }
}

impl View for QueryState {
    type V = Outcome;

    open spec fn view(&self) -> Outcome {
        match self {
            QueryState::Searching => Outcome::Pending,
            QueryState::Finished(result) => finished(*result),
        }
    }
}

impl QueryState {
    /// Whether the request is still under way.
    pub fn is_searching(&self) -> (searching: bool)
        ensures
            searching == (self@ is Pending),
    {
        match self {
            QueryState::Searching => true,
            QueryState::Finished(_) => false,
        }
    }

    /// The answer, if the search has succeeded.
    pub fn results(&self) -> (results: Option<&GoogleSearchResponse>)
        ensures
            match results {
                Some(response) => *self == QueryState::Finished(Ok(*response)),
                None => !(self@ is Succeeded),
            },
    {
        match self {
            QueryState::Finished(Ok(response)) => Some(response),
            _ => None,
        }
    }

    /// The answer of a search that has succeeded.
    pub fn unwrap_results(&self) -> (results: &GoogleSearchResponse)
        requires
            self@ is Succeeded,
        ensures
            *self == QueryState::Finished(Ok(*results)),
    {
        match self {
            QueryState::Finished(Ok(response)) => response,
            _ => vstd::pervasive::unreached(),
        }
    }

    /// Number of results to move through: those of the answer, and none
    /// while there is no answer.
    pub fn item_count(&self) -> (count: usize)
        ensures
            count == self@.item_count(),
    {
        match self {
            QueryState::Finished(Ok(response)) => response.items.len(),
            _ => 0,
        }
    }
}

/// The query, the outcome of its search, and the selection among its results.
#[derive(Debug, PartialEq, Eq)]
pub struct State {
    /// What is searched for.
    pub query: Query,
    /// The outcome of the search: written once, read many times.
    pub results: QueryState,
    /// The highlighted result.
    pub list: SelectionState,
}

/// A [`State`] as plain values.
pub ghost struct StateView {
    pub query: QueryView,
    pub outcome: Outcome,
    pub selection: nat,
}

impl StateView {
    /// Number of results to move through.
    pub open spec fn item_count(self) -> nat {
        self.outcome.item_count()
    }

    /// Whether the selection is legal: inside the list of results whenever
    /// there is at least one result.
    pub open spec fn wf(self) -> bool {
        in_range(self.selection, self.item_count())
    }

    /// This state with its outcome replaced by `outcome`.
    pub open spec fn completed(self, outcome: Outcome) -> StateView {
        StateView { outcome, ..self }
    }
}

impl View for State {
    type V = StateView;

    open spec fn view(&self) -> StateView {
        StateView { query: self.query@, outcome: self.results@, selection: self.list@ }
    }
}

impl State {
    /// The state at startup: the search pending, the selection on the first
    /// result to come.
    pub fn new(query: Query) -> (state: Self)
        ensures
            state.query == query,
            state@ == (StateView { query: query@, outcome: Outcome::Pending, selection: 0 }),
            state@.wf(),
    {
        State { query, results: QueryState::Searching, list: SelectionState::new() }
    }

    /// The outcome as it stands now.
    pub fn read(&self) -> (outcome: &QueryState)
        ensures
            *outcome == self.results,
    {
        &self.results
    }

    /// Deposits the outcome of the search. This happens once: the search
    /// must still be pending.
    pub fn complete(&mut self, outcome: Result<GoogleSearchResponse, GoogleError>)
        requires
            old(self)@.outcome is Pending,
        ensures
            final(self).results == QueryState::Finished(outcome),
            final(self).query == old(self).query,
            final(self).list == old(self).list,
            final(self)@ == old(self)@.completed(finished(outcome)),
            !(final(self)@.outcome is Pending),
    {
        self.results = QueryState::Finished(outcome);
    }
}

} // verus!
