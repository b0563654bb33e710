//! What a session remembers: the latest result, the latest error, and the
//! results that the user saved for comparison.
use vstd::prelude::*;
use crate::format::{format_share, share_text};
use crate::models::{ComparisonEntry, OptimizationResult, ResultView};
use crate::optimizer::{ErrorView, OptimizationError};

verus! {

/// The saved results, in the order in which they were saved. Entries are
/// only ever added at the end, until the whole ledger is cleared.
#[derive(Debug)]
pub struct ComparisonLedger {
    entries: Vec<ComparisonEntry>,
}

/// The views of a list of entries, in order.
pub open spec fn entry_views(entries: Seq<ComparisonEntry>) -> Seq<(ResultView, Seq<char>)> {
    Seq::new(entries.len(), |i: int| entries[i]@)
}

impl View for ComparisonLedger {
    type V = Seq<(ResultView, Seq<char>)>;

    closed spec fn view(&self) -> Seq<(ResultView, Seq<char>)> {
        entry_views(self.entries@)
    }
}

impl ComparisonLedger {
    /// A ledger without entries.
    pub fn new() -> (ledger: Self)
        ensures
            ledger@ == Seq::<(ResultView, Seq<char>)>::empty(),
    {
        let ledger = ComparisonLedger { entries: Vec::new() };
        ledger
    }

    /// Adds a copy of `result` at the end, under `label`. Nothing is ever
    /// refused: neither a result that is already there, nor one too many.
    pub fn save(&mut self, result: &OptimizationResult, label: String)
        ensures
            final(self)@ == old(self)@.push((result@, label@)),
    {
        self.entries.push(ComparisonEntry { result: result.clone(), timestamp: label });
    }

    /// Removes every entry.
    pub fn clear(&mut self)
        ensures
            final(self)@ == Seq::<(ResultView, Seq<char>)>::empty(),
    {
        self.entries.clear();
    }

    /// The entries, oldest first.
    pub fn entries(&self) -> (entries: &Vec<ComparisonEntry>)
        ensures
            entry_views(entries@) == self@,
    {
        &self.entries
    }
}

/// The view of a result that may be absent.
pub open spec fn shown_result(result: Option<OptimizationResult>) -> Option<ResultView> {
    match result {
        Some(result) => Some(result@),
        None => None,
    }
}

/// The view of an error that may be absent.
pub open spec fn shown_error(error: Option<OptimizationError>) -> Option<ErrorView> {
    match error {
        Some(error) => Some(error@),
        None => None,
    }
}

/// The state of a session.
#[derive(Debug)]
pub struct Session {
    current: Option<OptimizationResult>,
    saved: Option<OptimizationResult>,
    error: Option<OptimizationError>,
    history: ComparisonLedger,
}

/// What a [`Session`] is, as a mathematical value.
pub struct SessionView {
    /// The result of the latest optimization that gave one.
    pub current: Option<ResultView>,
    /// The result that was saved last.
    pub saved: Option<ResultView>,
    /// Why the latest optimization gave no result, if it gave none.
    pub error: Option<ErrorView>,
    pub history: Seq<(ResultView, Seq<char>)>,
}

impl SessionView {
    /// The session after an optimization ended with `result`.
    pub open spec fn with_result(self, result: ResultView) -> SessionView {
        SessionView { current: Some(result), error: None, ..self }
    }

    /// The session after an optimization failed with `error`: the result of
    /// an earlier optimization stays.
    pub open spec fn with_error(self, error: ErrorView) -> SessionView {
        SessionView { error: Some(error), ..self }
    }

    /// The session after the current result is saved, labelled with the
    /// ammonium share of the moment, which is given as a percentage in
    /// millionths of a percent. With no current result there is nothing to
    /// save.
    pub open spec fn with_saved(self, nh4_percentage: nat) -> SessionView {
        match self.current {
            Some(result) => SessionView {
                saved: Some(result),
                history: self.history.push((result, share_text(nh4_percentage))),
                ..self
            },
            None => self,
        }
    }

    /// The session after its history is cleared.
    pub open spec fn with_cleared_history(self) -> SessionView {
        SessionView { history: Seq::empty(), ..self }
    }
}

impl View for Session {
    type V = SessionView;

    closed spec fn view(&self) -> SessionView {
        SessionView {
            current: shown_result(self.current),
            saved: shown_result(self.saved),
            error: shown_error(self.error),
            history: self.history@,
        }
    }
}

impl Session {
    /// A session in which nothing has happened yet.
    pub fn new() -> (session: Self)
        ensures
            session@ == (SessionView {
                current: None,
                saved: None,
                error: None,
                history: Seq::empty(),
            }),
    {
        Session { current: None, saved: None, error: None, history: ComparisonLedger::new() }
    }

    /// Takes in how an optimization ended. A result becomes the current
    /// result and clears the error. An error is kept beside the current
    /// result, which stays as it was.
    pub fn record(&mut self, outcome: Result<OptimizationResult, OptimizationError>)
        ensures
            outcome matches Ok(result) ==> final(self)@ == old(self)@.with_result(result@),
            outcome matches Err(error) ==> final(self)@ == old(self)@.with_error(error@),
    {
        match outcome {
            Ok(result) => {
                self.current = Some(result);
                self.error = None;
            },
            Err(error) => {
                self.error = Some(error);
            },
        }
    }

    /// Saves the current result at the end of the history, labelled with the
    /// ammonium share of the moment. With no current result nothing is saved.
    pub fn save_current(&mut self, nh4_percentage: u32) -> (saved: bool)
        ensures
            saved == old(self)@.current is Some,
            final(self)@ == old(self)@.with_saved(nh4_percentage as nat),
    {
        match &self.current {
            Some(result) => {
                self.history.save(result, format_share(nh4_percentage));
                self.saved = Some(result.clone());
                true
            },
            None => false,
        }
    }

    /// Clears the history. The current and the saved result stay.
    pub fn clear_history(&mut self)
        ensures
            final(self)@ == old(self)@.with_cleared_history(),
    {
        self.history.clear();
    }

    /// The result of the latest optimization that gave one.
    pub fn current_result(&self) -> (result: &Option<OptimizationResult>)
        ensures
            shown_result(*result) == self@.current,
    {
        &self.current
    }

    /// The result that was saved last.
    pub fn last_saved_result(&self) -> (result: &Option<OptimizationResult>)
        ensures
            shown_result(*result) == self@.saved,
    {
        &self.saved
    }

    /// Why the latest optimization gave no result, if it gave none.
    pub fn error(&self) -> (error: &Option<OptimizationError>)
        ensures
            shown_error(*error) == self@.error,
    {
        &self.error
    }

    /// The saved results, oldest first.
    pub fn history(&self) -> (history: &ComparisonLedger)
        ensures
            history@ == self@.history,
    {
        &self.history
    }
}

} // verus!
