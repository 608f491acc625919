//! The state behind the chart and its symbol editor, and what each click
//! makes of it.
//!
//! The window shows either the symbol as a button beside the chart's
//! caption, or an editor for the symbol between a cancel and a confirm
//! button. Every click on one of the three buttons switches between the two.
//! Fetching quotes is left to the caller: confirming says whether quotes are
//! to be fetched, and the caller hands back what came of it.

use crate::error::AppError;
use crate::stock::{Stock, StockView};
use vstd::prelude::*;

verus! {

/// The application's state.
#[derive(Debug)]
pub struct AppState {
    /// The symbol on view, or being edited.
    pub stock_name: String,
    /// The symbol as it was when the editor was opened.
    pub stock_name_prev: String,
    /// Whether the symbol is shown as a button, the editor closed.
    pub stock_name_input: bool,
    /// The series on view.
    pub stock: Stock,
    /// Whether the last fetch gave a series; the chart gives way to an error
    /// label where it did not.
    pub valid: bool,
    /// The key that requests are made with.
    pub api_key: String,
}

/// What a state is.
pub struct AppStateView {
    pub stock_name: Seq<char>,
    pub stock_name_prev: Seq<char>,
    pub stock_name_input: bool,
    pub stock: StockView,
    pub valid: bool,
    pub api_key: Seq<char>,
}

impl View for AppState {
    type V = AppStateView;

    open spec fn view(&self) -> AppStateView {
        AppStateView {
            stock_name: self.stock_name@,
            stock_name_prev: self.stock_name_prev@,
            stock_name_input: self.stock_name_input,
            stock: self.stock@,
            valid: self.valid,
            api_key: self.api_key@,
        }
    }
}

/// The state after a click on the symbol button: the symbol on view is
/// remembered, and the editor opens.
pub open spec fn editing_started(s: AppStateView) -> AppStateView {
    AppStateView { stock_name_prev: s.stock_name, stock_name_input: !s.stock_name_input, ..s }
}

/// The state after a click on the cancel button: the symbol is what it was
/// when the editor opened, and the editor closes.
pub open spec fn editing_cancelled(s: AppStateView) -> AppStateView {
    AppStateView { stock_name: s.stock_name_prev, stock_name_input: !s.stock_name_input, ..s }
}

/// Whether a click on the confirm button asks for quotes: the symbol is not
/// empty and differs from the remembered one.
pub open spec fn wants_fetch(s: AppStateView) -> bool {
    s.stock_name.len() > 0 && s.stock_name != s.stock_name_prev
}

/// The state after a click on the confirm button, before any quotes arrive:
/// an empty symbol gives way to the remembered one, and the editor closes.
pub open spec fn editing_confirmed(s: AppStateView) -> AppStateView {
    AppStateView {
        stock_name: if s.stock_name.len() == 0 {
            s.stock_name_prev
        } else {
            s.stock_name
        },
        stock_name_input: !s.stock_name_input,
        ..s
    }
}

/// The state after a fetch came back with `stock`, or with `None` where it
/// failed: a series replaces the one on view and makes the state valid; a
/// failure leaves the series and makes the state invalid.
pub open spec fn quotes_received(s: AppStateView, stock: Option<StockView>) -> AppStateView {
    match stock {
        Some(stock) => AppStateView { stock, valid: true, ..s },
        None => AppStateView { valid: false, ..s },
    }
}

impl AppState {
    /// The state at startup: the symbol on view with its series, the editor
    /// closed, the state valid.
    pub fn new(stock_name: String, stock: Stock, api_key: String) -> (state: AppState)
        ensures
            state@ == (AppStateView {
                stock_name: stock_name@,
                stock_name_prev: stock_name@,
                stock_name_input: true,
                stock: stock@,
                valid: true,
                api_key: api_key@,
            }),
    {
        let stock_name_prev = stock_name.clone();
        AppState { stock_name, stock_name_prev, stock_name_input: true, stock, valid: true, api_key }
    }

    /// Handles a click on the symbol button.
    pub fn start_editing(&mut self)
        ensures
            final(self)@ == editing_started(old(self)@),
    {
        if self.stock_name_prev != self.stock_name {
            self.stock_name_prev = self.stock_name.clone();
        }
        self.stock_name_input = !self.stock_name_input;
    }

    /// Handles a click on the cancel button.
    pub fn cancel_editing(&mut self)
        ensures
            final(self)@ == editing_cancelled(old(self)@),
    {
        if self.stock_name != self.stock_name_prev {
            self.stock_name = self.stock_name_prev.clone();
        }
        self.stock_name_input = !self.stock_name_input;
    }

    /// Handles a click on the confirm button, and tells whether the quotes of
    /// the symbol are to be fetched and handed to `receive_quotes`.
    pub fn confirm_editing(&mut self) -> (fetch: bool)
        ensures
            fetch == wants_fetch(old(self)@),
            final(self)@ == editing_confirmed(old(self)@),
    {
        let mut fetch = false;
        if !self.stock_name.as_str().is_empty() {
            if self.stock_name != self.stock_name_prev {
                fetch = true;
            }
        } else {
            self.stock_name = self.stock_name_prev.clone();
        }
        self.stock_name_input = !self.stock_name_input;
        fetch
    }

    /// Takes in what a fetch came back with.
    pub fn receive_quotes(&mut self, outcome: Result<Stock, AppError>)
        ensures
            final(self)@ == quotes_received(
                old(self)@,
                match outcome {
                    Ok(stock) => Some(stock@),
                    Err(_) => None,
                },
            ),
    {
        match outcome {
            Ok(stock) => {
                self.stock = stock;
                self.valid = true;
            },
            Err(_) => {
                self.valid = false;
            },
        }
    }
}

} // verus!
