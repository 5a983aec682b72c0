//! The state the window shows.
use vstd::prelude::*;

verus! {

/// What the window is doing, with the message it shows.
#[derive(Debug, Clone, PartialEq, Eq)]
pub enum AppState {
    Idle(String),
    Downloading(String),
    Error(String),
}

/// The view of an [`AppState`]: its kind and its message.
pub enum AppStateView {
    Idle(Seq<char>),
    Downloading(Seq<char>),
    Error(Seq<char>),
}

impl View for AppState {
    type V = AppStateView;

    open spec fn view(&self) -> AppStateView {
        match self {
            AppState::Idle(m) => AppStateView::Idle(m@),
            AppState::Downloading(m) => AppStateView::Downloading(m@),
            AppState::Error(m) => AppStateView::Error(m@),
        }
    }
}

} // verus!
