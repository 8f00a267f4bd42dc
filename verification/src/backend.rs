//! The order in which the ways to reach the clipboard are tried.
use vstd::prelude::*;

use crate::error::{Error, ErrorView};

verus! {

/// A way to reach the clipboard.
#[derive(Debug, Clone, Copy, PartialEq, Eq, Structural)]
pub enum Backend {
    /// The data-control protocol of wlroots.
    Wlr,
    /// The data-control protocols, by way of a general clipboard library.
    Ext,
    /// An X server, or XWayland.
    X11,
}

/// How far the search for a backend has come, with what the backends tried so far have answered.
pub enum BackendSearch {
    Wlr,
    Ext { wlr: String },
    X11 { wlr: String, ext: String },
}

/// A [`BackendSearch`] as a mathematical value.
#[verifier::ext_equal]
pub enum SearchView {
    Wlr,
    Ext { wlr: Seq<char> },
    X11 { wlr: Seq<char>, ext: Seq<char> },
}

impl View for BackendSearch {
    type V = SearchView;

    open spec fn view(&self) -> SearchView {
        match *self {
            BackendSearch::Wlr => SearchView::Wlr,
            BackendSearch::Ext { wlr } => SearchView::Ext { wlr: wlr@ },
            BackendSearch::X11 { wlr, ext } => SearchView::X11 { wlr: wlr@, ext: ext@ },
        }
    }
}

/// The error once all backends have failed, with what each of them has answered.
pub open spec fn no_backend(wlr: Seq<char>, ext: Seq<char>, x11: Seq<char>) -> ErrorView {
    ErrorView::NoBackend { wayland: "wlr: "@ + wlr + "; ext/wlr: "@ + ext, x11 }
}

impl SearchView {
    /// The backend to try.
    pub open spec fn backend(self) -> Backend {
        match self {
            SearchView::Wlr => Backend::Wlr,
            SearchView::Ext { .. } => Backend::Ext,
            SearchView::X11 { .. } => Backend::X11,
        }
    }

    /// How the search goes on once the backend has failed with `reason`.
    pub open spec fn after_failure(self, reason: Seq<char>) -> Result<SearchView, ErrorView> {
        match self {
            SearchView::Wlr => Ok(SearchView::Ext { wlr: reason }),
            SearchView::Ext { wlr } => Ok(SearchView::X11 { wlr, ext: reason }),
            SearchView::X11 { wlr, ext } => Err(no_backend(wlr, ext, reason)),
        }
    }
}

impl BackendSearch {
    /// The beginning of the search.
    pub fn new() -> (search: Self)
        ensures
            search@ == SearchView::Wlr,
    {
        BackendSearch::Wlr
    }

    /// The backend to try.
    pub fn backend(&self) -> (backend: Backend)
        ensures
            backend == self@.backend(),
    {
        match self {
            BackendSearch::Wlr => Backend::Wlr,
            BackendSearch::Ext { .. } => Backend::Ext,
            BackendSearch::X11 { .. } => Backend::X11,
        }
    }

    /// How the search goes on once the backend has failed; `reason` is the text of its error.
    pub fn failed(self, reason: String) -> (next: Result<BackendSearch, Error>)
        ensures
            match self@.after_failure(reason@) {
                Ok(search) => next matches Ok(actual) && actual@ == search,
                Err(error) => next matches Err(actual) && actual@ == error,
            },
    {
        match self {
            BackendSearch::Wlr => Ok(BackendSearch::Ext { wlr: reason }),
            BackendSearch::Ext { wlr } => Ok(BackendSearch::X11 { wlr, ext: reason }),
            BackendSearch::X11 { wlr, ext } => {
                let wayland = "wlr: ".to_string().concat(wlr.as_str()).concat("; ext/wlr: ").concat(
                    ext.as_str(),
                );
                Err(Error::NoBackend { wayland, x11: reason })
            },
        }
    }
}

/// How the search goes on once the backends have failed one after the other.
pub open spec fn after_failures(reasons: Seq<Seq<char>>) -> Result<SearchView, ErrorView>
    decreases reasons.len(),
{
    if reasons.len() == 0 {
        Ok(SearchView::Wlr)
    } else {
        match after_failures(reasons.drop_last()) {
            Ok(search) => search.after_failure(reasons.last()),
            Err(error) => Err(error),
        }
    }
}

/// The Wayland backends are tried before the X server; the search is given up exactly when all
/// three have failed, and the error holds what each of them has answered.
pub proof fn law_x11_is_the_last_resort(reasons: Seq<Seq<char>>)
    ensures
        match after_failures(reasons) {
            Ok(search) => {
                &&& reasons.len() < 3
                &&& search.backend() == (if reasons.len() == 0 {
                    Backend::Wlr
                } else if reasons.len() == 1 {
                    Backend::Ext
                } else {
                    Backend::X11
                })
            },
            Err(error) => {
                &&& reasons.len() >= 3
                &&& error == no_backend(reasons[0], reasons[1], reasons[2])
            },
        },
    decreases reasons.len(),
{
    reveal_with_fuel(after_failures, 4);
    if reasons.len() > 3 {
        law_x11_is_the_last_resort(reasons.drop_last());
    }
}

/// Whatever a backend has failed with, the next one is tried: after wlroots the general library,
/// after that the X server.  The failure of the X server ends the search with what each of the three
/// has answered.
pub proof fn law_failure_leads_to_the_next_backend(
    wlr: Seq<char>,
    ext: Seq<char>,
    reason: Seq<char>,
)
    ensures
        SearchView::Wlr.backend() == Backend::Wlr,
        (SearchView::Ext { wlr }).backend() == Backend::Ext,
        (SearchView::X11 { wlr, ext }).backend() == Backend::X11,
        SearchView::Wlr.after_failure(reason) == Ok::<SearchView, ErrorView>(
            SearchView::Ext { wlr: reason },
        ),
        (SearchView::Ext { wlr }).after_failure(reason) == Ok::<SearchView, ErrorView>(
            SearchView::X11 { wlr, ext: reason },
        ),
        (SearchView::X11 { wlr, ext }).after_failure(reason) == Err::<SearchView, ErrorView>(
            ErrorView::NoBackend { wayland: "wlr: "@ + wlr + "; ext/wlr: "@ + ext, x11: reason },
        ),
{
}

/// The mathematical value holds how far the search has come and what was answered.
pub proof fn law_search_view(wlr: String, ext: String)
    ensures
        BackendSearch::Wlr@ == SearchView::Wlr,
        (BackendSearch::Ext { wlr })@ == (SearchView::Ext { wlr: wlr@ }),
        (BackendSearch::X11 { wlr, ext })@ == (SearchView::X11 { wlr: wlr@, ext: ext@ }),
{
}

} // verus!
