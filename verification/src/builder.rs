//! The settings of a watcher.
use vstd::prelude::*;

use crate::backend::{Backend, BackendSearch, SearchView};
use crate::error::{Error, ErrorView};

verus! {

/// The settings of a watcher that is to be started.
pub struct ClipboardWatcherBuilder {
    /// The MIME types that the watcher wants, the most wanted first.
    pub mime_preferences: Vec<String>,
    /// Whether the primary selection is watched.
    pub watch_primary: bool,
}

/// A [`ClipboardWatcherBuilder`] as a mathematical value.
#[verifier::ext_equal]
pub struct SettingsView {
    pub preferences: Seq<Seq<char>>,
    pub watch_primary: bool,
}

impl View for ClipboardWatcherBuilder {
    type V = SettingsView;

    open spec fn view(&self) -> SettingsView {
        SettingsView {
            preferences: self.mime_preferences.deep_view(),
            watch_primary: self.watch_primary,
        }
    }
}

impl SettingsView {
    /// The settings that a watcher has unless it is told otherwise: UTF-8 text first, then any
    /// other text, then images, and not the primary selection.
    pub open spec fn defaults() -> SettingsView {
        SettingsView {
            preferences: seq!["text/plain;charset=utf-8"@, "text/plain"@, "image/png"@],
            watch_primary: false,
        }
    }

    /// The settings with other preferences.
    pub open spec fn with_preferences(self, preferences: Seq<Seq<char>>) -> SettingsView {
        SettingsView { preferences, ..self }
    }

    /// The settings with or without the primary selection.
    pub open spec fn with_primary(self, watch_primary: bool) -> SettingsView {
        SettingsView { watch_primary, ..self }
    }
}

impl ClipboardWatcherBuilder {
    /// The settings that a watcher has unless it is told otherwise.
    pub fn new() -> (builder: Self)
        ensures
            builder@ == SettingsView::defaults(),
    {
        let mime_preferences = vec![
            "text/plain;charset=utf-8".to_string(),
            "text/plain".to_string(),
            "image/png".to_string(),
        ];
        assert(mime_preferences.deep_view() =~= SettingsView::defaults().preferences);
        ClipboardWatcherBuilder { mime_preferences, watch_primary: false }
    }

    /// Sets the MIME types that the watcher wants.
    pub fn mime_preferences(self, prefs: Vec<String>) -> (builder: Self)
        ensures
            builder@ == self@.with_preferences(prefs.deep_view()),
    {
        ClipboardWatcherBuilder { mime_preferences: prefs, watch_primary: self.watch_primary }
    }

    /// Sets whether the primary selection is watched.
    pub fn watch_primary(self, watch: bool) -> (builder: Self)
        ensures
            builder@ == self@.with_primary(watch),
    {
        ClipboardWatcherBuilder { mime_preferences: self.mime_preferences, watch_primary: watch }
    }
}

impl Default for ClipboardWatcherBuilder {
    fn default() -> (builder: Self)
        ensures
            builder@ == SettingsView::defaults(),
    {
        ClipboardWatcherBuilder::new()
    }
}

/// The settings do not depend on the order in which they are made, and of two settings of the same
/// thing the later one counts.
pub proof fn law_settings_are_independent(
    settings: SettingsView,
    preferences: Seq<Seq<char>>,
    later_preferences: Seq<Seq<char>>,
    watch: bool,
    later_watch: bool,
)
    ensures
        settings.with_preferences(preferences).with_primary(watch) == settings.with_primary(
            watch,
        ).with_preferences(preferences),
        settings.with_preferences(preferences).with_preferences(later_preferences)
            == settings.with_preferences(later_preferences),
        settings.with_primary(watch).with_primary(later_watch) == settings.with_primary(
            later_watch,
        ),
{
}

/// The search for a backend that a watcher with certain settings can be started on.
pub struct WatcherSearch {
    pub settings: ClipboardWatcherBuilder,
    pub search: BackendSearch,
}

/// A [`WatcherSearch`] as a mathematical value.
#[verifier::ext_equal]
pub struct WatcherSearchView {
    pub settings: SettingsView,
    pub search: SearchView,
}

impl View for WatcherSearch {
    type V = WatcherSearchView;

    open spec fn view(&self) -> WatcherSearchView {
        WatcherSearchView { settings: self.settings@, search: self.search@ }
    }
}

impl WatcherSearchView {
    /// How the search goes on once the backend has failed with `reason`.
    pub open spec fn after_failure(self, reason: Seq<char>) -> Result<
        WatcherSearchView,
        ErrorView,
    > {
        match self.search.after_failure(reason) {
            Ok(search) => Ok(WatcherSearchView { search, ..self }),
            Err(error) => Err(error),
        }
    }

    /// How the search goes on once the backends have failed one after the other.
    pub open spec fn after_failures(self, reasons: Seq<Seq<char>>) -> Result<
        WatcherSearchView,
        ErrorView,
    >
        decreases reasons.len(),
    {
        if reasons.len() == 0 {
            Ok(self)
        } else {
            match self.after_failures(reasons.drop_last()) {
                Ok(search) => search.after_failure(reasons.last()),
                Err(error) => Err(error),
            }
        }
    }
}

impl WatcherSearch {
    /// The beginning of the search.
    pub fn new(settings: ClipboardWatcherBuilder) -> (search: Self)
        ensures
            search@ == (WatcherSearchView { settings: settings@, search: SearchView::Wlr }),
    {
        WatcherSearch { settings, search: BackendSearch::new() }
    }

    /// The backend to start the watcher on, with the settings.
    pub fn backend(&self) -> (backend: Backend)
        ensures
            backend == self@.search.backend(),
    {
        self.search.backend()
    }

    /// How the search goes on once the backend has failed; `reason` is the text of its error.
    pub fn failed(self, reason: String) -> (next: Result<WatcherSearch, Error>)
        ensures
            match self@.after_failure(reason@) {
                Ok(search) => next matches Ok(actual) && actual@ == search,
                Err(error) => next matches Err(actual) && actual@ == error,
            },
    {
        match self.search.failed(reason) {
            Ok(search) => Ok(WatcherSearch { settings: self.settings, search }),
            Err(error) => Err(error),
        }
    }
}

/// Every backend is tried with the settings that the search began with.
pub proof fn law_every_backend_gets_the_settings(
    search: WatcherSearchView,
    reasons: Seq<Seq<char>>,
)
    ensures
        search.after_failures(reasons) matches Ok(later) ==> later.settings == search.settings,
    decreases reasons.len(),
{
    if reasons.len() > 0 {
        law_every_backend_gets_the_settings(search, reasons.drop_last());
    }
}

/// A setting is what it was set to, and leaves the other one as it was.
pub proof fn law_settings_are_taken_as_given(
    settings: SettingsView,
    preferences: Seq<Seq<char>>,
    watch: bool,
)
    ensures
        settings.with_preferences(preferences).preferences == preferences,
        settings.with_preferences(preferences).watch_primary == settings.watch_primary,
        settings.with_primary(watch).watch_primary == watch,
        settings.with_primary(watch).preferences == settings.preferences,
{
}

/// Unless it is told otherwise, a watcher wants UTF-8 text, then other text, then images, nothing
/// else, and does not watch the primary selection.
pub proof fn law_default_settings()
    ensures
        SettingsView::defaults().preferences.len() == 3,
        SettingsView::defaults().preferences[0] == "text/plain;charset=utf-8"@,
        SettingsView::defaults().preferences[1] == "text/plain"@,
        SettingsView::defaults().preferences[2] == "image/png"@,
        !SettingsView::defaults().watch_primary,
{
}

/// Whatever the settings are, the search goes on as it would without any: with the next backend and
/// the same settings, or not at all.
pub proof fn law_settings_do_not_stop_the_search(search: WatcherSearchView, reason: Seq<char>)
    ensures
        match search.search.after_failure(reason) {
            Ok(next) => search.after_failure(reason) matches Ok(later) && later.search == next
                && later.settings == search.settings,
            Err(error) => search.after_failure(reason) == Err::<WatcherSearchView, ErrorView>(
                error,
            ),
        },
{
}

/// Whatever the settings are and whatever the backends answer, a watcher is tried on wlroots, then on
/// the general library, then on the X server, each time with the same settings, and the search is
/// given up exactly when all three have failed, with what each of them has answered.
pub proof fn law_all_backends_are_tried(settings: SettingsView, reasons: Seq<Seq<char>>)
    ensures
        ({
            let start = WatcherSearchView { settings, search: SearchView::Wlr };
            match start.after_failures(reasons) {
                Ok(search) => {
                    &&& reasons.len() < 3
                    &&& search.settings == settings
                    &&& reasons.len() == 0 ==> search.search.backend() == Backend::Wlr
                    &&& reasons.len() == 1 ==> search.search.backend() == Backend::Ext
                    &&& reasons.len() == 2 ==> search.search.backend() == Backend::X11
                },
                Err(error) => {
                    &&& reasons.len() >= 3
                    &&& error == (ErrorView::NoBackend {
                        wayland: "wlr: "@ + reasons[0] + "; ext/wlr: "@ + reasons[1],
                        x11: reasons[2],
                    })
                },
            }
        }),
    decreases reasons.len(),
{
    let start = WatcherSearchView { settings, search: SearchView::Wlr };
    reveal_with_fuel(WatcherSearchView::after_failures, 4);
    if reasons.len() > 3 {
        law_all_backends_are_tried(settings, reasons.drop_last());
    }
}

/// The mathematical values hold what the settings and the search hold.
pub proof fn law_builder_views(settings: ClipboardWatcherBuilder, search: WatcherSearch)
    ensures
        settings@.preferences == settings.mime_preferences.deep_view(),
        settings@.watch_primary == settings.watch_primary,
        search@.settings == search.settings@,
        search@.search == search.search@,
{
}

} // verus!
