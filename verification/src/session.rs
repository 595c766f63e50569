//! The session state machine: it owns the loaded configuration, the current
//! filtered subset and the running flag, and reacts to input events by
//! invoking the matcher and the resolver. Launching itself is the caller's
//! job: a text-edit event yields the launch target, and the caller reports
//! back whether the launch succeeded.

use vstd::prelude::*;

use crate::matcher::find_spec;
use crate::matcher::find;
use crate::prefix::prefixed;
use crate::resolver::resolution_index;
use crate::resolver::resolve;
use crate::shortcut::{Config, Shortcut, ShortcutV};

verus! {

/// Why the configuration could not be loaded. The load is terminal for
/// matching but not for the process: a session in this state still accepts
/// the cancel signal.
pub enum LoadConfigError {
    /// The configuration source was unreadable; carries the reported reason.
    IoError(String),
    /// The configuration content was malformed; carries the reported reason.
    ParseError(String),
    /// No known location for the configuration exists on this platform.
    NoConfig,
}

impl LoadConfigError {
    /// The text the presentation layer shows for this failure.
    pub fn message(&self) -> (r: String)
        ensures
            self matches LoadConfigError::IoError(m) ==> r@ == m@,
            self matches LoadConfigError::ParseError(m) ==> r@ == m@,
            self matches LoadConfigError::NoConfig ==> r@ == "Config does not exist in \"documents/bullet/config.json\""@,
    {
        match self {
            LoadConfigError::IoError(m) => m.clone(),
            LoadConfigError::ParseError(m) => m.clone(),
            LoadConfigError::NoConfig => String::from_str(
                "Config does not exist in \"documents/bullet/config.json\"",
            ),
        }
    }
}

/// One discrete input event: the cancel signal, or a text edit that left
/// the query with the given content.
pub enum InputEvent {
    Cancel,
    Edit(String),
}

/// The mutable per-run state driving the interactive loop.
pub struct App {
    /// The configuration as loaded once at session start, or why it failed.
    pub config: Result<Config, LoadConfigError>,
    /// The current filtered subset, a projection of the corpus and query.
    pub matched_shortcuts: Vec<Shortcut>,
    /// Cleared when the session should terminate.
    pub running: bool,
}

/// The launch target an updated filtered subset and query resolve to, as
/// [`resolve`] states it over [`resolution_index`] and [`prefixed`].
pub open spec fn launch_decision(f: Seq<ShortcutV>, q: Seq<char>, r: Option<String>) -> bool {
    match resolution_index(f, q) {
        Some(i) => match r {
            Some(p) => (f[i].path_prefix is None ==> p@ == f[i].path) && (f[i].path_prefix
                is Some ==> exists|b: Seq<char>| p@ == prefixed(b, f[i].path)),
            None => f[i].path_prefix is Some,
        },
        None => r is None,
    }
}

/// A session whose filtered subset is empty never launches: the resolver
/// yields no resolution over an empty candidate list, so a failed load,
/// whose subset stays empty, can only be exited by cancel.
pub proof fn lemma_empty_subset_never_launches(q: Seq<char>, launch: Option<String>)
    requires
        launch_decision(Seq::<ShortcutV>::empty(), q, launch),
    ensures
        launch is None,
{
}

impl App {
    /// A fresh session: running, showing the whole corpus, or an empty
    /// subset when the configuration failed to load.
    pub fn new(config: Result<Config, LoadConfigError>) -> (app: App)
        ensures
            app.running,
            app.config == config,
            match config {
                Ok(c) => app.matched_shortcuts.deep_view() == c@,
                Err(_) => app.matched_shortcuts@ == Seq::<Shortcut>::empty(),
            },
    {
        let mut app = App { running: true, config, matched_shortcuts: Vec::new() };
        if let Ok(config) = &app.config {
            let matched = config.shortcuts.clone();
            proof {
                assert(matched.deep_view() =~= config.shortcuts.deep_view());
            }
            app.matched_shortcuts = matched;
        }
        app
    }

    /// A text-edit transition: recomputes the filtered subset from the full
    /// corpus and the new query, and returns the launch target if the
    /// subset now resolves. A session whose load failed ignores the edit.
    /// The caller attempts the launch and reports via
    /// [`App::handle_launch_result`].
    pub fn find_and_handle_matches(&mut self, search: &str) -> (launch: Option<String>)
        ensures
            final(self).config == old(self).config,
            final(self).running == old(self).running,
            old(self).config matches Ok(c) ==> final(self).matched_shortcuts.deep_view()
                == find_spec(c@, search@),
            old(self).config is Err ==> final(self).matched_shortcuts
                == old(self).matched_shortcuts,
            launch_decision(final(self).matched_shortcuts.deep_view(), search@, launch),
    {
        if let Ok(cfg) = &self.config {
            self.matched_shortcuts = find(&cfg.shortcuts, search);
        }
        resolve(&self.matched_shortcuts, search)
    }

    /// The launch outcome: success terminates the session; failure is
    /// swallowed and the session keeps accepting input.
    pub fn handle_launch_result(&mut self, success: bool)
        ensures
            final(self).config == old(self).config,
            final(self).matched_shortcuts == old(self).matched_shortcuts,
            final(self).running == (old(self).running && !success),
    {
        if success {
            self.running = false;
        }
    }

    /// The cancel signal: terminates the session from any state.
    pub fn quit(&mut self)
        ensures
            final(self).config == old(self).config,
            final(self).matched_shortcuts == old(self).matched_shortcuts,
            !final(self).running,
    {
        self.running = false;
    }

    /// One full transition of the state machine on a discrete input event.
    pub fn handle_event(&mut self, ev: InputEvent) -> (launch: Option<String>)
        ensures
            final(self).config == old(self).config,
            ev is Cancel ==> !final(self).running && launch is None
                && final(self).matched_shortcuts == old(self).matched_shortcuts,
            ev matches InputEvent::Edit(s) ==> final(self).running == old(self).running
                && (old(self).config matches Ok(c)
                    ==> final(self).matched_shortcuts.deep_view() == find_spec(c@, s@))
                && (old(self).config is Err
                    ==> final(self).matched_shortcuts == old(self).matched_shortcuts)
                && launch_decision(final(self).matched_shortcuts.deep_view(), s@, launch),
    {
        match ev {
            InputEvent::Cancel => {
                self.quit();
                None
            },
            InputEvent::Edit(s) => self.find_and_handle_matches(s.as_str()),
        }
    }
}

} // verus!
