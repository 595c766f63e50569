use bullet::matcher::find;
use bullet::resolver::{resolve, resolve_index};
use bullet::session::{App, InputEvent, LoadConfigError};
use bullet::shortcut::{Config, Shortcut, ShortcutKind, ShortcutPathPrefix};

fn entry(path: &str, aliases: &[&str], kind: ShortcutKind) -> Shortcut {
    Shortcut {
        path: String::from(path),
        seq: aliases.iter().map(|a| String::from(*a)).collect(),
        description: None,
        kind,
        path_prefix: None,
    }
}

fn aliases_of(s: &Shortcut) -> Vec<String> {
    s.seq.clone()
}

#[test]
fn empty_query_returns_corpus_in_order() {
    let corpus = vec![
        entry("a", &["alpha"], ShortcutKind::App),
        entry("b", &["beta"], ShortcutKind::Url),
        entry("c", &["gamma"], ShortcutKind::Dir),
    ];
    let r = find(&corpus, "");
    assert_eq!(r.len(), 3);
    assert_eq!(r[0].path, "a");
    assert_eq!(r[1].path, "b");
    assert_eq!(r[2].path, "c");
}

#[test]
fn blank_query_returns_corpus() {
    let corpus = vec![
        entry("a", &["alpha"], ShortcutKind::App),
        entry("b", &["beta"], ShortcutKind::App),
    ];
    let r = find(&corpus, " \t ");
    assert_eq!(r.len(), 2);
}

#[test]
fn containment_not_prefix_match() {
    let corpus = vec![entry("files", &["list"], ShortcutKind::App)];
    // An interior substring matches; matching is containment, not prefix.
    let r = find(&corpus, "st");
    assert_eq!(r.len(), 1);
    assert_eq!(r[0].path, "files");
    // A non-contiguous subsequence does not.
    assert_eq!(find(&corpus, "ls").len(), 0);
}

#[test]
fn non_matching_entries_are_dropped() {
    let corpus = vec![
        entry("a", &["git"], ShortcutKind::App),
        entry("b", &["browser", "web"], ShortcutKind::App),
        entry("c", &["github"], ShortcutKind::App),
    ];
    let r = find(&corpus, "git");
    assert_eq!(r.len(), 2);
    assert_eq!(r[0].path, "a");
    assert_eq!(r[1].path, "c");
}

#[test]
fn matching_is_case_sensitive() {
    let corpus = vec![entry("a", &["Git"], ShortcutKind::App)];
    assert_eq!(find(&corpus, "git").len(), 0);
    assert_eq!(find(&corpus, "Gi").len(), 1);
}

#[test]
fn second_alias_can_match() {
    let corpus = vec![entry("a", &["one", "two"], ShortcutKind::App)];
    assert_eq!(find(&corpus, "tw").len(), 1);
}

#[test]
fn entry_without_aliases_never_matches() {
    let corpus = vec![entry("a", &[], ShortcutKind::App)];
    assert_eq!(find(&corpus, "x").len(), 0);
    // ... but a blank query is a no-op filter and keeps it.
    assert_eq!(find(&corpus, "").len(), 1);
}

#[test]
fn matcher_is_idempotent() {
    let corpus = vec![
        entry("a", &["git"], ShortcutKind::App),
        entry("b", &["vim"], ShortcutKind::App),
        entry("c", &["github"], ShortcutKind::App),
    ];
    let once = find(&corpus, "git");
    let twice = find(&once, "git");
    assert_eq!(once.len(), twice.len());
    for (x, y) in once.iter().zip(twice.iter()) {
        assert_eq!(x.path, y.path);
        assert_eq!(aliases_of(x), aliases_of(y));
    }
}

#[test]
fn sole_candidate_resolves_regardless_of_query() {
    let filtered = vec![entry("surf", &["browser"], ShortcutKind::App)];
    assert_eq!(resolve_index(&filtered, "bro"), Some(0));
    let target = resolve(&filtered, "bro");
    assert_eq!(target.as_deref(), Some("surf"));
}

#[test]
fn exact_alias_wins_among_many() {
    let filtered = vec![
        entry("g", &["git"], ShortcutKind::App),
        entry("gh", &["github"], ShortcutKind::App),
    ];
    assert_eq!(resolve_index(&filtered, "git"), Some(0));
    assert_eq!(resolve(&filtered, "git").as_deref(), Some("g"));
    // The exact match wins even when it comes later in the list.
    let reversed = vec![
        entry("gh", &["github"], ShortcutKind::App),
        entry("g", &["git"], ShortcutKind::App),
    ];
    assert_eq!(resolve_index(&reversed, "git"), Some(1));
    assert_eq!(resolve(&reversed, "git").as_deref(), Some("g"));
}

#[test]
fn no_exact_alias_means_no_resolution() {
    let filtered = vec![
        entry("g", &["git"], ShortcutKind::App),
        entry("gh", &["github"], ShortcutKind::App),
    ];
    assert_eq!(resolve_index(&filtered, "gi"), None);
    assert_eq!(resolve(&filtered, "gi"), None);
}

#[test]
fn empty_filtered_set_resolves_nothing() {
    let filtered: Vec<Shortcut> = Vec::new();
    assert_eq!(resolve_index(&filtered, "anything"), None);
    assert_eq!(resolve(&filtered, "anything"), None);
}

#[test]
fn end_to_end_typing_session() {
    let config = Config {
        shortcuts: vec![
            Shortcut {
                path: String::from("VSCode"),
                seq: vec![String::from("vs"), String::from("code")],
                description: None,
                kind: ShortcutKind::App,
                path_prefix: None,
            },
            Shortcut {
                path: String::from("OtherApp"),
                seq: vec![String::from("vsc")],
                description: None,
                kind: ShortcutKind::App,
                path_prefix: None,
            },
        ],
    };
    let mut app = App::new(Ok(config));
    assert!(app.running);
    assert_eq!(app.matched_shortcuts.len(), 2);

    // "v" matches both entries and equals no alias: both shown, no launch.
    let launch = app.find_and_handle_matches("v");
    assert_eq!(app.matched_shortcuts.len(), 2);
    assert_eq!(launch, None);
    assert!(app.running);

    // "vsc" narrows the subset to the second entry and equals its alias:
    // it resolves, and a successful launch terminates the session.
    let launch = app.find_and_handle_matches("vsc");
    assert_eq!(launch.as_deref(), Some("OtherApp"));
    app.handle_launch_result(true);
    assert!(!app.running);
}

#[test]
fn exact_alias_resolves_even_while_several_are_shown() {
    // With both entries still displayed, a query equal to one entry's alias
    // resolves to the first such entry in order.
    let config = Config {
        shortcuts: vec![
            entry("VSCode", &["vs", "code"], ShortcutKind::App),
            entry("OtherApp", &["vsc"], ShortcutKind::App),
        ],
    };
    let mut app = App::new(Ok(config));
    let launch = app.find_and_handle_matches("vs");
    assert_eq!(app.matched_shortcuts.len(), 2);
    assert_eq!(launch.as_deref(), Some("VSCode"));
}

#[test]
fn exact_alias_launches_even_with_many_matches() {
    let config = Config {
        shortcuts: vec![
            entry("VSCode", &["vs", "code"], ShortcutKind::App),
            entry("OtherApp", &["vsc"], ShortcutKind::App),
            entry("Visual", &["vscx"], ShortcutKind::App),
        ],
    };
    let mut app = App::new(Ok(config));
    // "vsc" matches the second and third entries; only the second is exact.
    let launch = app.find_and_handle_matches("vsc");
    assert_eq!(app.matched_shortcuts.len(), 2);
    assert_eq!(launch.as_deref(), Some("OtherApp"));
}

#[test]
fn failed_launch_keeps_session_running() {
    let config = Config { shortcuts: vec![entry("App", &["a"], ShortcutKind::App)] };
    let mut app = App::new(Ok(config));
    let launch = app.find_and_handle_matches("a");
    assert_eq!(launch.as_deref(), Some("App"));
    app.handle_launch_result(false);
    assert!(app.running);
    assert_eq!(app.matched_shortcuts.len(), 1);
}

#[test]
fn loading_failure_ignores_edits() {
    let mut app = App::new(Err(LoadConfigError::NoConfig));
    assert!(app.running);
    assert_eq!(app.matched_shortcuts.len(), 0);
    let launch = app.handle_event(InputEvent::Edit(String::from("x")));
    assert_eq!(launch, None);
    assert_eq!(app.matched_shortcuts.len(), 0);
    assert!(app.running);
}

#[test]
fn cancel_terminates_from_any_state() {
    let mut app = App::new(Err(LoadConfigError::NoConfig));
    let launch = app.handle_event(InputEvent::Cancel);
    assert_eq!(launch, None);
    assert!(!app.running);

    let config = Config { shortcuts: vec![entry("a", &["x"], ShortcutKind::App)] };
    let mut app = App::new(Ok(config));
    app.handle_event(InputEvent::Cancel);
    assert!(!app.running);
}

#[test]
fn error_messages() {
    assert_eq!(
        LoadConfigError::IoError(String::from("unreadable")).message(),
        "unreadable"
    );
    assert_eq!(
        LoadConfigError::ParseError(String::from("bad json")).message(),
        "bad json"
    );
    assert_eq!(
        LoadConfigError::NoConfig.message(),
        "Config does not exist in \"documents/bullet/config.json\""
    );
}

#[test]
fn prefixed_entries_flow_through_the_session() {
    // A prefixed entry resolves through the platform lookup at launch time;
    // whatever the environment supplies, the joined target keeps the
    // shortcut's own path as its final segment with forward slashes.
    let config = Config {
        shortcuts: vec![Shortcut {
            path: String::from("notes"),
            seq: vec![String::from("n")],
            description: None,
            kind: ShortcutKind::Dir,
            path_prefix: Some(ShortcutPathPrefix::Documents),
        }],
    };
    let mut app = App::new(Ok(config));
    let launch = app.find_and_handle_matches("n");
    if let Some(target) = launch {
        assert!(target.ends_with("/notes"));
        assert!(!target.contains('\\'));
    }
    // On a platform with no documents directory the resolver yields no
    // resolution rather than crashing, and the session keeps running.
    assert!(app.running);
}
