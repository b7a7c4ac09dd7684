use wallboard::config::SaveError;
use wallboard::config::ViewConfig;
use wallboard::config::default_config;
use wallboard::config::validate_config;
use wallboard::session::AppState;
use wallboard::session::HideStyle;
use wallboard::session::WindowOp;
use wallboard::session::save_config;
use wallboard::session::toggle_minimize_views;

fn fresh_state() -> AppState {
    AppState { config: default_config(), views_minimized: false }
}

#[test]
fn save_accepts_a_config_with_web_urls() {
    let mut state = fresh_state();
    let mut next = default_config();
    next.views[0].url = "http://intranet.example/board".to_string();
    assert_eq!(save_config(&mut state, next.clone()), Ok(()));
    assert_eq!(state.config, next);
    assert!(!state.views_minimized);
}

#[test]
fn save_rejects_a_non_web_scheme_and_keeps_the_state() {
    let mut state = fresh_state();
    let before = state.config.clone();
    let mut next = default_config();
    next.views[2].url = "ftp://files.example/a".to_string();
    let got = save_config(&mut state, next);
    assert_eq!(
        got,
        Err(SaveError::UrlMissingScheme {
            id: "bottomLeft".to_string(),
            url: "ftp://files.example/a".to_string(),
        })
    );
    assert_eq!(state.config, before);
    assert!(!state.views_minimized);
}

#[test]
fn save_rejects_a_bare_host_and_keeps_the_state() {
    let mut state = fresh_state();
    let before = state.config.clone();
    let mut next = default_config();
    next.views[0].url = "example.com".to_string();
    assert!(save_config(&mut state, next).is_err());
    assert_eq!(state.config, before);
}

#[test]
fn validate_names_the_first_offending_view() {
    let mut cfg = default_config();
    cfg.views[1].url = "file:///etc/hosts".to_string();
    cfg.views[3].url = "gopher://old.example".to_string();
    let got = validate_config(&cfg);
    assert_eq!(
        got,
        Err(SaveError::UrlMissingScheme {
            id: "topRight".to_string(),
            url: "file:///etc/hosts".to_string(),
        })
    );
}

#[test]
fn validate_accepts_both_web_schemes() {
    let mut cfg = default_config();
    cfg.views[0].url = "http://plain.example".to_string();
    cfg.views[1].url = "https://secure.example".to_string();
    assert_eq!(validate_config(&cfg), Ok(()));
}

#[test]
fn validate_rejects_uppercase_scheme() {
    // The prefix test is exact; an uppercase scheme does not pass.
    let mut cfg = default_config();
    cfg.views[0].url = "HTTPS://example.com".to_string();
    assert!(validate_config(&cfg).is_err());
}

fn window_set() -> Vec<String> {
    vec![
        "main".to_string(),
        "view-topLeft".to_string(),
        "view-topRight".to_string(),
        "settings".to_string(),
        "view-bottomLeft".to_string(),
        "view-bottomRight".to_string(),
    ]
}

#[test]
fn toggle_minimizes_only_view_windows() {
    let mut state = fresh_state();
    let (targets, ops) = toggle_minimize_views(&mut state, &window_set(), HideStyle::Minimize);
    assert!(state.views_minimized);
    assert_eq!(
        targets,
        vec![
            "view-topLeft".to_string(),
            "view-topRight".to_string(),
            "view-bottomLeft".to_string(),
            "view-bottomRight".to_string(),
        ]
    );
    assert_eq!(ops, vec![WindowOp::Minimize]);
}

#[test]
fn toggle_back_restores_with_unminimize_show_focus() {
    let mut state = fresh_state();
    state.views_minimized = true;
    let (_, ops) = toggle_minimize_views(&mut state, &window_set(), HideStyle::Minimize);
    assert!(!state.views_minimized);
    assert_eq!(ops, vec![WindowOp::Unminimize, WindowOp::Show, WindowOp::Focus]);
}

#[test]
fn toggle_on_hide_only_platforms_hides_and_shows() {
    let mut state = fresh_state();
    let (_, ops) = toggle_minimize_views(&mut state, &window_set(), HideStyle::HideOnly);
    assert_eq!(ops, vec![WindowOp::Hide]);
    let (_, ops) = toggle_minimize_views(&mut state, &window_set(), HideStyle::HideOnly);
    assert_eq!(ops, vec![WindowOp::Show, WindowOp::Focus]);
}

#[test]
fn toggle_leaves_the_config_alone() {
    let mut state = fresh_state();
    let before = state.config.clone();
    let _ = toggle_minimize_views(&mut state, &window_set(), HideStyle::Minimize);
    assert_eq!(state.config, before);
}

#[test]
fn profile_defaults_keep_views_isolated() {
    // Distinct ids give distinct default profiles, since the profile
    // defaults to the window label derived from the id.
    let a = ViewConfig { id: "one".to_string(), url: "https://a.example".to_string(), profile: None };
    let b = ViewConfig { id: "two".to_string(), url: "https://b.example".to_string(), profile: None };
    assert_ne!(
        wallboard::reconcile::label_of(&a.id),
        wallboard::reconcile::label_of(&b.id)
    );
}
