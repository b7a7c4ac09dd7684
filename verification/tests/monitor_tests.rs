use wallboard::config::AppConfig;
use wallboard::config::MonitorMode;
use wallboard::config::MonitorSelector;
use wallboard::config::ViewConfig;
use wallboard::config::default_config;
use wallboard::display::DisplayDescriptor;
use wallboard::monitor::SelectError;
use wallboard::monitor::list_monitors;
use wallboard::monitor::select_monitor;

fn named(x: i32, y: i32, width: u32, height: u32, name: &str) -> DisplayDescriptor {
    DisplayDescriptor { x, y, width, height, name: Some(name.to_string()) }
}

fn unnamed(x: i32, y: i32, width: u32, height: u32) -> DisplayDescriptor {
    DisplayDescriptor { x, y, width, height, name: None }
}

fn config_with(mode: MonitorMode, value: Option<&str>) -> AppConfig {
    let mut cfg = default_config();
    cfg.monitor = MonitorSelector { mode, value: value.map(|v| v.to_string()) };
    cfg
}

#[test]
fn primary_mode_returns_the_primary() {
    let cfg = config_with(MonitorMode::Primary, None);
    let displays = vec![named(0, 0, 1920, 1080, "A"), named(1920, 0, 2560, 1440, "B")];
    let primary = Some(named(1920, 0, 2560, 1440, "B"));
    let got = select_monitor(&cfg, &displays, &primary).unwrap();
    assert_eq!(got, named(1920, 0, 2560, 1440, "B"));
}

#[test]
fn primary_mode_fails_without_a_primary() {
    let cfg = config_with(MonitorMode::Primary, None);
    let displays = vec![named(0, 0, 1920, 1080, "A")];
    let got = select_monitor(&cfg, &displays, &None);
    assert_eq!(got, Err(SelectError::NoPrimaryDisplay));
}

#[test]
fn index_zero_on_empty_list_is_out_of_range() {
    let cfg = config_with(MonitorMode::Index, Some("0"));
    let got = select_monitor(&cfg, &Vec::new(), &None);
    assert_eq!(got, Err(SelectError::MonitorIndexOutOfRange(0)));
}

#[test]
fn index_zero_on_one_element_list_returns_it() {
    let cfg = config_with(MonitorMode::Index, Some("0"));
    let displays = vec![named(0, 0, 1920, 1080, "Only")];
    let got = select_monitor(&cfg, &displays, &None).unwrap();
    assert_eq!(got, named(0, 0, 1920, 1080, "Only"));
}

#[test]
fn index_follows_enumeration_order() {
    let cfg = config_with(MonitorMode::Index, Some("2"));
    let displays = vec![
        unnamed(0, 0, 800, 600),
        unnamed(800, 0, 800, 600),
        unnamed(1600, 0, 800, 600),
    ];
    let got = select_monitor(&cfg, &displays, &None).unwrap();
    assert_eq!(got, unnamed(1600, 0, 800, 600));
}

#[test]
fn absent_index_value_is_rejected() {
    // The selector value is required for Index mode.
    let cfg = config_with(MonitorMode::Index, None);
    let displays = vec![named(0, 0, 1920, 1080, "First"), named(1920, 0, 800, 600, "Second")];
    let got = select_monitor(&cfg, &displays, &None);
    assert_eq!(got, Err(SelectError::InvalidIndexValue));
}

#[test]
fn unparsable_index_value_is_rejected() {
    for bad in ["", "abc", "12a", "-1", " 3"] {
        let cfg = config_with(MonitorMode::Index, Some(bad));
        let displays = vec![unnamed(0, 0, 800, 600)];
        let got = select_monitor(&cfg, &displays, &None);
        assert_eq!(got, Err(SelectError::InvalidIndexValue), "value: {:?}", bad);
    }
}

#[test]
fn name_contains_is_case_insensitive_substring() {
    let cfg = config_with(MonitorMode::NameContains, Some("DELL"));
    let displays = vec![named(0, 0, 1920, 1080, "LG HDR 4K"), named(1920, 0, 3840, 2160, "Dell U2720Q")];
    let got = select_monitor(&cfg, &displays, &None).unwrap();
    assert_eq!(got, named(1920, 0, 3840, 2160, "Dell U2720Q"));
}

#[test]
fn name_contains_first_match_wins() {
    let cfg = config_with(MonitorMode::NameContains, Some("dell"));
    let displays = vec![
        named(0, 0, 1920, 1080, "Dell P2419H"),
        named(1920, 0, 3840, 2160, "Dell U2720Q"),
    ];
    let got = select_monitor(&cfg, &displays, &None).unwrap();
    assert_eq!(got, named(0, 0, 1920, 1080, "Dell P2419H"));
}

#[test]
fn name_contains_reports_the_lowercased_needle() {
    let cfg = config_with(MonitorMode::NameContains, Some("ACME"));
    let displays = vec![named(0, 0, 1920, 1080, "Dell U2720Q"), unnamed(1920, 0, 800, 600)];
    let got = select_monitor(&cfg, &displays, &None);
    assert_eq!(got, Err(SelectError::NoMatchingMonitorName("acme".to_string())));
}

#[test]
fn name_contains_empty_needle_takes_the_first_display() {
    let cfg = config_with(MonitorMode::NameContains, None);
    let displays = vec![unnamed(0, 0, 800, 600), named(800, 0, 800, 600, "B")];
    let got = select_monitor(&cfg, &displays, &None).unwrap();
    assert_eq!(got, unnamed(0, 0, 800, 600));
}

#[test]
fn list_monitors_describes_each_display() {
    let displays = vec![named(0, 0, 1920, 1080, "Main"), unnamed(1920, 0, 2560, 1440)];
    let primary = Some(named(0, 0, 1920, 1080, "Main"));
    let infos = list_monitors(&displays, &primary);
    assert_eq!(infos.len(), 2);
    assert_eq!(infos[0].index, 0);
    assert_eq!(infos[0].name, "Main");
    assert!(infos[0].is_primary);
    assert_eq!(infos[0].position, (0, 0));
    assert_eq!(infos[0].size, (1920, 1080));
    assert_eq!(infos[1].index, 1);
    assert_eq!(infos[1].name, "Monitor 1");
    assert!(!infos[1].is_primary);
    assert_eq!(infos[1].position, (1920, 0));
    assert_eq!(infos[1].size, (2560, 1440));
}

#[test]
fn list_monitors_primary_matches_on_origin_and_size_only() {
    // The primary carries no name here; identity is (origin, size).
    let displays = vec![named(0, 0, 1920, 1080, "Some Name")];
    let primary = Some(unnamed(0, 0, 1920, 1080));
    let infos = list_monitors(&displays, &primary);
    assert!(infos[0].is_primary);
}

#[test]
fn list_monitors_fallback_names_render_double_digit_indexes() {
    let displays: Vec<DisplayDescriptor> =
        (0..12).map(|i| unnamed(i * 100, 0, 100, 100)).collect();
    let infos = list_monitors(&displays, &None);
    assert_eq!(infos[9].name, "Monitor 9");
    assert_eq!(infos[10].name, "Monitor 10");
    assert_eq!(infos[11].name, "Monitor 11");
}

#[test]
fn default_config_matches_the_documented_first_run() {
    let cfg = default_config();
    assert_eq!(cfg.version, 1);
    assert!(matches!(cfg.monitor.mode, MonitorMode::Primary));
    assert_eq!(cfg.monitor.value, None);
    let expect: [(&str, &str, &str); 4] = [
        ("topLeft", "https://example.com", "view1"),
        ("topRight", "https://example.org", "view2"),
        ("bottomLeft", "https://example.net", "view3"),
        ("bottomRight", "https://www.wikipedia.org", "view4"),
    ];
    for (v, (id, url, profile)) in cfg.views.iter().zip(expect.iter()) {
        let want = ViewConfig {
            id: id.to_string(),
            url: url.to_string(),
            profile: Some(profile.to_string()),
        };
        assert_eq!(v, &want);
    }
}
