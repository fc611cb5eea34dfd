use niri_zones::config::{
    activate, check_layouts, layout_for_output, layout_has_zone, ConfigDocument, ConfigError,
    LayoutEntry,
    OutputConfig, ZoneEntry, CONFIG_VERSION,
};
use niri_zones::geometry::GeometryError;
use niri_zones::rules::{CompiledRules, RuleConfig, RuleContext};

fn zone(id: &str, name: &str, geometry: Option<GeometryError>) -> ZoneEntry {
    ZoneEntry { id: id.to_string(), name: name.to_string(), geometry }
}

fn rule(priority: i32, zone: &str) -> RuleConfig {
    RuleConfig {
        priority,
        app_id: None,
        app_id_regex: None,
        title_regex: None,
        output: None,
        workspace: None,
        layout: None,
        zone: zone.to_string(),
    }
}

/// A small configuration: one output bound to a
/// two-zone "coding" layout and one firefox/YouTube rule.
fn base() -> ConfigDocument {
    let mut r = rule(10, "editor");
    r.app_id_regex = Some("^firefox$".to_string());
    r.title_regex = Some("YouTube".to_string());
    r.layout = Some("coding".to_string());
    ConfigDocument {
        version: 1,
        gap_is_valid: true,
        tolerance_is_valid: true,
        outputs: vec![("eDP-1".to_string(), OutputConfig { layout: "coding".to_string() })],
        layouts: vec![LayoutEntry {
            name: "coding".to_string(),
            zones: vec![zone("editor", "Editor", None), zone("terminal", "Terminal", None)],
        }],
        rules: vec![r],
    }
}

#[test]
fn valid_config_compiles_before_activation() {
    let doc = base();
    assert!(activate(&doc).is_ok());
    assert_eq!(doc.version, 1);
    let index = layout_for_output(&doc, "eDP-1").unwrap();
    assert_eq!(doc.layouts[index].name, "coding");
}

#[test]
fn malformed_zone_is_rejected() {
    // width = 1.68 leaves the normalized square.
    let mut doc = base();
    doc.layouts[0].zones[0].geometry = Some(GeometryError::OutsideNormalizedBounds);
    assert!(matches!(activate(&doc), Err(ConfigError::InvalidZone { .. })));
}

#[test]
fn invalid_regex_is_rejected_at_activation_not_event_time() {
    let mut doc = base();
    doc.rules[0].app_id_regex = Some("(".to_string());
    assert!(matches!(activate(&doc), Err(ConfigError::InvalidRegex { .. })));
}

#[test]
fn priority_then_specificity_then_file_order_is_deterministic() {
    let mut generic = rule(5, "generic");
    generic.app_id_regex = Some("firefox".to_string());
    generic.layout = Some("main".to_string());
    let mut specific = rule(5, "specific");
    specific.app_id_regex = Some("firefox".to_string());
    specific.title_regex = Some("Docs".to_string());
    specific.layout = Some("main".to_string());
    let doc = ConfigDocument {
        version: 1,
        gap_is_valid: true,
        tolerance_is_valid: true,
        outputs: vec![],
        layouts: vec![LayoutEntry {
            name: "main".to_string(),
            zones: vec![zone("generic", "Generic", None), zone("specific", "Specific", None)],
        }],
        rules: vec![generic, specific],
    };
    let rules = activate(&doc).unwrap();
    let matched = rules
        .best_match(RuleContext {
            app_id: Some("firefox"),
            title: Some("Docs - Mozilla"),
            output: None,
            workspace: None,
        })
        .unwrap();
    assert_eq!(matched.zone, "specific");
    assert_eq!(matched.specificity, 2);
}

#[test]
fn unsupported_version_is_reported_with_both_versions() {
    let mut doc = base();
    doc.version = 2;
    match activate(&doc) {
        Err(ConfigError::UnsupportedVersion { found, expected }) => {
            assert_eq!(found, 2);
            assert_eq!(expected, CONFIG_VERSION);
        }
        other => panic!("unexpected result: {other:?}"),
    }
}

#[test]
fn invalid_gap_is_checked_before_tolerance() {
    let mut doc = base();
    doc.gap_is_valid = false;
    doc.tolerance_is_valid = false;
    assert!(matches!(activate(&doc), Err(ConfigError::InvalidGap)));
    doc.gap_is_valid = true;
    assert!(matches!(activate(&doc), Err(ConfigError::InvalidTolerance)));
}

#[test]
fn layout_errors_are_reported_in_check_order() {
    let blank = vec![LayoutEntry { name: "  \t".to_string(), zones: vec![] }];
    assert!(matches!(check_layouts(&blank), Err(ConfigError::EmptyLayoutName)));

    let empty = vec![LayoutEntry { name: "a".to_string(), zones: vec![] }];
    assert!(matches!(check_layouts(&empty), Err(ConfigError::EmptyLayout(name)) if name == "a"));

    let one = LayoutEntry { name: "a".to_string(), zones: vec![zone("1", "One", None)] };
    let twice = vec![one.clone(), one.clone()];
    assert!(matches!(check_layouts(&twice), Err(ConfigError::DuplicateLayout(name)) if name == "a"));

    let repeated = vec![LayoutEntry {
        name: "a".to_string(),
        zones: vec![zone("1", "One", None), zone("1", "Other", Some(GeometryError::NonFinite))],
    }];
    assert!(matches!(
        check_layouts(&repeated),
        Err(ConfigError::DuplicateZone { layout, zone }) if layout == "a" && zone == "1"
    ));

    let bad = vec![LayoutEntry {
        name: "a".to_string(),
        zones: vec![zone("1", "One", None), zone("2", "Two", Some(GeometryError::NonPositiveSize))],
    }];
    match check_layouts(&bad) {
        Err(ConfigError::InvalidZone { layout, zone, message }) => {
            assert_eq!(layout, "a");
            assert_eq!(zone, "2");
            assert_eq!(message, "width and height must be greater than zero");
        }
        other => panic!("unexpected result: {other:?}"),
    }
}

#[test]
fn output_bound_to_unknown_layout_is_rejected() {
    let mut doc = base();
    doc.outputs.push(("HDMI-A-1".to_string(), OutputConfig { layout: "missing".to_string() }));
    match activate(&doc) {
        Err(ConfigError::UnknownOutputLayout { output, layout }) => {
            assert_eq!(output, "HDMI-A-1");
            assert_eq!(layout, "missing");
        }
        other => panic!("unexpected result: {other:?}"),
    }
}

#[test]
fn rule_errors_name_the_rule_and_come_in_check_order() {
    let layouts = base().layouts;

    let blank = vec![rule(0, "editor"), rule(0, " ")];
    assert!(matches!(
        CompiledRules::compile(&blank, &layouts),
        Err(ConfigError::EmptyRuleZone { index: 1 })
    ));

    let mut both = rule(0, "editor");
    both.app_id = Some("kitty".to_string());
    both.app_id_regex = Some("(".to_string());
    assert!(matches!(
        CompiledRules::compile(&[both], &layouts),
        Err(ConfigError::ConflictingAppMatcher { index: 0 })
    ));

    let mut unknown_layout = rule(0, "editor");
    unknown_layout.layout = Some("gaming".to_string());
    assert!(matches!(
        CompiledRules::compile(&[unknown_layout], &layouts),
        Err(ConfigError::UnknownRuleLayout { index: 0, layout }) if layout == "gaming"
    ));

    let mut unknown_zone = rule(0, "browser");
    unknown_zone.layout = Some("coding".to_string());
    assert!(matches!(
        CompiledRules::compile(&[unknown_zone], &layouts),
        Err(ConfigError::UnknownRuleZone { index: 0, layout, zone }) if layout == "coding" && zone == "browser"
    ));

    let mut bad_title = rule(0, "Terminal");
    bad_title.layout = Some("coding".to_string());
    bad_title.title_regex = Some("[".to_string());
    match CompiledRules::compile(&[bad_title], &layouts) {
        Err(ConfigError::InvalidRegex { index, field, message }) => {
            assert_eq!(index, 0);
            assert_eq!(field, "title_regex");
            assert!(!message.is_empty());
        }
        other => panic!("unexpected result: {other:?}"),
    }
}

#[test]
fn layout_zones_are_found_by_id_or_name() {
    let layout = &base().layouts[0];
    assert!(layout_has_zone(layout, "editor"));
    assert!(layout_has_zone(layout, "Terminal"));
    assert!(!layout_has_zone(layout, "terminal ") );
    assert!(!layout_has_zone(layout, "browser"));
}

fn context<'a>(app_id: Option<&'a str>, title: Option<&'a str>, output: Option<&'a str>) -> RuleContext<'a> {
    RuleContext { app_id, title, output, workspace: None }
}

#[test]
fn higher_priority_beats_more_constraints_and_earlier_rules() {
    let mut specific = rule(1, "a");
    specific.app_id = Some("kitty".to_string());
    specific.output = Some("eDP-1".to_string());
    let plain = rule(2, "b");
    let rules = CompiledRules::compile(&[specific, plain], &[]).unwrap();
    let m = rules.best_match(context(Some("kitty"), None, Some("eDP-1"))).unwrap();
    assert_eq!(m.zone, "b");
    assert_eq!(m.priority, 2);
    assert_eq!(m.source_index, 1);
    assert_eq!(m.specificity, 0);
}

#[test]
fn equal_rules_prefer_the_earlier_one() {
    let rules = CompiledRules::compile(&[rule(3, "first"), rule(3, "second")], &[]).unwrap();
    let m = rules.best_match(context(None, None, None)).unwrap();
    assert_eq!(m.zone, "first");
    assert_eq!(m.source_index, 0);
}

#[test]
fn rules_whose_constraints_fail_do_not_match() {
    let mut exact = rule(0, "a");
    exact.app_id = Some("kitty".to_string());
    let mut title = rule(0, "b");
    title.title_regex = Some("^Docs".to_string());
    let rules = CompiledRules::compile(&[exact, title], &[]).unwrap();
    assert!(rules.best_match(context(Some("Kitty"), Some("My Docs"), None)).is_none());
    assert!(rules.best_match(context(None, None, None)).is_none());
    let m = rules.best_match(context(Some("kitty"), None, None)).unwrap();
    assert_eq!(m.zone, "a");
    assert_eq!(m.layout, None);
    let m = rules.best_match(context(None, Some("Docs - Mozilla"), None)).unwrap();
    assert_eq!(m.zone, "b");
}

#[test]
fn outputs_resolve_to_their_bound_layout() {
    let mut doc = base();
    doc.layouts.push(LayoutEntry { name: "wide".to_string(), zones: vec![zone("a", "A", None)] });
    doc.outputs.push(("HDMI-1".to_string(), OutputConfig { layout: "wide".to_string() }));
    doc.outputs.push(("DP-2".to_string(), OutputConfig { layout: "missing".to_string() }));
    assert_eq!(layout_for_output(&doc, "eDP-1"), Some(0));
    assert_eq!(layout_for_output(&doc, "HDMI-1"), Some(1));
    assert_eq!(layout_for_output(&doc, "DP-2"), None);
    assert_eq!(layout_for_output(&doc, "unknown"), None);
}

#[test]
fn config_errors_describe_themselves() {
    let version = ConfigError::UnsupportedVersion { found: 2, expected: 1 };
    assert_eq!(version.message(), "unsupported config version 2; expected 1");
    let regex = ConfigError::InvalidRegex { index: 12, field: "title_regex", message: "oops".to_string() };
    assert_eq!(regex.message(), "rule 12 has invalid title_regex regex: oops");
    let zone = ConfigError::UnknownRuleZone { index: 0, layout: "coding".to_string(), zone: "x".to_string() };
    assert_eq!(zone.message(), "rule 0 references unknown zone x in layout coding");
    assert_eq!(ConfigError::InvalidGap.message(), "general.gap must be finite and >= 0");
}
