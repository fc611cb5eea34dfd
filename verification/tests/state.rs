use niri_zones::backend::WindowSnapshot;
use niri_zones::layout::ZoneId;
use niri_zones::state::SnapStateStore;

#[derive(Debug, Clone, Copy, PartialEq)]
struct Rect {
    x: f64,
    y: f64,
    width: f64,
    height: f64,
}

fn rect(x: f64, y: f64, width: f64, height: f64) -> Rect {
    Rect { x, y, width, height }
}

#[test]
fn moving_between_zones_keeps_original_baseline() {
    let baseline = WindowSnapshot { id: 7, geometry: rect(10.0, 20.0, 500.0, 400.0), is_floating: true };
    let mut store = SnapStateStore::new();
    store.record_success(baseline, ZoneId::from("1"), rect(0.0, 0.0, 800.0, 900.0));
    store.record_success(
        WindowSnapshot { id: 7, geometry: rect(0.0, 0.0, 800.0, 900.0), is_floating: true },
        ZoneId::from("2"),
        rect(800.0, 0.0, 800.0, 900.0),
    );
    let record = store.get(7).unwrap();
    assert_eq!(record.baseline.geometry, baseline.geometry);
    assert_eq!(record.baseline.is_floating, baseline.is_floating);
    assert_eq!(record.previous_zone.as_ref().unwrap().0, "1");
}

#[test]
fn snapping_into_the_same_zone_keeps_previous_zone() {
    let mut store = SnapStateStore::new();
    let before = WindowSnapshot { id: 3, geometry: rect(1.0, 2.0, 3.0, 4.0), is_floating: true };
    store.record_success(before, ZoneId::from("a"), rect(0.0, 0.0, 10.0, 10.0));
    store.record_success(before, ZoneId::from("a"), rect(0.0, 0.0, 12.0, 10.0));
    let record = store.get(3).unwrap();
    assert_eq!(record.current_zone.0, "a");
    assert!(record.previous_zone.is_none());
    assert_eq!(record.applied_geometry.width, 12.0);
}

#[test]
fn manual_change_clears_only_a_diverged_record() {
    let mut store = SnapStateStore::new();
    let before = WindowSnapshot { id: 4, geometry: rect(0.0, 0.0, 5.0, 5.0), is_floating: true };
    let applied = rect(0.0, 0.0, 100.0, 100.0);
    store.record_success(before, ZoneId::from("1"), applied);
    let tolerance = 2.0;
    let near = rect(1.0, 0.5, 101.0, 99.0);
    let close = |g: &Rect| {
        (g.x - near.x).abs() <= tolerance
            && (g.y - near.y).abs() <= tolerance
            && (g.width - near.width).abs() <= tolerance
            && (g.height - near.height).abs() <= tolerance
    };
    assert!(!store.clear_if_manual_change(4, close));
    assert!(store.get(4).is_some());
    assert!(store.clear_if_manual_change(4, |_: &Rect| false));
    assert!(store.get(4).is_none());
    assert!(!store.clear_if_manual_change(4, |_: &Rect| false));
}

#[test]
fn removing_hands_back_the_record() {
    let mut store = SnapStateStore::new();
    let before = WindowSnapshot { id: 5, geometry: rect(0.0, 0.0, 5.0, 5.0), is_floating: false };
    store.record_success(before, ZoneId::from("x"), rect(0.0, 0.0, 9.0, 9.0));
    let record = store.remove(5).unwrap();
    assert_eq!(record.current_zone.0, "x");
    assert!(!record.baseline.is_floating);
    assert!(store.remove(5).is_none());
}
