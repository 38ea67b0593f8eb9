use qrforge::display::{
    describe_monitors, frame_for_display, friendly_name, identity_base, label_text,
    select_monitor_index, sort_order, stable_hash, DisplayCandidate, OrderKey,
};
use qrforge::monitor::MonitorInfo;

fn monitor(id: &str, x: i32, y: i32, primary: bool) -> MonitorInfo {
    MonitorInfo::new(
        id.parse().expect("id"),
        format!("Display at {x},{y}"),
        x,
        y,
        1_920,
        1_080,
        125,
        0,
        primary,
    )
    .expect("monitor")
}

#[test]
fn unavailable_selection_falls_back_to_primary() {
    let monitors = [
        monitor("left", -1_920, 0, false),
        monitor("primary", 0, 0, true),
    ];
    assert_eq!(
        select_monitor_index(&monitors, Some(&"missing".parse().expect("id"))),
        Some((1, true))
    );
    assert_eq!(
        select_monitor_index(&monitors, Some(&"left".parse().expect("id"))),
        Some((0, false))
    );
}

#[test]
fn selection_without_request_or_primary() {
    let monitors = [monitor("a", 0, 0, false), monitor("b", 10, 0, false)];
    assert_eq!(select_monitor_index(&monitors, None), Some((0, false)));
    assert_eq!(select_monitor_index(&[], None), None);
    assert_eq!(
        select_monitor_index(&[], Some(&"a".parse().expect("id"))),
        None
    );
}

#[test]
fn stable_identifier_hash_is_deterministic() {
    assert_eq!(
        stable_hash(b"display|1920x1080|r0|builtin=false"),
        stable_hash(b"display|1920x1080|r0|builtin=false")
    );
    assert_ne!(stable_hash(b"display-a"), stable_hash(b"display-b"));
}

#[test]
fn stable_hash_is_fnv_1a() {
    assert_eq!(stable_hash(b""), 0xcbf2_9ce4_8422_2325);
    assert_eq!(stable_hash(b"a"), 0xaf63_dc4c_8601_ec8c);
}

#[test]
fn friendly_names_hide_unknown_monitor_placeholders() {
    assert_eq!(friendly_name("Unknown Monitor 65537"), None);
    assert_eq!(friendly_name("  Color LCD  "), Some("Color LCD".to_owned()));
    assert_eq!(friendly_name("   "), None);
    assert_eq!(friendly_name(&"n".repeat(100)), Some("n".repeat(80)));
}

#[test]
fn identities_and_labels() {
    assert_eq!(
        identity_base(Some("Color LCD"), 2560, 1600, 90, true),
        "color lcd|2560x1600|r90|builtin=true"
    );
    assert_eq!(
        identity_base(None, 1920, 1080, 0, false),
        "display|1920x1080|r0|builtin=false"
    );
    assert_eq!(
        label_text(None, 1, 1920, 1080, 125, true),
        "Display 2 (1920×1080, 125%) — Primary"
    );
    assert_eq!(
        label_text(Some("Dell U2720Q"), 0, 3840, 2160, 150, false),
        "Dell U2720Q (3840×2160, 150%)"
    );
}

fn candidate(name: &str, x: i32) -> DisplayCandidate {
    DisplayCandidate {
        name: name.to_owned(),
        x,
        y: 0,
        width: 1920,
        height: 1080,
        scale_factor_percent: 100,
        rotation_degrees: 0,
        is_primary: x == 0,
        is_builtin: false,
    }
}

#[test]
fn displays_are_ordered_and_twins_are_numbered() {
    let described = describe_monitors(&[
        candidate("Twin", 1920),
        candidate("Twin", 0),
        candidate("Unknown Monitor 7", -1920),
    ])
    .expect("describe");
    let sources = described.iter().map(|(source, _)| *source).collect::<Vec<_>>();
    assert_eq!(sources, [2, 1, 0]);
    let base = identity_base(Some("Twin"), 1920, 1080, 0, false);
    let hash = format!("display-{:016x}", stable_hash(base.as_bytes()));
    assert_eq!(described[1].1.id.as_str(), format!("{hash}-1"));
    assert_eq!(described[2].1.id.as_str(), format!("{hash}-2"));
    let lone = identity_base(None, 1920, 1080, 0, false);
    assert_eq!(
        described[0].1.id.as_str(),
        format!("display-{:016x}", stable_hash(lone.as_bytes()))
    );
    assert_eq!(described[0].1.label, "Display 1 (1920×1080, 100%)");
    assert_eq!(described[1].1.label, "Twin (1920×1080, 100%) — Primary");
}

#[test]
fn zero_sized_displays_are_refused() {
    let mut broken = candidate("Broken", 0);
    broken.width = 0;
    let error = describe_monitors(&[broken]).expect_err("zero width");
    assert_eq!(error.operation(), "monitor_metadata");
    assert_eq!(error.detail(), "monitor dimensions must be non-zero");
}

#[test]
fn sort_order_is_stable() {
    let key = |x: i32, name: Option<&str>| OrderKey {
        x,
        y: 0,
        width: 1,
        height: 1,
        name: name.map(str::to_owned),
    };
    let keys = [key(5, Some("b")), key(5, None), key(1, Some("z")), key(5, Some("b")), key(5, Some("a"))];
    assert_eq!(sort_order(&keys), [2, 1, 4, 0, 3]);
}

#[test]
fn captured_frames_must_match_the_display() {
    let display = monitor("a", 0, 0, true);
    let error = frame_for_display(&display, 1, 1, vec![0; 4]).expect_err("size mismatch");
    assert_eq!(error.operation(), "capture_dimensions");
    let error = frame_for_display(&display, 1920, 1080, vec![0; 4]).expect_err("short buffer");
    assert_eq!(error.operation(), "capture_selected_monitor");
    let frame = frame_for_display(&display, 1920, 1080, vec![0; 1920 * 1080 * 4]).expect("frame");
    assert_eq!(frame.monitor_label(), Some("Display at 0,0"));
    assert_eq!(frame.scale_factor_percent(), Some(125));
}
