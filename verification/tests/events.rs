use lens::events::{check_complete_run, clamp_percent};
use lens::LensEvent;
use std::time::{Duration, SystemTime};

fn json(text: &str) -> serde_json::Value {
    serde_json::from_str(text).unwrap()
}

#[test]
fn test_started_event() {
    let event = LensEvent::started("figma", "decompose");

    match event {
        LensEvent::Started { lens, task, .. } => {
            assert_eq!(lens, "figma");
            assert_eq!(task, "decompose");
        }
        _ => panic!("Expected Started event"),
    }
}

#[test]
fn test_progress_event_without_percent() {
    let event = LensEvent::progress("nolimit", "Validating commands...");

    match event {
        LensEvent::Progress { lens, message, percent, .. } => {
            assert_eq!(lens, "nolimit");
            assert_eq!(message, "Validating commands...");
            assert!(percent.is_none());
        }
        _ => panic!("Expected Progress event"),
    }
}

#[test]
fn test_progress_event_with_percent() {
    let event = LensEvent::progress_with_percent("figma", "Processing...", 45.5f32.to_bits());

    match event {
        LensEvent::Progress { lens, message, percent, .. } => {
            assert_eq!(lens, "figma");
            assert_eq!(message, "Processing...");
            assert_eq!(percent.map(f32::from_bits), Some(45.5));
        }
        _ => panic!("Expected Progress event"),
    }
}

#[test]
fn test_progress_percent_clamped_to_100() {
    let event = LensEvent::progress_with_percent("test", "msg", 150.0f32.to_bits());

    match event {
        LensEvent::Progress { percent, .. } => {
            assert_eq!(percent.map(f32::from_bits), Some(100.0));
        }
        _ => panic!("Expected Progress event"),
    }
}

#[test]
fn test_progress_percent_clamped_to_0() {
    let event = LensEvent::progress_with_percent("test", "msg", (-10.0f32).to_bits());

    match event {
        LensEvent::Progress { percent, .. } => {
            assert_eq!(percent.map(f32::from_bits), Some(0.0));
        }
        _ => panic!("Expected Progress event"),
    }
}

#[test]
fn test_percent_bounds_are_kept() {
    assert_eq!(f32::from_bits(clamp_percent(0.0f32.to_bits())), 0.0);
    assert_eq!(f32::from_bits(clamp_percent(100.0f32.to_bits())), 100.0);
    assert_eq!(f32::from_bits(clamp_percent(99.999f32.to_bits())), 99.999);
    assert_eq!(f32::from_bits(clamp_percent(100.00001f32.to_bits())), 100.0);
    assert_eq!(f32::from_bits(clamp_percent(f32::INFINITY.to_bits())), 100.0);
    assert_eq!(f32::from_bits(clamp_percent(f32::NEG_INFINITY.to_bits())), 0.0);
    assert_eq!(f32::from_bits(clamp_percent(f32::MIN_POSITIVE.to_bits())), f32::MIN_POSITIVE);
    assert_eq!(f32::from_bits(clamp_percent((-f32::MIN_POSITIVE).to_bits())), 0.0);
    assert!(f32::from_bits(clamp_percent(f32::NAN.to_bits())).is_nan());
}

#[test]
fn test_percent_clamp_agrees_with_the_float_clamp() {
    let mut bits: u32 = 0;
    let mut seen: u32 = 0;
    loop {
        let expected = f32::from_bits(bits).clamp(0.0, 100.0);
        let got = f32::from_bits(clamp_percent(bits));
        if expected.is_nan() {
            assert!(got.is_nan(), "bits {:#x}", bits);
        } else {
            assert_eq!(got.to_bits(), expected.to_bits(), "bits {:#x}", bits);
        }
        seen += 1;
        match bits.checked_add(20_011) {
            Some(next) => bits = next,
            None => break,
        }
    }
    assert!(seen > 200_000);
    for bits in [0x42c8_0000u32, 0x42c8_0001, 0x42c7_ffff, 0x7f80_0000, 0x7f80_0001, 0x8000_0000,
        0x8000_0001, 0xff80_0000, 0xff80_0001, 0xffff_ffff, 0x7fff_ffff]
    {
        let expected = f32::from_bits(bits).clamp(0.0, 100.0);
        let got = f32::from_bits(clamp_percent(bits));
        if expected.is_nan() {
            assert!(got.is_nan());
        } else {
            assert_eq!(got.to_bits(), expected.to_bits());
        }
    }
}

#[test]
fn test_data_event() {
    let value = json(r#"{"track": "Song", "artist": "Artist"}"#);
    let event = LensEvent::data("spotify", "player", value.clone());

    match event {
        LensEvent::Data { lens, key, value: v, .. } => {
            assert_eq!(lens, "spotify");
            assert_eq!(key, "player");
            assert_eq!(v, value);
        }
        _ => panic!("Expected Data event"),
    }
}

#[test]
fn test_completed_event() {
    let duration = Duration::from_secs(5);
    let event = LensEvent::completed("figma", duration);

    match event {
        LensEvent::Completed { lens, duration: d, .. } => {
            assert_eq!(lens, "figma");
            assert_eq!(d, duration);
        }
        _ => panic!("Expected Completed event"),
    }
}

#[test]
fn test_failed_event_recoverable() {
    let event = LensEvent::failed("nolimit", "Rate limit exceeded", true);

    match event {
        LensEvent::Failed { lens, error, recoverable, .. } => {
            assert_eq!(lens, "nolimit");
            assert_eq!(error, "Rate limit exceeded");
            assert!(recoverable);
        }
        _ => panic!("Expected Failed event"),
    }
}

#[test]
fn test_failed_event_non_recoverable() {
    let event = LensEvent::failed("figma", "Auth failed", false);

    match event {
        LensEvent::Failed { lens, error, recoverable, .. } => {
            assert_eq!(lens, "figma");
            assert_eq!(error, "Auth failed");
            assert!(!recoverable);
        }
        _ => panic!("Expected Failed event"),
    }
}

#[test]
fn test_lens_accessor() {
    let events = vec![
        LensEvent::started("a", "task"),
        LensEvent::progress("b", "msg"),
        LensEvent::data("c", "key", json("{}")),
        LensEvent::completed("d", Duration::from_secs(1)),
        LensEvent::failed("e", "err", false),
    ];

    let lenses: Vec<&str> = events.iter().map(|e| e.lens()).collect();
    assert_eq!(lenses, vec!["a", "b", "c", "d", "e"]);
}

#[test]
fn test_timestamp_accessor() {
    let before = SystemTime::now();
    let event = LensEvent::started("test", "task");
    let after = SystemTime::now();

    let timestamp = event.timestamp();
    assert!(timestamp >= before);
    assert!(timestamp <= after);
}

#[test]
fn test_checkpoint_event() {
    let data = json(r#"{"components": 5, "deduplicated": 3}"#);
    let event = LensEvent::checkpoint(
        "figma",
        "deduplication",
        data.clone(),
        "Review: 5 components, 3 unique",
    );

    match event {
        LensEvent::Checkpoint { lens, phase, data: d, message, .. } => {
            assert_eq!(lens, "figma");
            assert_eq!(phase, "deduplication");
            assert_eq!(d, data);
            assert_eq!(message, "Review: 5 components, 3 unique");
        }
        _ => panic!("Expected Checkpoint event"),
    }
}

#[test]
fn test_event_clone() {
    let event = LensEvent::progress("test", "message");
    let cloned = event.clone();

    assert_eq!(event.lens(), cloned.lens());
}

#[test]
fn test_event_debug() {
    let event = LensEvent::started("test", "task");
    let debug_str = format!("{:?}", event);

    assert!(debug_str.contains("Started"));
    assert!(debug_str.contains("test"));
}

#[test]
fn test_event_type_names() {
    assert_eq!(LensEvent::started("a", "t").event_type(), "Started");
    assert_eq!(LensEvent::progress("a", "m").event_type(), "Progress");
    assert_eq!(LensEvent::data("a", "k", json("1")).event_type(), "Data");
    assert_eq!(LensEvent::completed("a", Duration::from_millis(1)).event_type(), "Completed");
    assert_eq!(LensEvent::failed("a", "e", true).event_type(), "Failed");
    assert_eq!(LensEvent::checkpoint("a", "p", json("null"), "m").event_type(), "Checkpoint");
    assert_eq!(LensEvent::checkpoint("a", "p", json("null"), "m").lens(), "a");
}

#[test]
fn test_complete_run_of_a_successful_execution() {
    let events = vec![
        LensEvent::started("test_streaming", "test"),
        LensEvent::progress_with_percent("test_streaming", "Step 1", 33.3f32.to_bits()),
        LensEvent::progress_with_percent("test_streaming", "Step 2", 66.6f32.to_bits()),
        LensEvent::progress_with_percent("test_streaming", "Step 3", 99.9f32.to_bits()),
        LensEvent::completed("test_streaming", Duration::from_millis(3)),
    ];
    assert!(check_complete_run(&events));
}

#[test]
fn test_complete_run_of_a_failed_execution() {
    let events = vec![
        LensEvent::started("failing", "failing"),
        LensEvent::failed("failing", "Something went wrong", false),
    ];
    assert!(check_complete_run(&events));
}

#[test]
fn test_incomplete_runs_are_told_apart() {
    let started = || LensEvent::started("a", "t");
    let progress = || LensEvent::progress("a", "m");
    let data = || LensEvent::data("a", "k", json("{}"));
    let completed = || LensEvent::completed("a", Duration::from_secs(1));
    let failed = || LensEvent::failed("a", "e", false);

    assert!(!check_complete_run(&vec![]));
    assert!(!check_complete_run(&vec![started()]));
    assert!(!check_complete_run(&vec![completed()]));
    assert!(!check_complete_run(&vec![started(), progress()]));
    assert!(!check_complete_run(&vec![progress(), completed()]));
    assert!(!check_complete_run(&vec![started(), started(), completed()]));
    assert!(!check_complete_run(&vec![started(), completed(), completed()]));
    assert!(!check_complete_run(&vec![started(), failed(), progress(), completed()]));
    assert!(check_complete_run(&vec![started(), data(), progress(), data(), failed()]));
    assert!(check_complete_run(&vec![
        started(),
        LensEvent::checkpoint("a", "phase", json("{}"), "done"),
        completed(),
    ]));
}
