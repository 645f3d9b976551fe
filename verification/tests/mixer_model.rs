//! Snapshot assembly and command application against the mixer model.

use eww_mixer::command::{AudioTarget, DefaultTarget, MixerError};
use eww_mixer::mixer::{
    apply_set_default, apply_set_mute, apply_set_volume, apply_toggle_mute,
};
use eww_mixer::snapshot::{build_snapshot, default_device, summary_of};
use eww_mixer::state::{snapshot_eq, DeviceInfo, Snapshot, StreamInfo};
use eww_mixer::volume::{percent_of_raw, raw_of_percent};

fn device(index: u32, name: &str, volume: u8, muted: bool, is_default: bool) -> DeviceInfo {
    DeviceInfo {
        index,
        name: name.to_string(),
        description: format!("{} description", name),
        volume,
        muted,
        is_default,
    }
}

fn stream(index: u32, name: &str, volume: u8, muted: bool, device_index: u32) -> StreamInfo {
    StreamInfo {
        index,
        name: name.to_string(),
        volume,
        muted,
        device_index,
    }
}

fn one_device_snapshot() -> Snapshot {
    build_snapshot(
        vec![device(1, "speakers", 50, false, false)],
        vec![],
        vec![],
        vec![],
        Some("speakers".to_string()),
        None,
        0,
        0,
    )
}

#[test]
fn default_device_prefers_flagged() {
    let devs = vec![
        device(1, "a", 10, false, false),
        device(2, "b", 20, true, true),
        device(3, "c", 30, false, false),
    ];
    let d = default_device(&devs).expect("some device");
    assert_eq!(d.index, 2);
    let (vol, muted) = summary_of(&devs);
    assert_eq!(vol, 20);
    assert!(muted);
}

#[test]
fn default_device_falls_back_to_first() {
    let devs = vec![device(7, "a", 33, false, false), device(8, "b", 44, true, false)];
    let d = default_device(&devs).expect("some device");
    assert_eq!(d.index, 7);
    let (vol, muted) = summary_of(&devs);
    assert_eq!(vol, 33);
    assert!(!muted);
}

#[test]
fn default_device_empty_is_neutral() {
    let devs: Vec<DeviceInfo> = vec![];
    assert!(default_device(&devs).is_none());
    let (vol, muted) = summary_of(&devs);
    assert_eq!(vol, 0);
    assert!(!muted);
}

#[test]
fn build_snapshot_sorts_default_first_and_derives_summary() {
    let snap = build_snapshot(
        vec![
            device(1, "hdmi", 30, false, false),
            device(2, "speakers", 65, true, false),
        ],
        vec![stream(9, "player", 80, false, 2)],
        vec![device(5, "mic", 40, false, false)],
        vec![],
        Some("speakers".to_string()),
        Some("mic".to_string()),
        12,
        7,
    );
    assert_eq!(snap.sinks.len(), 2);
    assert_eq!(snap.sinks[0].index, 2);
    assert!(snap.sinks[0].is_default);
    assert_eq!(snap.sinks[1].index, 1);
    assert!(!snap.sinks[1].is_default);
    assert_eq!(snap.volume_percent, 65);
    assert!(snap.volume_muted);
    assert_eq!(snap.mic_percent, 40);
    assert!(!snap.mic_muted);
    assert_eq!(snap.volume_level, 12);
    assert_eq!(snap.mic_level, 7);
    assert_eq!(snap.sink_inputs.len(), 1);
    assert_eq!(snap.sink_inputs[0].name, "player");
}

#[test]
fn volume_round_trip_exact() {
    for p in [0u8, 1, 37, 80, 100, 149, 150] {
        let raw = raw_of_percent(p);
        assert_eq!(percent_of_raw(raw), p, "round trip failed at {}", p);
    }
    assert_eq!(raw_of_percent(80), 65536 * 80 / 100);
    // Requests above the ceiling are clamped to 150%.
    assert_eq!(percent_of_raw(raw_of_percent(200)), 150);
}

#[test]
fn set_volume_round_trip_in_model() {
    let mut snap = one_device_snapshot();
    let r = apply_set_volume(&mut snap, AudioTarget::Sink, 1, 80);
    assert!(r.is_ok());
    assert_eq!(snap.sinks[0].volume, 80);
    assert_eq!(snap.volume_percent, 80);
}

#[test]
fn set_volume_clamps_to_ceiling() {
    let mut snap = one_device_snapshot();
    apply_set_volume(&mut snap, AudioTarget::Sink, 1, 255).unwrap();
    assert_eq!(snap.sinks[0].volume, 150);
}

#[test]
fn set_volume_missing_index_is_not_found() {
    let mut snap = one_device_snapshot();
    let r = apply_set_volume(&mut snap, AudioTarget::Sink, 99, 10);
    assert_eq!(r, Err(MixerError::NotFound));
    assert_eq!(snap.sinks[0].volume, 50);
    let r2 = apply_set_volume(&mut snap, AudioTarget::SinkInput, 1, 10);
    assert_eq!(r2, Err(MixerError::NotFound));
}

#[test]
fn toggle_mute_twice_restores_state() {
    let mut snap = one_device_snapshot();
    let before = snap.clone();
    apply_toggle_mute(&mut snap, AudioTarget::Sink, 1).unwrap();
    assert!(snap.sinks[0].muted);
    assert!(snap.volume_muted);
    apply_toggle_mute(&mut snap, AudioTarget::Sink, 1).unwrap();
    assert!(!snap.sinks[0].muted);
    assert!(snapshot_eq(&before, &snap));
}

#[test]
fn set_mute_and_stream_ops() {
    let mut snap = build_snapshot(
        vec![device(1, "out", 50, false, false)],
        vec![stream(4, "game", 70, false, 1)],
        vec![],
        vec![],
        None,
        None,
        0,
        0,
    );
    apply_set_mute(&mut snap, AudioTarget::Sink, 1, true).unwrap();
    assert!(snap.sinks[0].muted);
    apply_set_volume(&mut snap, AudioTarget::SinkInput, 4, 25).unwrap();
    assert_eq!(snap.sink_inputs[0].volume, 25);
    apply_toggle_mute(&mut snap, AudioTarget::SinkInput, 4).unwrap();
    assert!(snap.sink_inputs[0].muted);
}

#[test]
fn set_default_retags_and_resorts() {
    let mut snap = build_snapshot(
        vec![
            device(1, "hdmi", 30, false, false),
            device(2, "speakers", 65, false, false),
        ],
        vec![],
        vec![],
        vec![],
        Some("hdmi".to_string()),
        None,
        0,
        0,
    );
    assert_eq!(snap.sinks[0].name, "hdmi");
    let r = apply_set_default(&mut snap, DefaultTarget::Sink, &"speakers".to_string());
    assert!(r.is_ok());
    assert_eq!(snap.sinks[0].name, "speakers");
    assert!(snap.sinks[0].is_default);
    assert!(!snap.sinks[1].is_default);
    assert_eq!(snap.volume_percent, 65);
    let missing = apply_set_default(&mut snap, DefaultTarget::Sink, &"void".to_string());
    assert_eq!(missing, Err(MixerError::NotFound));
}

#[test]
fn snapshot_equality_is_structural() {
    let a = one_device_snapshot();
    let b = one_device_snapshot();
    assert!(snapshot_eq(&a, &b));
    let mut c = one_device_snapshot();
    c.sinks[0].volume = 51;
    assert!(!snapshot_eq(&a, &c));
    let mut d = one_device_snapshot();
    d.volume_level = 3;
    assert!(!snapshot_eq(&a, &d));
}

#[test]
fn not_found_message_text() {
    assert_eq!(MixerError::NotFound.message(), "target not found");
    assert_eq!(MixerError::Protocol.message(), "malformed request");
}
