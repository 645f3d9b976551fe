//! The control actor, broadcast suppression, subscriber registry, peak
//! metering and wire framing.

use eww_mixer::actor::{
    connect_poll_decision, ActorEffect, ActorPhase, ConnectDecision, ControlActor, ServiceState,
};
use eww_mixer::command::{AudioTarget, Command, MixerError, Response};
use eww_mixer::peak::{samples_of_bytes, sum_of_squares, monitor_source_name, PeakLevelMonitor};
use eww_mixer::registry::SubscriberRegistry;
use eww_mixer::snapshot::build_snapshot;
use eww_mixer::state::{snapshot_eq, DeviceInfo, Snapshot};
use eww_mixer::wire::{frame_line, take_line};

fn out_device(index: u32, name: &str, volume: u8, muted: bool) -> DeviceInfo {
    DeviceInfo {
        index,
        name: name.to_string(),
        description: name.to_string(),
        volume,
        muted,
        is_default: false,
    }
}

fn daemon_snapshot(volume: u8, muted: bool) -> Snapshot {
    build_snapshot(
        vec![out_device(1, "speakers", volume, muted)],
        vec![],
        vec![],
        vec![],
        Some("speakers".to_string()),
        None,
        0,
        0,
    )
}

fn ready_actor() -> ControlActor {
    let mut actor = ControlActor::new();
    actor.mark_ready();
    actor
}

#[test]
fn get_state_replies_and_never_broadcasts() {
    let mut actor = ready_actor();
    let mut st = daemon_snapshot(50, false);
    for _ in 0..3 {
        let (reply, broadcast, effect) = actor.handle_command(&mut st, Command::GetState);
        match reply {
            Response::State(s) => assert!(snapshot_eq(&s, &st)),
            _ => panic!("GetState must reply with a snapshot"),
        }
        assert!(!broadcast);
        assert!(matches!(effect, ActorEffect::NoEffect));
    }
    // No intervening mutation: the periodic cycle stays silent too.
    let fresh = daemon_snapshot(50, false);
    assert!(actor.note_state(&fresh));
    let fresh_again = daemon_snapshot(50, false);
    assert!(!actor.note_state(&fresh_again));
    assert!(!actor.note_state(&fresh_again));
}

#[test]
fn set_volume_scenario_updates_summary() {
    // Daemon starts with one device at 50% unmuted and no streams.
    let mut actor = ready_actor();
    let mut st = daemon_snapshot(50, false);
    let (reply, broadcast, _) = actor.handle_command(
        &mut st,
        Command::SetVolume { target: AudioTarget::Sink, index: 1, volume: 80 },
    );
    assert!(matches!(reply, Response::Success));
    assert!(broadcast);
    let (reply2, broadcast2, _) = actor.handle_command(&mut st, Command::GetState);
    match reply2 {
        Response::State(s) => {
            assert_eq!(s.sinks[0].volume, 80);
            assert_eq!(s.volume_percent, 80);
        },
        _ => panic!("GetState must reply with a snapshot"),
    }
    assert!(!broadcast2);
}

#[test]
fn toggle_mute_broadcasts_once_to_both_listeners() {
    // Two Listen clients connect, then a third client toggles mute.
    let mut actor = ready_actor();
    let mut registry = SubscriberRegistry::new();
    let mut st = daemon_snapshot(50, false);

    let (seed1, _, effect1) = actor.handle_command(&mut st, Command::Subscribe);
    assert!(matches!(effect1, ActorEffect::RegisterSubscriber));
    let first = registry.register();
    match seed1 {
        Response::State(s) => assert!(!s.volume_muted),
        _ => panic!("Subscribe must seed the listener with a snapshot"),
    }
    let (_, _, effect2) = actor.handle_command(&mut st, Command::Subscribe);
    assert!(matches!(effect2, ActorEffect::RegisterSubscriber));
    let second = registry.register();
    assert_ne!(first, second);

    let (reply, broadcast, _) = actor.handle_command(
        &mut st,
        Command::ToggleMute { target: AudioTarget::Sink, index: 1 },
    );
    assert!(matches!(reply, Response::Success));
    assert!(broadcast);
    assert!(st.volume_muted);
    // One delivery pass reaches each listener exactly once.
    let targets = registry.targets().clone();
    assert_eq!(targets, vec![first, second]);
    // Rebuilding without a change broadcasts nothing further: no duplicates.
    let rebuilt = daemon_snapshot(50, true);
    assert!(!actor.note_state(&rebuilt));
}

#[test]
fn mutation_error_still_replies_with_message() {
    let mut actor = ready_actor();
    let mut st = daemon_snapshot(50, false);
    let (reply, _, _) = actor.handle_command(
        &mut st,
        Command::SetVolume { target: AudioTarget::Sink, index: 42, volume: 10 },
    );
    match reply {
        Response::Error(m) => assert_eq!(m, MixerError::NotFound.message()),
        _ => panic!("a missing index must be reported, not dropped"),
    }
}

#[test]
fn ping_and_kill() {
    let mut actor = ready_actor();
    let mut st = daemon_snapshot(50, false);
    let (reply, broadcast, effect) = actor.handle_command(&mut st, Command::Ping);
    assert!(matches!(reply, Response::Pong));
    assert!(!broadcast);
    assert!(matches!(effect, ActorEffect::NoEffect));
    let (reply2, _, effect2) = actor.handle_command(&mut st, Command::Kill);
    assert!(matches!(reply2, Response::Success));
    assert!(matches!(effect2, ActorEffect::Shutdown));
    assert!(matches!(actor.phase, ActorPhase::ShuttingDown));
}

#[test]
fn disconnected_subscriber_does_not_block_the_rest() {
    let mut registry = SubscriberRegistry::new();
    let a = registry.register();
    let b = registry.register();
    let c = registry.register();
    // Delivery to b failed: its connection is gone.
    registry.prune_failed(&vec![b]);
    let remaining = registry.targets().clone();
    assert_eq!(remaining, vec![a, c]);
    // The next broadcast still reaches the survivors, and a new listener
    // gets a fresh identity.
    let d = registry.register();
    assert_ne!(d, a);
    assert_ne!(d, b);
    assert_ne!(d, c);
    assert_eq!(registry.count(), 3);
}

#[test]
fn peak_decay_steps_down_to_zero_and_stays() {
    let mut meter = PeakLevelMonitor::new();
    meter.observe(10);
    assert_eq!(meter.level, 10);
    let mut seen = vec![];
    for _ in 0..6 {
        meter.decay_tick();
        seen.push(meter.level);
    }
    assert_eq!(seen, vec![7, 4, 1, 0, 0, 0]);
}

#[test]
fn peak_observe_keeps_running_maximum_and_clamps() {
    let mut meter = PeakLevelMonitor::new();
    meter.observe(40);
    meter.observe(20);
    assert_eq!(meter.level, 40);
    meter.observe(250);
    assert_eq!(meter.level, 100);
    meter.reset();
    assert_eq!(meter.level, 0);
}

#[test]
fn sample_decoding_and_power() {
    // Little-endian pairs: 1, -1, 256.
    let bytes = vec![1u8, 0, 0xFF, 0xFF, 0, 1];
    let samples = samples_of_bytes(&bytes);
    assert_eq!(samples, vec![1i16, -1, 256]);
    assert_eq!(sum_of_squares(&samples), 1 + 1 + 65536);
    // A trailing odd byte carries no sample.
    let odd = vec![1u8, 0, 9];
    assert_eq!(samples_of_bytes(&odd).len(), 1);
}

#[test]
fn monitor_source_name_appends_suffix() {
    assert_eq!(monitor_source_name("speakers"), "speakers.monitor");
}

#[test]
fn connect_wait_is_bounded() {
    assert!(matches!(
        connect_poll_decision(ServiceState::Connecting, 100, 5000),
        ConnectDecision::Wait
    ));
    assert!(matches!(
        connect_poll_decision(ServiceState::Connecting, 5001, 5000),
        ConnectDecision::GiveUp
    ));
    assert!(matches!(
        connect_poll_decision(ServiceState::Ready, 4999, 5000),
        ConnectDecision::Proceed
    ));
    assert!(matches!(
        connect_poll_decision(ServiceState::Failed, 0, 5000),
        ConnectDecision::GiveUp
    ));
}

#[test]
fn frame_line_appends_exactly_one_newline() {
    let framed = frame_line(&b"{\"ok\":true}".to_vec()).unwrap();
    assert_eq!(framed, b"{\"ok\":true}\n".to_vec());
    let refused = frame_line(&b"a\nb".to_vec());
    assert_eq!(refused, Err(MixerError::Protocol));
}

#[test]
fn take_line_splits_at_first_newline() {
    let buf = b"one\ntwo\n".to_vec();
    let (line, rest) = take_line(&buf).unwrap();
    assert_eq!(line, b"one".to_vec());
    assert_eq!(rest, b"two\n".to_vec());
    let (line2, rest2) = take_line(&rest).unwrap();
    assert_eq!(line2, b"two".to_vec());
    assert!(rest2.is_empty());
    assert!(take_line(&b"incomplete".to_vec()).is_none());
}

#[test]
fn identical_mutation_broadcasts_only_once() {
    let mut actor = ready_actor();
    let mut st = daemon_snapshot(50, false);
    let (_, first, _) = actor.handle_command(
        &mut st,
        Command::SetVolume { target: AudioTarget::Sink, index: 1, volume: 80 },
    );
    assert!(first);
    // The same request again leaves the snapshot equal to the last
    // broadcast one, so nothing is fanned out.
    let (reply, second, _) = actor.handle_command(
        &mut st,
        Command::SetVolume { target: AudioTarget::Sink, index: 1, volume: 80 },
    );
    assert!(matches!(reply, Response::Success));
    assert!(!second);
}

#[test]
fn set_default_through_actor_reorders_devices() {
    let mut actor = ready_actor();
    let mut st = build_snapshot(
        vec![
            out_device(1, "hdmi", 30, false),
            out_device(2, "speakers", 65, false),
        ],
        vec![],
        vec![],
        vec![],
        Some("hdmi".to_string()),
        None,
        0,
        0,
    );
    let (reply, broadcast, _) = actor.handle_command(
        &mut st,
        Command::SetDefault {
            target: eww_mixer::command::DefaultTarget::Sink,
            name: "speakers".to_string(),
        },
    );
    assert!(matches!(reply, Response::Success));
    assert!(broadcast);
    assert_eq!(st.sinks[0].name, "speakers");
    assert_eq!(st.volume_percent, 65);
}
