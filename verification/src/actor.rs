//! The control actor: single owner of the daemon's authoritative mixer
//! state. It drains one command at a time, executes it against the state,
//! answers the caller, and decides after every mutation and every periodic
//! cycle whether the rebuilt snapshot differs from the last broadcast one —
//! only then is it fanned out to subscribers.

use vstd::prelude::*;

use crate::command::{AudioTarget, Command, DefaultTarget, MixerError, Response};
use crate::mixer::{
    apply_set_default, apply_set_mute, apply_set_volume, apply_toggle_mute,
    spec_device_set_mute, spec_device_set_volume, spec_device_toggle_mute, spec_has_device_index,
    spec_has_device_name, spec_has_stream_index, spec_stream_set_mute, spec_stream_set_volume,
    spec_stream_toggle_mute,
};
use crate::peak::PeakLevelMonitor;
use crate::snapshot::{spec_default_first, spec_selected_device, spec_tagged};
use crate::state::{snapshot_eq, Snapshot, SnapshotModel};
use crate::volume::spec_clamp_percent;

verus! {

/// Lifecycle of the actor.
#[derive(Clone, Copy, PartialEq, Eq, Structural, Debug)]
pub enum ActorPhase {
    /// Connecting to the audio service.
    Initializing,
    /// Serving commands.
    Ready,
    /// A `Kill` was taken; no further commands are served.
    ShuttingDown,
}

/// What the caller of the actor has to carry out beyond writing the reply.
#[derive(Clone, Copy, PartialEq, Eq, Structural, Debug)]
pub enum ActorEffect {
    /// Nothing beyond the reply.
    NoEffect,
    /// Register the requesting connection as a subscriber.
    RegisterSubscriber,
    /// Stop the daemon.
    Shutdown,
}

/// What the audio service reports while a connection is brought up.
#[derive(Clone, Copy, PartialEq, Eq, Structural, Debug)]
pub enum ServiceState {
    /// Still connecting.
    Connecting,
    /// The connection is usable.
    Ready,
    /// The service reported failure or termination.
    Failed,
}

/// What the connection wait loop does next.
#[derive(Clone, Copy, PartialEq, Eq, Structural, Debug)]
pub enum ConnectDecision {
    /// Sleep briefly and poll again.
    Wait,
    /// The connection is ready; start the actor.
    Proceed,
    /// Give up with a connection error.
    GiveUp,
}

/// One step of the bounded wait for the audio service connection: proceed
/// once ready, fail on a service-reported failure, and otherwise keep
/// polling until the timeout has elapsed.
pub fn connect_poll_decision(state: ServiceState, elapsed_ms: u64, timeout_ms: u64) -> (r:
    ConnectDecision)
    ensures
        state == ServiceState::Ready ==> r == ConnectDecision::Proceed,
        state == ServiceState::Failed ==> r == ConnectDecision::GiveUp,
        state == ServiceState::Connecting && elapsed_ms > timeout_ms ==> r
            == ConnectDecision::GiveUp,
        state == ServiceState::Connecting && elapsed_ms <= timeout_ms ==> r
            == ConnectDecision::Wait,
{
    match state {
        ServiceState::Ready => ConnectDecision::Proceed,
        ServiceState::Failed => ConnectDecision::GiveUp,
        ServiceState::Connecting => {
            if elapsed_ms > timeout_ms {
                ConnectDecision::GiveUp
            } else {
                ConnectDecision::Wait
            }
        },
    }
}

/// The summary fields of a snapshot mirror its selected devices.
pub open spec fn spec_summary_consistent(m: SnapshotModel) -> bool {
    &&& match spec_selected_device(m.sinks) {
        Some(d) => m.volume_percent == d.volume && m.volume_muted == d.muted,
        None => m.volume_percent == 0 && m.volume_muted == false,
    }
    &&& match spec_selected_device(m.sources) {
        Some(d) => m.mic_percent == d.volume && m.mic_muted == d.muted,
        None => m.mic_percent == 0 && m.mic_muted == false,
    }
}

/// The single owner of the mixer state: its lifecycle phase, the last
/// snapshot it broadcast, and the two peak-level meters.
pub struct ControlActor {
    /// Lifecycle phase.
    pub phase: ActorPhase,
    /// The snapshot most recently fanned out to subscribers.
    pub last_broadcast: Option<Snapshot>,
    /// Output loudness meter.
    pub peak: PeakLevelMonitor,
    /// Input loudness meter.
    pub mic_peak: PeakLevelMonitor,
}

impl ControlActor {
    /// Both meters stay on their scale.
    pub open spec fn wf(&self) -> bool {
        &&& self.peak.wf()
        &&& self.mic_peak.wf()
    }

    /// Model of the last broadcast snapshot, if any.
    pub open spec fn last_model(&self) -> Option<SnapshotModel> {
        match self.last_broadcast {
            Some(s) => Some(s@),
            None => None,
        }
    }

    /// A fresh actor: still initializing, nothing broadcast, meters silent.
    pub fn new() -> (r: ControlActor)
        ensures
            r.wf(),
            r.phase == ActorPhase::Initializing,
            r.last_model() is None,
            r.peak.level == 0,
            r.mic_peak.level == 0,
    {
        ControlActor {
            phase: ActorPhase::Initializing,
            last_broadcast: None,
            peak: PeakLevelMonitor::new(),
            mic_peak: PeakLevelMonitor::new(),
        }
    }

    /// The connection to the audio service is up: start serving commands.
    pub fn mark_ready(&mut self)
        requires
            old(self).phase == ActorPhase::Initializing,
        ensures
            final(self).phase == ActorPhase::Ready,
            final(self).last_broadcast == old(self).last_broadcast,
            final(self).peak == old(self).peak,
            final(self).mic_peak == old(self).mic_peak,
    {
        self.phase = ActorPhase::Ready;
    }

    /// The connection to the audio service was lost for good.
    pub fn connection_lost(&mut self)
        ensures
            final(self).phase == ActorPhase::ShuttingDown,
            final(self).last_broadcast == old(self).last_broadcast,
            final(self).peak == old(self).peak,
            final(self).mic_peak == old(self).mic_peak,
    {
        self.phase = ActorPhase::ShuttingDown;
    }

    /// Record a rebuilt snapshot and say whether it must be broadcast: it
    /// must exactly when it differs structurally from the last broadcast
    /// one (or nothing was broadcast yet). Afterwards the snapshot is the
    /// last broadcast one either way.
    pub fn note_state(&mut self, snap: &Snapshot) -> (changed: bool)
        ensures
            changed <==> old(self).last_model() != Some(snap@),
            final(self).last_model() == Some(snap@),
            final(self).phase == old(self).phase,
            final(self).peak == old(self).peak,
            final(self).mic_peak == old(self).mic_peak,
    {
        let same = match &self.last_broadcast {
            Some(prev) => snapshot_eq(prev, snap),
            None => false,
        };
        if same {
            false
        } else {
            self.last_broadcast = Some(snap.clone());
            true
        }
    }

    /// Raise the output meter to a newly observed peak.
    pub fn observe_output_peak(&mut self, peak: u8)
        requires
            old(self).wf(),
        ensures
            final(self).wf(),
            final(self).phase == old(self).phase,
            final(self).last_broadcast == old(self).last_broadcast,
            final(self).mic_peak == old(self).mic_peak,
            final(self).peak.level >= old(self).peak.level,
    {
        self.peak.observe(peak);
    }

    /// Raise the input meter to a newly observed peak.
    pub fn observe_mic_peak(&mut self, peak: u8)
        requires
            old(self).wf(),
        ensures
            final(self).wf(),
            final(self).phase == old(self).phase,
            final(self).last_broadcast == old(self).last_broadcast,
            final(self).peak == old(self).peak,
            final(self).mic_peak.level >= old(self).mic_peak.level,
    {
        self.mic_peak.observe(peak);
    }

    /// One periodic decay tick for both meters, run whether or not any
    /// command or audio arrived.
    pub fn decay_cycle(&mut self)
        requires
            old(self).wf(),
        ensures
            final(self).wf(),
            final(self).phase == old(self).phase,
            final(self).last_broadcast == old(self).last_broadcast,
            old(self).peak.level == 0 ==> final(self).peak.level == 0,
            old(self).peak.level > 0 ==> final(self).peak.level < old(self).peak.level,
            old(self).mic_peak.level == 0 ==> final(self).mic_peak.level == 0,
            old(self).mic_peak.level > 0 ==> final(self).mic_peak.level < old(self).mic_peak.level,
    {
        self.peak.decay_tick();
        self.mic_peak.decay_tick();
    }

    /// Current meter levels carried into the next snapshot.
    pub fn levels(&self) -> (r: (u8, u8))
        ensures
            r.0 == self.peak.level,
            r.1 == self.mic_peak.level,
    {
        (self.peak.level, self.mic_peak.level)
    }

    /// Execute one command against the mixer state, one at a time, in
    /// arrival order. Returns the reply for the single caller, whether the
    /// state changed against the last broadcast snapshot (mutating commands
    /// only — `GetState` never triggers a broadcast), and what else the
    /// caller must do.
    pub fn handle_command(&mut self, st: &mut Snapshot, cmd: Command) -> (r: (
        Response,
        bool,
        ActorEffect,
    ))
        requires
            old(self).wf(),
            old(self).phase == ActorPhase::Ready,
        ensures
            final(self).wf(),
            final(self).peak == old(self).peak,
            final(self).mic_peak == old(self).mic_peak,
            match cmd {
                Command::GetState => {
                    &&& *final(self) == *old(self)
                    &&& *final(st) == *old(st)
                    &&& (r.0 matches Response::State(s) && s@ == old(st)@)
                    &&& r.1 == false
                    &&& r.2 == ActorEffect::NoEffect
                },
                Command::Ping => {
                    &&& *final(self) == *old(self)
                    &&& *final(st) == *old(st)
                    &&& r.0 is Pong
                    &&& r.1 == false
                    &&& r.2 == ActorEffect::NoEffect
                },
                Command::Subscribe => {
                    &&& *final(self) == *old(self)
                    &&& *final(st) == *old(st)
                    &&& (r.0 matches Response::State(s) && s@ == old(st)@)
                    &&& r.1 == false
                    &&& r.2 == ActorEffect::RegisterSubscriber
                },
                Command::Kill => {
                    &&& final(self).phase == ActorPhase::ShuttingDown
                    &&& final(self).last_broadcast == old(self).last_broadcast
                    &&& *final(st) == *old(st)
                    &&& r.0 is Success
                    &&& r.1 == false
                    &&& r.2 == ActorEffect::Shutdown
                },
                Command::SetVolume { target, index, volume } => {
                    let vol = spec_clamp_percent(volume as int) as u8;
                    let found = match target {
                        AudioTarget::Sink => spec_has_device_index(old(st)@.sinks, index),
                        AudioTarget::SinkInput => spec_has_stream_index(
                            old(st)@.sink_inputs,
                            index,
                        ),
                        AudioTarget::Source => spec_has_device_index(old(st)@.sources, index),
                        AudioTarget::SourceOutput => spec_has_stream_index(
                            old(st)@.source_outputs,
                            index,
                        ),
                    };
                    &&& final(st)@.sinks == (if target == AudioTarget::Sink {
                        spec_device_set_volume(old(st)@.sinks, index, vol)
                    } else {
                        old(st)@.sinks
                    })
                    &&& final(st)@.sink_inputs == (if target == AudioTarget::SinkInput {
                        spec_stream_set_volume(old(st)@.sink_inputs, index, vol)
                    } else {
                        old(st)@.sink_inputs
                    })
                    &&& final(st)@.sources == (if target == AudioTarget::Source {
                        spec_device_set_volume(old(st)@.sources, index, vol)
                    } else {
                        old(st)@.sources
                    })
                    &&& final(st)@.source_outputs == (if target == AudioTarget::SourceOutput {
                        spec_stream_set_volume(old(st)@.source_outputs, index, vol)
                    } else {
                        old(st)@.source_outputs
                    })
                    &&& final(st)@.volume_level == old(st)@.volume_level
                    &&& final(st)@.mic_level == old(st)@.mic_level
                    &&& spec_summary_consistent(final(st)@)
                    &&& (found ==> r.0 is Success)
                    &&& (!found ==> (r.0 matches Response::Error(m) && m@
                        == MixerError::NotFound.spec_message()))
                    &&& (r.1 <==> old(self).last_model() != Some(final(st)@))
                    &&& final(self).last_model() == Some(final(st)@)
                    &&& final(self).phase == old(self).phase
                    &&& r.2 == ActorEffect::NoEffect
                },
                Command::SetMute { target, index, mute } => {
                    let found = match target {
                        AudioTarget::Sink => spec_has_device_index(old(st)@.sinks, index),
                        AudioTarget::SinkInput => spec_has_stream_index(
                            old(st)@.sink_inputs,
                            index,
                        ),
                        AudioTarget::Source => spec_has_device_index(old(st)@.sources, index),
                        AudioTarget::SourceOutput => spec_has_stream_index(
                            old(st)@.source_outputs,
                            index,
                        ),
                    };
                    &&& final(st)@.sinks == (if target == AudioTarget::Sink {
                        spec_device_set_mute(old(st)@.sinks, index, mute)
                    } else {
                        old(st)@.sinks
                    })
                    &&& final(st)@.sink_inputs == (if target == AudioTarget::SinkInput {
                        spec_stream_set_mute(old(st)@.sink_inputs, index, mute)
                    } else {
                        old(st)@.sink_inputs
                    })
                    &&& final(st)@.sources == (if target == AudioTarget::Source {
                        spec_device_set_mute(old(st)@.sources, index, mute)
                    } else {
                        old(st)@.sources
                    })
                    &&& final(st)@.source_outputs == (if target == AudioTarget::SourceOutput {
                        spec_stream_set_mute(old(st)@.source_outputs, index, mute)
                    } else {
                        old(st)@.source_outputs
                    })
                    &&& final(st)@.volume_level == old(st)@.volume_level
                    &&& final(st)@.mic_level == old(st)@.mic_level
                    &&& spec_summary_consistent(final(st)@)
                    &&& (found ==> r.0 is Success)
                    &&& (!found ==> (r.0 matches Response::Error(m) && m@
                        == MixerError::NotFound.spec_message()))
                    &&& (r.1 <==> old(self).last_model() != Some(final(st)@))
                    &&& final(self).last_model() == Some(final(st)@)
                    &&& final(self).phase == old(self).phase
                    &&& r.2 == ActorEffect::NoEffect
                },
                Command::ToggleMute { target, index } => {
                    let found = match target {
                        AudioTarget::Sink => spec_has_device_index(old(st)@.sinks, index),
                        AudioTarget::SinkInput => spec_has_stream_index(
                            old(st)@.sink_inputs,
                            index,
                        ),
                        AudioTarget::Source => spec_has_device_index(old(st)@.sources, index),
                        AudioTarget::SourceOutput => spec_has_stream_index(
                            old(st)@.source_outputs,
                            index,
                        ),
                    };
                    &&& final(st)@.sinks == (if target == AudioTarget::Sink {
                        spec_device_toggle_mute(old(st)@.sinks, index)
                    } else {
                        old(st)@.sinks
                    })
                    &&& final(st)@.sink_inputs == (if target == AudioTarget::SinkInput {
                        spec_stream_toggle_mute(old(st)@.sink_inputs, index)
                    } else {
                        old(st)@.sink_inputs
                    })
                    &&& final(st)@.sources == (if target == AudioTarget::Source {
                        spec_device_toggle_mute(old(st)@.sources, index)
                    } else {
                        old(st)@.sources
                    })
                    &&& final(st)@.source_outputs == (if target == AudioTarget::SourceOutput {
                        spec_stream_toggle_mute(old(st)@.source_outputs, index)
                    } else {
                        old(st)@.source_outputs
                    })
                    &&& final(st)@.volume_level == old(st)@.volume_level
                    &&& final(st)@.mic_level == old(st)@.mic_level
                    &&& spec_summary_consistent(final(st)@)
                    &&& (found ==> r.0 is Success)
                    &&& (!found ==> (r.0 matches Response::Error(m) && m@
                        == MixerError::NotFound.spec_message()))
                    &&& (r.1 <==> old(self).last_model() != Some(final(st)@))
                    &&& final(self).last_model() == Some(final(st)@)
                    &&& final(self).phase == old(self).phase
                    &&& r.2 == ActorEffect::NoEffect
                },
                Command::SetDefault { target, name } => {
                    let found = match target {
                        DefaultTarget::Sink => spec_has_device_name(old(st)@.sinks, name@),
                        DefaultTarget::Source => spec_has_device_name(old(st)@.sources, name@),
                    };
                    &&& final(st)@.sinks == (if target == DefaultTarget::Sink && found {
                        spec_default_first(spec_tagged(old(st)@.sinks, Some(name@)))
                    } else {
                        old(st)@.sinks
                    })
                    &&& final(st)@.sources == (if target == DefaultTarget::Source && found {
                        spec_default_first(spec_tagged(old(st)@.sources, Some(name@)))
                    } else {
                        old(st)@.sources
                    })
                    &&& final(st)@.sink_inputs == old(st)@.sink_inputs
                    &&& final(st)@.source_outputs == old(st)@.source_outputs
                    &&& final(st)@.volume_level == old(st)@.volume_level
                    &&& final(st)@.mic_level == old(st)@.mic_level
                    &&& spec_summary_consistent(final(st)@)
                    &&& (found ==> r.0 is Success)
                    &&& (!found ==> (r.0 matches Response::Error(m) && m@
                        == MixerError::NotFound.spec_message()))
                    &&& (r.1 <==> old(self).last_model() != Some(final(st)@))
                    &&& final(self).last_model() == Some(final(st)@)
                    &&& final(self).phase == old(self).phase
                    &&& r.2 == ActorEffect::NoEffect
                },
            },
    {
        match cmd {
            Command::GetState => (Response::State(st.clone()), false, ActorEffect::NoEffect),
            Command::Ping => (Response::Pong, false, ActorEffect::NoEffect),
            Command::Subscribe => (
                Response::State(st.clone()),
                false,
                ActorEffect::RegisterSubscriber,
            ),
            Command::Kill => {
                self.phase = ActorPhase::ShuttingDown;
                (Response::Success, false, ActorEffect::Shutdown)
            },
            Command::SetVolume { target, index, volume } => {
                let res = apply_set_volume(st, target, index, volume);
                let changed = self.note_state(st);
                let reply = match res {
                    Ok(()) => Response::Success,
                    Err(e) => Response::Error(e.message()),
                };
                (reply, changed, ActorEffect::NoEffect)
            },
            Command::SetMute { target, index, mute } => {
                let res = apply_set_mute(st, target, index, mute);
                let changed = self.note_state(st);
                let reply = match res {
                    Ok(()) => Response::Success,
                    Err(e) => Response::Error(e.message()),
                };
                (reply, changed, ActorEffect::NoEffect)
            },
            Command::ToggleMute { target, index } => {
                let res = apply_toggle_mute(st, target, index);
                let changed = self.note_state(st);
                let reply = match res {
                    Ok(()) => Response::Success,
                    Err(e) => Response::Error(e.message()),
                };
                (reply, changed, ActorEffect::NoEffect)
            },
            Command::SetDefault { target, name } => {
                let res = apply_set_default(st, target, &name);
                let changed = self.note_state(st);
                let reply = match res {
                    Ok(()) => Response::Success,
                    Err(e) => Response::Error(e.message()),
                };
                (reply, changed, ActorEffect::NoEffect)
            },
        }
    }
}

} // verus!
