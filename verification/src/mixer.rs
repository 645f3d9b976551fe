//! How each control command transforms the mixer state: volume, mute and
//! default-device changes applied to the device and stream tables, with a
//! `NotFound` error exactly when the addressed index or name is absent.

use vstd::prelude::*;

use crate::command::{AudioTarget, DefaultTarget, MixerError};
use crate::snapshot::{
    sort_default_first, spec_default_first, spec_selected_device, spec_tagged, summary_of,
};
use crate::state::{device_models, stream_models, DeviceInfo, DeviceModel, Snapshot, StreamInfo, StreamModel};
use crate::volume::spec_clamp_percent;

verus! {

/// Some device in the list carries this service index.
pub open spec fn spec_has_device_index(ms: Seq<DeviceModel>, index: u32) -> bool {
    exists|i: int| 0 <= i < ms.len() && ms[i].index == index
}

/// Some stream in the list carries this service index.
pub open spec fn spec_has_stream_index(ms: Seq<StreamModel>, index: u32) -> bool {
    exists|i: int| 0 <= i < ms.len() && ms[i].index == index
}

/// Some device in the list carries this name.
pub open spec fn spec_has_device_name(ms: Seq<DeviceModel>, name: Seq<char>) -> bool {
    exists|i: int| 0 <= i < ms.len() && ms[i].name == name
}

/// The device list with the addressed device's volume set.
pub open spec fn spec_device_set_volume(ms: Seq<DeviceModel>, index: u32, vol: u8) -> Seq<
    DeviceModel,
> {
    ms.map(
        |i: int, d: DeviceModel|
            if d.index == index {
                DeviceModel { volume: vol, ..d }
            } else {
                d
            },
    )
}

/// The stream list with the addressed stream's volume set.
pub open spec fn spec_stream_set_volume(ms: Seq<StreamModel>, index: u32, vol: u8) -> Seq<
    StreamModel,
> {
    ms.map(
        |i: int, s: StreamModel|
            if s.index == index {
                StreamModel { volume: vol, ..s }
            } else {
                s
            },
    )
}

/// The device list with the addressed device's mute flag set.
pub open spec fn spec_device_set_mute(ms: Seq<DeviceModel>, index: u32, mute: bool) -> Seq<
    DeviceModel,
> {
    ms.map(
        |i: int, d: DeviceModel|
            if d.index == index {
                DeviceModel { muted: mute, ..d }
            } else {
                d
            },
    )
}

/// The stream list with the addressed stream's mute flag set.
pub open spec fn spec_stream_set_mute(ms: Seq<StreamModel>, index: u32, mute: bool) -> Seq<
    StreamModel,
> {
    ms.map(
        |i: int, s: StreamModel|
            if s.index == index {
                StreamModel { muted: mute, ..s }
            } else {
                s
            },
    )
}

/// The device list with the addressed device's mute flag flipped.
pub open spec fn spec_device_toggle_mute(ms: Seq<DeviceModel>, index: u32) -> Seq<DeviceModel> {
    ms.map(
        |i: int, d: DeviceModel|
            if d.index == index {
                DeviceModel { muted: !d.muted, ..d }
            } else {
                d
            },
    )
}

/// The stream list with the addressed stream's mute flag flipped.
pub open spec fn spec_stream_toggle_mute(ms: Seq<StreamModel>, index: u32) -> Seq<StreamModel> {
    ms.map(
        |i: int, s: StreamModel|
            if s.index == index {
                StreamModel { muted: !s.muted, ..s }
            } else {
                s
            },
    )
}

/// Toggling a device's mute twice in sequence returns the device list to its
/// original state, whatever the list and whichever index is addressed.
pub proof fn lemma_device_toggle_mute_idempotent(ms: Seq<DeviceModel>, index: u32)
    ensures
        spec_device_toggle_mute(spec_device_toggle_mute(ms, index), index) == ms,
{
    assert(spec_device_toggle_mute(spec_device_toggle_mute(ms, index), index) =~~= ms);
}

/// Toggling a stream's mute twice in sequence returns the stream list to its
/// original state.
pub proof fn lemma_stream_toggle_mute_idempotent(ms: Seq<StreamModel>, index: u32)
    ensures
        spec_stream_toggle_mute(spec_stream_toggle_mute(ms, index), index) == ms,
{
    assert(spec_stream_toggle_mute(spec_stream_toggle_mute(ms, index), index) =~~= ms);
}

fn device_set_volume(devs: &mut Vec<DeviceInfo>, index: u32, vol: u8) -> (found: bool)
    ensures
        device_models(final(devs)@) == spec_device_set_volume(device_models(old(devs)@), index, vol),
        found == spec_has_device_index(device_models(old(devs)@), index),
{
    let ghost ms = device_models(devs@);
    let mut found = false;
    let mut i: usize = 0;
    while i < devs.len()
        invariant
            i <= devs@.len(),
            devs@.len() == ms.len(),
            forall|j: int| i <= j < ms.len() ==> devs@[j]@ == ms[j],
            forall|j: int| 0 <= j < i ==> devs@[j]@ == spec_device_set_volume(ms, index, vol)[j],
            found ==> exists|j: int| 0 <= j < i && ms[j].index == index,
            !found ==> forall|j: int| 0 <= j < i ==> ms[j].index != index,
        decreases devs@.len() - i,
    {
        if devs[i].index == index {
            devs[i].volume = vol;
            found = true;
            proof {
                assert(ms[i as int].index == index);
            }
        }
        i = i + 1;
    }
    proof {
        assert(device_models(devs@) =~= spec_device_set_volume(ms, index, vol));
    }
    found
}

fn stream_set_volume(streams: &mut Vec<StreamInfo>, index: u32, vol: u8) -> (found: bool)
    ensures
        stream_models(final(streams)@) == spec_stream_set_volume(stream_models(old(streams)@), index, vol),
        found == spec_has_stream_index(stream_models(old(streams)@), index),
{
    let ghost ms = stream_models(streams@);
    let mut found = false;
    let mut i: usize = 0;
    while i < streams.len()
        invariant
            i <= streams@.len(),
            streams@.len() == ms.len(),
            forall|j: int| i <= j < ms.len() ==> streams@[j]@ == ms[j],
            forall|j: int| 0 <= j < i ==> streams@[j]@ == spec_stream_set_volume(ms, index, vol)[j],
            found ==> exists|j: int| 0 <= j < i && ms[j].index == index,
            !found ==> forall|j: int| 0 <= j < i ==> ms[j].index != index,
        decreases streams@.len() - i,
    {
        if streams[i].index == index {
            streams[i].volume = vol;
            found = true;
            proof {
                assert(ms[i as int].index == index);
            }
        }
        i = i + 1;
    }
    proof {
        assert(stream_models(streams@) =~= spec_stream_set_volume(ms, index, vol));
    }
    found
}

fn device_set_mute(devs: &mut Vec<DeviceInfo>, index: u32, mute: bool) -> (found: bool)
    ensures
        device_models(final(devs)@) == spec_device_set_mute(device_models(old(devs)@), index, mute),
        found == spec_has_device_index(device_models(old(devs)@), index),
{
    let ghost ms = device_models(devs@);
    let mut found = false;
    let mut i: usize = 0;
    while i < devs.len()
        invariant
            i <= devs@.len(),
            devs@.len() == ms.len(),
            forall|j: int| i <= j < ms.len() ==> devs@[j]@ == ms[j],
            forall|j: int| 0 <= j < i ==> devs@[j]@ == spec_device_set_mute(ms, index, mute)[j],
            found ==> exists|j: int| 0 <= j < i && ms[j].index == index,
            !found ==> forall|j: int| 0 <= j < i ==> ms[j].index != index,
        decreases devs@.len() - i,
    {
        if devs[i].index == index {
            devs[i].muted = mute;
            found = true;
            proof {
                assert(ms[i as int].index == index);
            }
        }
        i = i + 1;
    }
    proof {
        assert(device_models(devs@) =~= spec_device_set_mute(ms, index, mute));
    }
    found
}

fn stream_set_mute(streams: &mut Vec<StreamInfo>, index: u32, mute: bool) -> (found: bool)
    ensures
        stream_models(final(streams)@) == spec_stream_set_mute(stream_models(old(streams)@), index, mute),
        found == spec_has_stream_index(stream_models(old(streams)@), index),
{
    let ghost ms = stream_models(streams@);
    let mut found = false;
    let mut i: usize = 0;
    while i < streams.len()
        invariant
            i <= streams@.len(),
            streams@.len() == ms.len(),
            forall|j: int| i <= j < ms.len() ==> streams@[j]@ == ms[j],
            forall|j: int| 0 <= j < i ==> streams@[j]@ == spec_stream_set_mute(ms, index, mute)[j],
            found ==> exists|j: int| 0 <= j < i && ms[j].index == index,
            !found ==> forall|j: int| 0 <= j < i ==> ms[j].index != index,
        decreases streams@.len() - i,
    {
        if streams[i].index == index {
            streams[i].muted = mute;
            found = true;
            proof {
                assert(ms[i as int].index == index);
            }
        }
        i = i + 1;
    }
    proof {
        assert(stream_models(streams@) =~= spec_stream_set_mute(ms, index, mute));
    }
    found
}

fn device_toggle_mute(devs: &mut Vec<DeviceInfo>, index: u32) -> (found: bool)
    ensures
        device_models(final(devs)@) == spec_device_toggle_mute(device_models(old(devs)@), index),
        found == spec_has_device_index(device_models(old(devs)@), index),
{
    let ghost ms = device_models(devs@);
    let mut found = false;
    let mut i: usize = 0;
    while i < devs.len()
        invariant
            i <= devs@.len(),
            devs@.len() == ms.len(),
            forall|j: int| i <= j < ms.len() ==> devs@[j]@ == ms[j],
            forall|j: int| 0 <= j < i ==> devs@[j]@ == spec_device_toggle_mute(ms, index)[j],
            found ==> exists|j: int| 0 <= j < i && ms[j].index == index,
            !found ==> forall|j: int| 0 <= j < i ==> ms[j].index != index,
        decreases devs@.len() - i,
    {
        if devs[i].index == index {
            let m = devs[i].muted;
            devs[i].muted = !m;
            found = true;
            proof {
                assert(ms[i as int].index == index);
            }
        }
        i = i + 1;
    }
    proof {
        assert(device_models(devs@) =~= spec_device_toggle_mute(ms, index));
    }
    found
}

fn stream_toggle_mute(streams: &mut Vec<StreamInfo>, index: u32) -> (found: bool)
    ensures
        stream_models(final(streams)@) == spec_stream_toggle_mute(stream_models(old(streams)@), index),
        found == spec_has_stream_index(stream_models(old(streams)@), index),
{
    let ghost ms = stream_models(streams@);
    let mut found = false;
    let mut i: usize = 0;
    while i < streams.len()
        invariant
            i <= streams@.len(),
            streams@.len() == ms.len(),
            forall|j: int| i <= j < ms.len() ==> streams@[j]@ == ms[j],
            forall|j: int| 0 <= j < i ==> streams@[j]@ == spec_stream_toggle_mute(ms, index)[j],
            found ==> exists|j: int| 0 <= j < i && ms[j].index == index,
            !found ==> forall|j: int| 0 <= j < i ==> ms[j].index != index,
        decreases streams@.len() - i,
    {
        if streams[i].index == index {
            let m = streams[i].muted;
            streams[i].muted = !m;
            found = true;
            proof {
                assert(ms[i as int].index == index);
            }
        }
        i = i + 1;
    }
    proof {
        assert(stream_models(streams@) =~= spec_stream_toggle_mute(ms, index));
    }
    found
}

/// Recompute the snapshot's summary fields from its (possibly just changed)
/// device lists; everything else is left alone.
pub fn refresh_summary(st: &mut Snapshot)
    ensures
        final(st)@.sinks == old(st)@.sinks,
        final(st)@.sink_inputs == old(st)@.sink_inputs,
        final(st)@.sources == old(st)@.sources,
        final(st)@.source_outputs == old(st)@.source_outputs,
        final(st)@.volume_level == old(st)@.volume_level,
        final(st)@.mic_level == old(st)@.mic_level,
        match spec_selected_device(final(st)@.sinks) {
            Some(d) => final(st)@.volume_percent == d.volume && final(st)@.volume_muted == d.muted,
            None => final(st)@.volume_percent == 0 && final(st)@.volume_muted == false,
        },
        match spec_selected_device(final(st)@.sources) {
            Some(d) => final(st)@.mic_percent == d.volume && final(st)@.mic_muted == d.muted,
            None => final(st)@.mic_percent == 0 && final(st)@.mic_muted == false,
        },
{
    let (vp, vm) = summary_of(&st.sinks);
    let (mp, mm) = summary_of(&st.sources);
    st.volume_percent = vp;
    st.volume_muted = vm;
    st.mic_percent = mp;
    st.mic_muted = mm;
}

/// Set the addressed target's volume to the clamped percentage. The
/// summary fields are re-derived afterwards. `NotFound` exactly when no
/// entry of the targeted kind carries the index.
pub fn apply_set_volume(st: &mut Snapshot, target: AudioTarget, index: u32, percent: u8) -> (r:
    Result<(), MixerError>)
    ensures
        ({
            let vol = spec_clamp_percent(percent as int) as u8;
            &&& final(st)@.sinks == (if target == AudioTarget::Sink {
                spec_device_set_volume(old(st)@.sinks, index, vol)
            } else {
                old(st)@.sinks
            })
            &&& final(st)@.sink_inputs == (if target == AudioTarget::SinkInput {
                spec_stream_set_volume(old(st)@.sink_inputs, index, vol)
            } else {
                old(st)@.sink_inputs
            })
            &&& final(st)@.sources == (if target == AudioTarget::Source {
                spec_device_set_volume(old(st)@.sources, index, vol)
            } else {
                old(st)@.sources
            })
            &&& final(st)@.source_outputs == (if target == AudioTarget::SourceOutput {
                spec_stream_set_volume(old(st)@.source_outputs, index, vol)
            } else {
                old(st)@.source_outputs
            })
        }),
        r is Ok <==> match target {
            AudioTarget::Sink => spec_has_device_index(old(st)@.sinks, index),
            AudioTarget::SinkInput => spec_has_stream_index(old(st)@.sink_inputs, index),
            AudioTarget::Source => spec_has_device_index(old(st)@.sources, index),
            AudioTarget::SourceOutput => spec_has_stream_index(old(st)@.source_outputs, index),
        },
        r is Err ==> r == Result::<(), MixerError>::Err(MixerError::NotFound),
        final(st)@.volume_level == old(st)@.volume_level,
        final(st)@.mic_level == old(st)@.mic_level,
        match spec_selected_device(final(st)@.sinks) {
            Some(d) => final(st)@.volume_percent == d.volume && final(st)@.volume_muted == d.muted,
            None => final(st)@.volume_percent == 0 && final(st)@.volume_muted == false,
        },
        match spec_selected_device(final(st)@.sources) {
            Some(d) => final(st)@.mic_percent == d.volume && final(st)@.mic_muted == d.muted,
            None => final(st)@.mic_percent == 0 && final(st)@.mic_muted == false,
        },
{
    let vol: u8 = if percent > 150 {
        150
    } else {
        percent
    };
    let found = match target {
        AudioTarget::Sink => device_set_volume(&mut st.sinks, index, vol),
        AudioTarget::SinkInput => stream_set_volume(&mut st.sink_inputs, index, vol),
        AudioTarget::Source => device_set_volume(&mut st.sources, index, vol),
        AudioTarget::SourceOutput => stream_set_volume(&mut st.source_outputs, index, vol),
    };
    refresh_summary(st);
    if found {
        Ok(())
    } else {
        Err(MixerError::NotFound)
    }
}

/// Set the addressed target's mute flag. `NotFound` exactly when no entry of
/// the targeted kind carries the index.
pub fn apply_set_mute(st: &mut Snapshot, target: AudioTarget, index: u32, mute: bool) -> (r: Result<
    (),
    MixerError,
>)
    ensures
        final(st)@.sinks == (if target == AudioTarget::Sink {
            spec_device_set_mute(old(st)@.sinks, index, mute)
        } else {
            old(st)@.sinks
        }),
        final(st)@.sink_inputs == (if target == AudioTarget::SinkInput {
            spec_stream_set_mute(old(st)@.sink_inputs, index, mute)
        } else {
            old(st)@.sink_inputs
        }),
        final(st)@.sources == (if target == AudioTarget::Source {
            spec_device_set_mute(old(st)@.sources, index, mute)
        } else {
            old(st)@.sources
        }),
        final(st)@.source_outputs == (if target == AudioTarget::SourceOutput {
            spec_stream_set_mute(old(st)@.source_outputs, index, mute)
        } else {
            old(st)@.source_outputs
        }),
        r is Ok <==> match target {
            AudioTarget::Sink => spec_has_device_index(old(st)@.sinks, index),
            AudioTarget::SinkInput => spec_has_stream_index(old(st)@.sink_inputs, index),
            AudioTarget::Source => spec_has_device_index(old(st)@.sources, index),
            AudioTarget::SourceOutput => spec_has_stream_index(old(st)@.source_outputs, index),
        },
        r is Err ==> r == Result::<(), MixerError>::Err(MixerError::NotFound),
        final(st)@.volume_level == old(st)@.volume_level,
        final(st)@.mic_level == old(st)@.mic_level,
        match spec_selected_device(final(st)@.sinks) {
            Some(d) => final(st)@.volume_percent == d.volume && final(st)@.volume_muted == d.muted,
            None => final(st)@.volume_percent == 0 && final(st)@.volume_muted == false,
        },
        match spec_selected_device(final(st)@.sources) {
            Some(d) => final(st)@.mic_percent == d.volume && final(st)@.mic_muted == d.muted,
            None => final(st)@.mic_percent == 0 && final(st)@.mic_muted == false,
        },
{
    let found = match target {
        AudioTarget::Sink => device_set_mute(&mut st.sinks, index, mute),
        AudioTarget::SinkInput => stream_set_mute(&mut st.sink_inputs, index, mute),
        AudioTarget::Source => device_set_mute(&mut st.sources, index, mute),
        AudioTarget::SourceOutput => stream_set_mute(&mut st.source_outputs, index, mute),
    };
    refresh_summary(st);
    if found {
        Ok(())
    } else {
        Err(MixerError::NotFound)
    }
}

/// Flip the addressed target's mute flag. `NotFound` exactly when no entry
/// of the targeted kind carries the index.
pub fn apply_toggle_mute(st: &mut Snapshot, target: AudioTarget, index: u32) -> (r: Result<
    (),
    MixerError,
>)
    ensures
        final(st)@.sinks == (if target == AudioTarget::Sink {
            spec_device_toggle_mute(old(st)@.sinks, index)
        } else {
            old(st)@.sinks
        }),
        final(st)@.sink_inputs == (if target == AudioTarget::SinkInput {
            spec_stream_toggle_mute(old(st)@.sink_inputs, index)
        } else {
            old(st)@.sink_inputs
        }),
        final(st)@.sources == (if target == AudioTarget::Source {
            spec_device_toggle_mute(old(st)@.sources, index)
        } else {
            old(st)@.sources
        }),
        final(st)@.source_outputs == (if target == AudioTarget::SourceOutput {
            spec_stream_toggle_mute(old(st)@.source_outputs, index)
        } else {
            old(st)@.source_outputs
        }),
        r is Ok <==> match target {
            AudioTarget::Sink => spec_has_device_index(old(st)@.sinks, index),
            AudioTarget::SinkInput => spec_has_stream_index(old(st)@.sink_inputs, index),
            AudioTarget::Source => spec_has_device_index(old(st)@.sources, index),
            AudioTarget::SourceOutput => spec_has_stream_index(old(st)@.source_outputs, index),
        },
        r is Err ==> r == Result::<(), MixerError>::Err(MixerError::NotFound),
        final(st)@.volume_level == old(st)@.volume_level,
        final(st)@.mic_level == old(st)@.mic_level,
        match spec_selected_device(final(st)@.sinks) {
            Some(d) => final(st)@.volume_percent == d.volume && final(st)@.volume_muted == d.muted,
            None => final(st)@.volume_percent == 0 && final(st)@.volume_muted == false,
        },
        match spec_selected_device(final(st)@.sources) {
            Some(d) => final(st)@.mic_percent == d.volume && final(st)@.mic_muted == d.muted,
            None => final(st)@.mic_percent == 0 && final(st)@.mic_muted == false,
        },
{
    let found = match target {
        AudioTarget::Sink => device_toggle_mute(&mut st.sinks, index),
        AudioTarget::SinkInput => stream_toggle_mute(&mut st.sink_inputs, index),
        AudioTarget::Source => device_toggle_mute(&mut st.sources, index),
        AudioTarget::SourceOutput => stream_toggle_mute(&mut st.source_outputs, index),
    };
    refresh_summary(st);
    if found {
        Ok(())
    } else {
        Err(MixerError::NotFound)
    }
}

fn has_device_name(devs: &Vec<DeviceInfo>, name: &String) -> (r: bool)
    ensures
        r == spec_has_device_name(device_models(devs@), name@),
{
    let ghost ms = device_models(devs@);
    let mut i: usize = 0;
    while i < devs.len()
        invariant
            i <= devs@.len(),
            ms == device_models(devs@),
            forall|j: int| 0 <= j < i ==> ms[j].name != name@,
        decreases devs@.len() - i,
    {
        if devs[i].name.eq(name) {
            proof {
                assert(ms[i as int].name == name@);
            }
            return true;
        }
        i = i + 1;
    }
    false
}

/// Make the named device the default of the targeted direction: every device
/// of that direction is re-flagged by name comparison and the list is
/// re-sorted default-first. `NotFound` exactly when no device of that
/// direction carries the name.
pub fn apply_set_default(st: &mut Snapshot, target: DefaultTarget, name: &String) -> (r: Result<
    (),
    MixerError,
>)
    ensures
        final(st)@.sinks == (if target == DefaultTarget::Sink && spec_has_device_name(
            old(st)@.sinks,
            name@,
        ) {
            spec_default_first(spec_tagged(old(st)@.sinks, Some(name@)))
        } else {
            old(st)@.sinks
        }),
        final(st)@.sources == (if target == DefaultTarget::Source && spec_has_device_name(
            old(st)@.sources,
            name@,
        ) {
            spec_default_first(spec_tagged(old(st)@.sources, Some(name@)))
        } else {
            old(st)@.sources
        }),
        final(st)@.sink_inputs == old(st)@.sink_inputs,
        final(st)@.source_outputs == old(st)@.source_outputs,
        r is Ok <==> match target {
            DefaultTarget::Sink => spec_has_device_name(old(st)@.sinks, name@),
            DefaultTarget::Source => spec_has_device_name(old(st)@.sources, name@),
        },
        r is Err ==> r == Result::<(), MixerError>::Err(MixerError::NotFound),
        final(st)@.volume_level == old(st)@.volume_level,
        final(st)@.mic_level == old(st)@.mic_level,
        match spec_selected_device(final(st)@.sinks) {
            Some(d) => final(st)@.volume_percent == d.volume && final(st)@.volume_muted == d.muted,
            None => final(st)@.volume_percent == 0 && final(st)@.volume_muted == false,
        },
        match spec_selected_device(final(st)@.sources) {
            Some(d) => final(st)@.mic_percent == d.volume && final(st)@.mic_muted == d.muted,
            None => final(st)@.mic_percent == 0 && final(st)@.mic_muted == false,
        },
{
    let found = match target {
        DefaultTarget::Sink => has_device_name(&st.sinks, name),
        DefaultTarget::Source => has_device_name(&st.sources, name),
    };
    if found {
        match target {
            DefaultTarget::Sink => {
                let mut devs: Vec<DeviceInfo> = Vec::new();
                core::mem::swap(&mut devs, &mut st.sinks);
                st.sinks = sort_default_first(crate::snapshot::tag_defaults(devs, Some(name)));
            },
            DefaultTarget::Source => {
                let mut devs: Vec<DeviceInfo> = Vec::new();
                core::mem::swap(&mut devs, &mut st.sources);
                st.sources = sort_default_first(crate::snapshot::tag_defaults(devs, Some(name)));
            },
        }
        refresh_summary(st);
        Ok(())
    } else {
        refresh_summary(st);
        Err(MixerError::NotFound)
    }
}

} // verus!
