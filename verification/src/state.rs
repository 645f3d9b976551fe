//! Mixer state data model: devices (sinks and sources), application streams
//! (sink inputs and source outputs), and the immutable snapshot assembled
//! from them. Snapshots are compared structurally; that comparison is the
//! basis for broadcast suppression.

use vstd::prelude::*;

verus! {

/// An audio endpoint of either direction (output sink or input source).
pub struct DeviceInfo {
    pub index: u32,
    pub name: String,
    pub description: String,
    pub volume: u8,
    pub muted: bool,
    pub is_default: bool,
}

/// A per-application audio flow attached to a device.
pub struct StreamInfo {
    pub index: u32,
    pub name: String,
    pub volume: u8,
    pub muted: bool,
    pub device_index: u32,
}

/// Mathematical image of a `DeviceInfo`: strings as character sequences.
#[verifier::ext_equal]
pub struct DeviceModel {
    pub index: u32,
    pub name: Seq<char>,
    pub description: Seq<char>,
    pub volume: u8,
    pub muted: bool,
    pub is_default: bool,
}

/// Mathematical image of a `StreamInfo`.
#[verifier::ext_equal]
pub struct StreamModel {
    pub index: u32,
    pub name: Seq<char>,
    pub volume: u8,
    pub muted: bool,
    pub device_index: u32,
}

impl View for DeviceInfo {
    type V = DeviceModel;

    open spec fn view(&self) -> DeviceModel {
        DeviceModel {
            index: self.index,
            name: self.name@,
            description: self.description@,
            volume: self.volume,
            muted: self.muted,
            is_default: self.is_default,
        }
    }
}

impl View for StreamInfo {
    type V = StreamModel;

    open spec fn view(&self) -> StreamModel {
        StreamModel {
            index: self.index,
            name: self.name@,
            volume: self.volume,
            muted: self.muted,
            device_index: self.device_index,
        }
    }
}

/// Sequence of device models behind a vector of devices.
pub open spec fn device_models(v: Seq<DeviceInfo>) -> Seq<DeviceModel> {
    v.map(|i: int, d: DeviceInfo| d@)
}

/// Sequence of stream models behind a vector of streams.
pub open spec fn stream_models(v: Seq<StreamInfo>) -> Seq<StreamModel> {
    v.map(|i: int, s: StreamInfo| s@)
}

impl Clone for DeviceInfo {
    fn clone(&self) -> (res: Self)
        ensures
            res@ == self@,
    {
        DeviceInfo {
            index: self.index,
            name: self.name.clone(),
            description: self.description.clone(),
            volume: self.volume,
            muted: self.muted,
            is_default: self.is_default,
        }
    }
}

impl Clone for StreamInfo {
    fn clone(&self) -> (res: Self)
        ensures
            res@ == self@,
    {
        StreamInfo {
            index: self.index,
            name: self.name.clone(),
            volume: self.volume,
            muted: self.muted,
            device_index: self.device_index,
        }
    }
}

/// A complete view of current devices, streams and derived summary fields,
/// replaced wholesale on every rebuild.
pub struct Snapshot {
    /// Volume percent of the selected output device.
    pub volume_percent: u8,
    /// Mute flag of the selected output device.
    pub volume_muted: bool,
    /// Instantaneous output loudness, 0 to 100.
    pub volume_level: u8,
    /// Volume percent of the selected input device.
    pub mic_percent: u8,
    /// Mute flag of the selected input device.
    pub mic_muted: bool,
    /// Instantaneous input loudness, 0 to 100.
    pub mic_level: u8,
    /// Output devices, default first.
    pub sinks: Vec<DeviceInfo>,
    /// Playing applications.
    pub sink_inputs: Vec<StreamInfo>,
    /// Input devices, default first.
    pub sources: Vec<DeviceInfo>,
    /// Recording applications.
    pub source_outputs: Vec<StreamInfo>,
}

/// Mathematical image of a `Snapshot`.
#[verifier::ext_equal]
pub struct SnapshotModel {
    pub volume_percent: u8,
    pub volume_muted: bool,
    pub volume_level: u8,
    pub mic_percent: u8,
    pub mic_muted: bool,
    pub mic_level: u8,
    pub sinks: Seq<DeviceModel>,
    pub sink_inputs: Seq<StreamModel>,
    pub sources: Seq<DeviceModel>,
    pub source_outputs: Seq<StreamModel>,
}

impl View for Snapshot {
    type V = SnapshotModel;

    open spec fn view(&self) -> SnapshotModel {
        SnapshotModel {
            volume_percent: self.volume_percent,
            volume_muted: self.volume_muted,
            volume_level: self.volume_level,
            mic_percent: self.mic_percent,
            mic_muted: self.mic_muted,
            mic_level: self.mic_level,
            sinks: device_models(self.sinks@),
            sink_inputs: stream_models(self.sink_inputs@),
            sources: device_models(self.sources@),
            source_outputs: stream_models(self.source_outputs@),
        }
    }
}

impl Clone for Snapshot {
    fn clone(&self) -> (res: Self)
        ensures
            res@ == self@,
    {
        let res = Snapshot {
            volume_percent: self.volume_percent,
            volume_muted: self.volume_muted,
            volume_level: self.volume_level,
            mic_percent: self.mic_percent,
            mic_muted: self.mic_muted,
            mic_level: self.mic_level,
            sinks: clone_devices(&self.sinks),
            sink_inputs: clone_streams(&self.sink_inputs),
            sources: clone_devices(&self.sources),
            source_outputs: clone_streams(&self.source_outputs),
        };
        proof {
            assert(res@ =~= self@);
        }
        res
    }
}

impl Snapshot {
    /// The empty snapshot: no devices, no streams, neutral summary fields.
    pub fn new_empty() -> (res: Snapshot)
        ensures
            res@.sinks.len() == 0,
            res@.sink_inputs.len() == 0,
            res@.sources.len() == 0,
            res@.source_outputs.len() == 0,
            res@.volume_percent == 0,
            !res@.volume_muted,
            res@.volume_level == 0,
            res@.mic_percent == 0,
            !res@.mic_muted,
            res@.mic_level == 0,
    {
        Snapshot {
            volume_percent: 0,
            volume_muted: false,
            volume_level: 0,
            mic_percent: 0,
            mic_muted: false,
            mic_level: 0,
            sinks: Vec::new(),
            sink_inputs: Vec::new(),
            sources: Vec::new(),
            source_outputs: Vec::new(),
        }
    }
}

fn clone_devices(v: &Vec<DeviceInfo>) -> (res: Vec<DeviceInfo>)
    ensures
        device_models(res@) == device_models(v@),
{
    let mut out: Vec<DeviceInfo> = Vec::new();
    let mut i: usize = 0;
    while i < v.len()
        invariant
            i <= v.len(),
            out@.len() == i,
            forall|j: int| 0 <= j < i ==> out@[j]@ == v@[j]@,
        decreases v.len() - i,
    {
        out.push(v[i].clone());
        i = i + 1;
    }
    proof {
        assert(device_models(out@) =~= device_models(v@));
    }
    out
}

fn clone_streams(v: &Vec<StreamInfo>) -> (res: Vec<StreamInfo>)
    ensures
        stream_models(res@) == stream_models(v@),
{
    let mut out: Vec<StreamInfo> = Vec::new();
    let mut i: usize = 0;
    while i < v.len()
        invariant
            i <= v.len(),
            out@.len() == i,
            forall|j: int| 0 <= j < i ==> out@[j]@ == v@[j]@,
        decreases v.len() - i,
    {
        out.push(v[i].clone());
        i = i + 1;
    }
    proof {
        assert(stream_models(out@) =~= stream_models(v@));
    }
    out
}

fn eq_device(a: &DeviceInfo, b: &DeviceInfo) -> (r: bool)
    ensures
        r <==> a@ == b@,
{
    let r = a.index == b.index && a.name == b.name && a.description == b.description
        && a.volume == b.volume && a.muted == b.muted && a.is_default == b.is_default;
    proof {
        if r {
            assert(a@ =~= b@);
        }
    }
    r
}

fn eq_stream(a: &StreamInfo, b: &StreamInfo) -> (r: bool)
    ensures
        r <==> a@ == b@,
{
    let r = a.index == b.index && a.name == b.name && a.volume == b.volume && a.muted == b.muted
        && a.device_index == b.device_index;
    proof {
        if r {
            assert(a@ =~= b@);
        }
    }
    r
}

fn eq_devices(a: &Vec<DeviceInfo>, b: &Vec<DeviceInfo>) -> (r: bool)
    ensures
        r <==> device_models(a@) == device_models(b@),
{
    if a.len() != b.len() {
        proof {
            assert(device_models(a@).len() != device_models(b@).len());
        }
        return false;
    }
    let mut i: usize = 0;
    while i < a.len()
        invariant
            a@.len() == b@.len(),
            i <= a.len(),
            forall|j: int| 0 <= j < i ==> a@[j]@ == b@[j]@,
        decreases a.len() - i,
    {
        if !eq_device(&a[i], &b[i]) {
            proof {
                assert(device_models(a@)[i as int] != device_models(b@)[i as int]);
            }
            return false;
        }
        i = i + 1;
    }
    proof {
        assert(device_models(a@) =~= device_models(b@));
    }
    true
}

fn eq_streams(a: &Vec<StreamInfo>, b: &Vec<StreamInfo>) -> (r: bool)
    ensures
        r <==> stream_models(a@) == stream_models(b@),
{
    if a.len() != b.len() {
        proof {
            assert(stream_models(a@).len() != stream_models(b@).len());
        }
        return false;
    }
    let mut i: usize = 0;
    while i < a.len()
        invariant
            a@.len() == b@.len(),
            i <= a.len(),
            forall|j: int| 0 <= j < i ==> a@[j]@ == b@[j]@,
        decreases a.len() - i,
    {
        if !eq_stream(&a[i], &b[i]) {
            proof {
                assert(stream_models(a@)[i as int] != stream_models(b@)[i as int]);
            }
            return false;
        }
        i = i + 1;
    }
    proof {
        assert(stream_models(a@) =~= stream_models(b@));
    }
    true
}

/// Structural equality of two snapshots, the relation that decides whether a
/// rebuilt snapshot is broadcast.
pub fn snapshot_eq(a: &Snapshot, b: &Snapshot) -> (r: bool)
    ensures
        r <==> a@ == b@,
{
    let r = a.volume_percent == b.volume_percent && a.volume_muted == b.volume_muted
        && a.volume_level == b.volume_level && a.mic_percent == b.mic_percent
        && a.mic_muted == b.mic_muted && a.mic_level == b.mic_level
        && eq_devices(&a.sinks, &b.sinks) && eq_streams(&a.sink_inputs, &b.sink_inputs)
        && eq_devices(&a.sources, &b.sources) && eq_streams(&a.source_outputs, &b.source_outputs);
    proof {
        if r {
            assert(a@ =~= b@);
        }
    }
    r
}

} // verus!
