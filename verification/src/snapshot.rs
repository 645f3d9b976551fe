//! Assembly of a mixer snapshot from enumerated devices and streams: tagging
//! the default device by name, ordering each device list with the default
//! first (stably), and deriving the summary fields from the selected device.

use vstd::prelude::*;

use crate::state::{
    device_models, stream_models, DeviceInfo, DeviceModel, Snapshot, StreamInfo, StreamModel,
};

verus! {

/// Some device in the list is flagged as the default.
pub open spec fn spec_has_default(ms: Seq<DeviceModel>) -> bool {
    exists|i: int| 0 <= i < ms.len() && ms[i].is_default
}

/// `i` is the position of the first device flagged as default.
pub open spec fn spec_is_first_default(ms: Seq<DeviceModel>, i: int) -> bool {
    &&& 0 <= i < ms.len()
    &&& ms[i].is_default
    &&& forall|j: int| 0 <= j < i ==> !ms[j].is_default
}

/// Position of the first device flagged as default.
pub open spec fn spec_first_default(ms: Seq<DeviceModel>) -> int {
    choose|i: int| spec_is_first_default(ms, i)
}

/// The device the summary fields mirror: the first flagged default, else the
/// first device, else none.
pub open spec fn spec_selected_device(ms: Seq<DeviceModel>) -> Option<DeviceModel> {
    if spec_has_default(ms) {
        Some(ms[spec_first_default(ms)])
    } else if ms.len() > 0 {
        Some(ms[0])
    } else {
        None
    }
}

/// Two positions that are both first defaults coincide.
pub proof fn lemma_first_default_unique(ms: Seq<DeviceModel>, i: int, j: int)
    requires
        spec_is_first_default(ms, i),
        spec_is_first_default(ms, j),
    ensures
        i == j,
{
}

/// A list with some default has a first default.
pub proof fn lemma_first_default_exists(ms: Seq<DeviceModel>)
    requires
        spec_has_default(ms),
    ensures
        spec_is_first_default(ms, spec_first_default(ms)),
    decreases ms.len(),
{
    let w = choose|i: int| 0 <= i < ms.len() && ms[i].is_default;
    if ms[0].is_default {
        assert(spec_is_first_default(ms, 0));
    } else {
        let tail = ms.skip(1);
        assert(0 <= w - 1 < tail.len() && tail[w - 1] == ms[w]);
        assert(spec_has_default(tail));
        lemma_first_default_exists(tail);
        let t = spec_first_default(tail);
        assert(ms[t + 1] == tail[t]);
        assert forall|j: int| 0 <= j < t + 1 implies !ms[j].is_default by {
            if j > 0 {
                assert(ms[j] == tail[j - 1]);
            }
        }
        assert(spec_is_first_default(ms, t + 1));
    }
    let k = spec_first_default(ms);
    assert(spec_is_first_default(ms, k));
}

/// The device whose state the snapshot summary reports: the device flagged
/// `is_default`, or the first device if none is flagged, or nothing if the
/// list is empty — a three-way exhaustive choice.
pub fn default_device(devs: &Vec<DeviceInfo>) -> (r: Option<&DeviceInfo>)
    ensures
        match r {
            Some(d) => Some(d@) == spec_selected_device(device_models(devs@)),
            None => devs@.len() == 0 && spec_selected_device(device_models(devs@)) is None,
        },
{
    let ghost ms = device_models(devs@);
    let mut i: usize = 0;
    while i < devs.len()
        invariant
            i <= devs@.len(),
            ms == device_models(devs@),
            forall|j: int| 0 <= j < i ==> !ms[j].is_default,
        decreases devs@.len() - i,
    {
        if devs[i].is_default {
            proof {
                assert(spec_is_first_default(ms, i as int));
                lemma_first_default_exists(ms);
                lemma_first_default_unique(ms, i as int, spec_first_default(ms));
            }
            return Some(&devs[i]);
        }
        i = i + 1;
    }
    if devs.len() > 0 {
        proof {
            assert(forall|j: int| 0 <= j < ms.len() ==> !ms[j].is_default);
            assert(!spec_has_default(ms));
        }
        Some(&devs[0])
    } else {
        None
    }
}

/// Summary volume and mute derived from a device list: those of the selected
/// device, or the neutral 0% unmuted if there is no device.
pub fn summary_of(devs: &Vec<DeviceInfo>) -> (r: (u8, bool))
    ensures
        match spec_selected_device(device_models(devs@)) {
            Some(d) => r.0 == d.volume && r.1 == d.muted,
            None => r.0 == 0 && r.1 == false,
        },
{
    match default_device(devs) {
        Some(d) => (d.volume, d.muted),
        None => (0, false),
    }
}

/// The device list with every `is_default` flag set anew: set exactly on the
/// devices whose name equals the given default name.
pub open spec fn spec_tagged(ms: Seq<DeviceModel>, def: Option<Seq<char>>) -> Seq<DeviceModel> {
    ms.map(
        |i: int, d: DeviceModel|
            DeviceModel {
                is_default: match def {
                    Some(n) => d.name == n,
                    None => false,
                },
                ..d
            },
    )
}

/// Set each device's `is_default` flag by comparing its name with the
/// service-reported default device name.
pub fn tag_defaults(devs: Vec<DeviceInfo>, default_name: Option<&String>) -> (res: Vec<
    DeviceInfo,
>)
    ensures
        device_models(res@) == spec_tagged(
            device_models(devs@),
            match default_name {
                Some(n) => Some(n@),
                None => None,
            },
        ),
{
    let ghost ms = device_models(devs@);
    let ghost def: Option<Seq<char>> = match default_name {
        Some(n) => Some(n@),
        None => None,
    };
    let mut out: Vec<DeviceInfo> = Vec::new();
    let mut i: usize = 0;
    while i < devs.len()
        invariant
            i <= devs@.len(),
            ms == device_models(devs@),
            def == (match default_name {
                Some(n) => Some(n@),
                None => None,
            }),
            out@.len() == i,
            forall|j: int| 0 <= j < i ==> out@[j]@ == spec_tagged(ms, def)[j],
        decreases devs@.len() - i,
    {
        let mut d = devs[i].clone();
        d.is_default = match default_name {
            Some(n) => d.name.eq(n),
            None => false,
        };
        out.push(d);
        i = i + 1;
    }
    proof {
        assert(device_models(out@) =~= spec_tagged(ms, def));
    }
    out
}

/// A device list reordered so that flagged defaults come first; within each
/// group the original enumeration order is kept.
pub open spec fn spec_default_first(ms: Seq<DeviceModel>) -> Seq<DeviceModel> {
    ms.filter(|d: DeviceModel| d.is_default) + ms.filter(|d: DeviceModel| !d.is_default)
}

/// One forward step of an incremental filter: filtering one element more
/// appends it exactly when it satisfies the predicate.
pub proof fn lemma_filter_take_step<A>(s: Seq<A>, i: int, pred: spec_fn(A) -> bool)
    requires
        0 <= i < s.len(),
    ensures
        s.take(i + 1).filter(pred) == if pred(s[i]) {
            s.take(i).filter(pred).push(s[i])
        } else {
            s.take(i).filter(pred)
        },
    decreases i,
{
    let t1 = s.take(i + 1);
    assert(t1.drop_last() =~= s.take(i));
    assert(t1.last() == s[i]);
    reveal(Seq::filter);
    if pred(s[i]) {
        assert(t1.filter(pred) =~= s.take(i).filter(pred).push(s[i]));
    } else {
        assert(t1.filter(pred) =~= s.take(i).filter(pred));
    }
}

/// Stable partition of the device list: defaults first, then the rest, each
/// group in original order.
pub fn sort_default_first(devs: Vec<DeviceInfo>) -> (res: Vec<DeviceInfo>)
    ensures
        device_models(res@) == spec_default_first(device_models(devs@)),
{
    let ghost ms = device_models(devs@);
    let mut defaults: Vec<DeviceInfo> = Vec::new();
    let mut others: Vec<DeviceInfo> = Vec::new();
    let mut i: usize = 0;
    while i < devs.len()
        invariant
            i <= devs@.len(),
            ms == device_models(devs@),
            device_models(defaults@) == ms.take(i as int).filter(
                |d: DeviceModel| d.is_default,
            ),
            device_models(others@) == ms.take(i as int).filter(
                |d: DeviceModel| !d.is_default,
            ),
        decreases devs@.len() - i,
    {
        proof {
            lemma_filter_take_step(ms, i as int, |d: DeviceModel| d.is_default);
            lemma_filter_take_step(ms, i as int, |d: DeviceModel| !d.is_default);
        }
        if devs[i].is_default {
            defaults.push(devs[i].clone());
            proof {
                assert(device_models(defaults@) =~= ms.take(i + 1).filter(
                    |d: DeviceModel| d.is_default,
                ));
                assert(device_models(others@) =~= ms.take(i + 1).filter(
                    |d: DeviceModel| !d.is_default,
                ));
            }
        } else {
            others.push(devs[i].clone());
            proof {
                assert(device_models(defaults@) =~= ms.take(i + 1).filter(
                    |d: DeviceModel| d.is_default,
                ));
                assert(device_models(others@) =~= ms.take(i + 1).filter(
                    |d: DeviceModel| !d.is_default,
                ));
            }
        }
        i = i + 1;
    }
    proof {
        assert(ms.take(devs@.len() as int) =~= ms);
    }
    let mut res = defaults;
    let ghost head = device_models(res@);
    let mut k: usize = 0;
    while k < others.len()
        invariant
            k <= others@.len(),
            head == ms.filter(|d: DeviceModel| d.is_default),
            device_models(others@) == ms.filter(|d: DeviceModel| !d.is_default),
            device_models(res@) == head + device_models(others@).take(k as int),
        decreases others@.len() - k,
    {
        let ghost prev = device_models(res@);
        res.push(others[k].clone());
        proof {
            assert(device_models(res@) =~= prev.push(device_models(others@)[k as int]));
            assert(device_models(others@).take(k as int).push(device_models(others@)[k as int])
                =~= device_models(others@).take(k + 1));
        }
        k = k + 1;
    }
    proof {
        assert(device_models(others@).take(others@.len() as int) =~= device_models(others@));
        assert(device_models(res@) == spec_default_first(ms));
    }
    res
}

/// Display name of an application stream: its declared application name, or
/// the literal `Unknown` fallback.
pub fn resolve_stream_name(app_name: Option<String>) -> (r: String)
    ensures
        match app_name {
            Some(n) => r@ == n@,
            None => r@ == "Unknown"@,
        },
{
    match app_name {
        Some(n) => n,
        None => "Unknown".to_owned(),
    }
}

/// Snapshot assembled from raw enumerations: devices are tagged by the
/// default names and reordered default-first, the summary fields mirror the
/// selected device of each direction, and the peak levels are carried in.
pub fn build_snapshot(
    sinks: Vec<DeviceInfo>,
    sink_inputs: Vec<StreamInfo>,
    sources: Vec<DeviceInfo>,
    source_outputs: Vec<StreamInfo>,
    default_sink: Option<String>,
    default_source: Option<String>,
    volume_level: u8,
    mic_level: u8,
) -> (res: Snapshot)
    ensures
        ({
            let sink_ms = spec_default_first(
                spec_tagged(
                    device_models(sinks@),
                    match default_sink {
                        Some(n) => Some(n@),
                        None => None,
                    },
                ),
            );
            let source_ms = spec_default_first(
                spec_tagged(
                    device_models(sources@),
                    match default_source {
                        Some(n) => Some(n@),
                        None => None,
                    },
                ),
            );
            &&& res@.sinks == sink_ms
            &&& res@.sources == source_ms
            &&& res@.sink_inputs == stream_models(sink_inputs@)
            &&& res@.source_outputs == stream_models(source_outputs@)
            &&& (match spec_selected_device(sink_ms) {
                Some(d) => res@.volume_percent == d.volume && res@.volume_muted == d.muted,
                None => res@.volume_percent == 0 && res@.volume_muted == false,
            })
            &&& (match spec_selected_device(source_ms) {
                Some(d) => res@.mic_percent == d.volume && res@.mic_muted == d.muted,
                None => res@.mic_percent == 0 && res@.mic_muted == false,
            })
            &&& res@.volume_level == volume_level
            &&& res@.mic_level == mic_level
        }),
{
    let sinks = sort_default_first(tag_defaults(sinks, default_sink.as_ref()));
    let sources = sort_default_first(tag_defaults(sources, default_source.as_ref()));
    let (volume_percent, volume_muted) = summary_of(&sinks);
    let (mic_percent, mic_muted) = summary_of(&sources);
    Snapshot {
        volume_percent,
        volume_muted,
        volume_level,
        mic_percent,
        mic_muted,
        mic_level,
        sinks,
        sink_inputs,
        sources,
        source_outputs,
    }
}

} // verus!
