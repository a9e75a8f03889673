//! GPU selection and memory-type lookup: scoring the reported physical
//! devices (discrete beats integrated beats anything else), checking the
//! required feature set, finding a graphics-capable queue family, and
//! picking a memory type by filter bits and property flags.

use vstd::prelude::*;

verus! {

/// The reported kind of a physical device.
#[derive(Clone, Copy, Debug, PartialEq, Eq, Structural)]
pub enum DeviceKind {
    Discrete,
    Integrated,
    Other,
}

/// What device selection reads from one reported physical device: its kind,
/// the required feature bits, and per queue family whether it supports
/// graphics work.
#[derive(Debug)]
pub struct DeviceInfo {
    pub kind: DeviceKind,
    pub fill_mode_non_solid: bool,
    pub sampler_anisotropy: bool,
    /// One entry per queue family: does it support graphics?
    pub queue_family_graphics: Vec<bool>,
}

/// The selection score of a device kind: discrete GPUs beat integrated ones,
/// which beat everything else.
pub open spec fn spec_device_score(kind: DeviceKind) -> int {
    match kind {
        DeviceKind::Discrete => 1000,
        DeviceKind::Integrated => 100,
        DeviceKind::Other => 1,
    }
}

/// Whether a device carries the features this engine requires.
pub open spec fn spec_has_required_features(d: DeviceInfo) -> bool {
    d.fill_mode_non_solid && d.sampler_anisotropy
}

/// Check the required device features.
pub fn check_device_features(d: &DeviceInfo) -> (r: bool)
    ensures
        r == spec_has_required_features(*d),
{
    d.fill_mode_non_solid && d.sampler_anisotropy
}

/// The first graphics-capable queue family, if any.
pub open spec fn spec_first_graphics_family(qs: Seq<bool>) -> Option<int> {
    if exists|i: int| 0 <= i < qs.len() && qs[i] {
        Some(choose|i: int| 0 <= i < qs.len() && qs[i] && forall|j: int| 0 <= j < i ==> !qs[j])
    } else {
        None
    }
}

/// A device takes part in selection when it has the required features and a
/// graphics-capable queue family.
pub open spec fn spec_eligible(d: DeviceInfo) -> bool {
    spec_has_required_features(d) && exists|i: int|
        0 <= i < d.queue_family_graphics.len() && d.queue_family_graphics[i]
}

/// Find the first graphics-capable queue family of a device.
pub fn find_graphics_family(d: &DeviceInfo) -> (r: Option<usize>)
    ensures
        r matches Some(f) ==> {
            &&& f < d.queue_family_graphics.len()
            &&& d.queue_family_graphics@[f as int]
            &&& forall|j: int| 0 <= j < f ==> !d.queue_family_graphics@[j]
        },
        r is None ==> forall|j: int|
            0 <= j < d.queue_family_graphics.len() ==> !d.queue_family_graphics@[j],
{
    let mut i: usize = 0;
    while i < d.queue_family_graphics.len()
        invariant
            0 <= i <= d.queue_family_graphics.len(),
            forall|j: int| 0 <= j < i ==> !d.queue_family_graphics@[j],
        decreases d.queue_family_graphics.len() - i,
    {
        if d.queue_family_graphics[i] {
            return Some(i);
        }
        i += 1;
    }
    None
}

/// Select the physical device: among the devices with the required features
/// and a graphics queue family, the first one achieving the best score wins;
/// the returned queue family is its first graphics-capable one. With no
/// eligible device at all, nothing is returned and startup is fatal.
pub fn pick_physical_device(devices: &Vec<DeviceInfo>) -> (r: Option<(usize, usize)>)
    ensures
        r matches Some((d, f)) ==> {
            &&& d < devices@.len()
            &&& spec_eligible(devices@[d as int])
            &&& forall|j: int|
                0 <= j < devices@.len() && spec_eligible(#[trigger] devices@[j])
                    ==> spec_device_score(devices@[j].kind) <= spec_device_score(
                    devices@[d as int].kind,
                )
            &&& forall|j: int|
                0 <= j < d && spec_eligible(#[trigger] devices@[j]) ==> spec_device_score(
                    devices@[j].kind,
                ) < spec_device_score(devices@[d as int].kind)
            &&& f < devices@[d as int].queue_family_graphics.len()
            &&& devices@[d as int].queue_family_graphics@[f as int]
            &&& forall|j: int|
                0 <= j < f ==> !devices@[d as int].queue_family_graphics@[j]
        },
        r is None <==> (forall|j: int|
            0 <= j < devices@.len() ==> !spec_eligible(#[trigger] devices@[j])),
{
    let mut best: Option<(usize, usize)> = None;
    let mut best_score: u32 = 0;
    let mut i: usize = 0;
    while i < devices.len()
        invariant
            0 <= i <= devices@.len(),
            best matches Some((d, f)) ==> {
                &&& d < i
                &&& spec_eligible(devices@[d as int])
                &&& best_score as int == spec_device_score(devices@[d as int].kind)
                &&& forall|j: int|
                    0 <= j < i && spec_eligible(#[trigger] devices@[j]) ==> spec_device_score(
                        devices@[j].kind,
                    ) <= best_score as int
                &&& forall|j: int|
                    0 <= j < d && spec_eligible(#[trigger] devices@[j]) ==> spec_device_score(
                        devices@[j].kind,
                    ) < best_score as int
                &&& f < devices@[d as int].queue_family_graphics.len()
                &&& devices@[d as int].queue_family_graphics@[f as int]
                &&& forall|j: int| 0 <= j < f ==> !devices@[d as int].queue_family_graphics@[j]
            },
            best is None ==> best_score == 0 && (forall|j: int|
                0 <= j < i ==> !spec_eligible(#[trigger] devices@[j])),
        decreases devices@.len() - i,
    {
        let d = &devices[i];
        if check_device_features(d) {
            if let Some(family) = find_graphics_family(d) {
                assert(spec_eligible(devices@[i as int]));
                let score: u32 = match d.kind {
                    DeviceKind::Discrete => 1000,
                    DeviceKind::Integrated => 100,
                    DeviceKind::Other => 1,
                };
                if score > best_score {
                    best = Some((i, family));
                    best_score = score;
                }
            }
        }
        i += 1;
    }
    best
}

/// Whether memory type `i` is admitted by the requirement bitmask and carries
/// all the wanted property flags.
pub open spec fn spec_memory_type_suitable(
    types: Seq<u32>,
    type_filter: u32,
    properties: u32,
    i: int,
) -> bool {
    &&& (type_filter >> (i as u32)) & 1u32 == 1u32
    &&& types[i] & properties == properties
}

/// Find the first memory type admitted by `type_filter` whose property flags
/// contain all of `properties`. `types` holds each memory type's property
/// flags; the API reports at most 32 of them.
pub fn find_memory_type(types: &Vec<u32>, type_filter: u32, properties: u32) -> (r: Option<usize>)
    requires
        types@.len() <= 32,
    ensures
        r matches Some(i) ==> {
            &&& i < types@.len()
            &&& spec_memory_type_suitable(types@, type_filter, properties, i as int)
            &&& forall|j: int|
                0 <= j < i ==> !spec_memory_type_suitable(types@, type_filter, properties, j)
        },
        r is None ==> forall|j: int|
            0 <= j < types@.len() ==> !spec_memory_type_suitable(types@, type_filter, properties, j),
{
    let mut i: usize = 0;
    while i < types.len()
        invariant
            0 <= i <= types@.len(),
            types@.len() <= 32,
            forall|j: int|
                0 <= j < i ==> !spec_memory_type_suitable(types@, type_filter, properties, j),
        decreases types@.len() - i,
    {
        let admitted = (type_filter >> (i as u32)) & 1u32 == 1u32;
        let has_properties = types[i] & properties == properties;
        if admitted && has_properties {
            return Some(i);
        }
        i += 1;
    }
    None
}

/// Severity of a diagnostic message from the GPU API's validation hook.
#[derive(Clone, Copy, Debug, PartialEq, Eq, Structural)]
pub enum DiagnosticSeverity {
    Error,
    Warning,
    Info,
    Verbose,
}

/// The log level a diagnostic message is reported at.
#[derive(Clone, Copy, Debug, PartialEq, Eq, Structural)]
pub enum LogLevel {
    Error,
    Warn,
    Debug,
}

/// Map a diagnostic severity to its log level: errors log as errors,
/// warnings as warnings, everything else as debug output. Diagnostics are
/// log-only and never alter control flow.
pub fn severity_log_level(severity: DiagnosticSeverity) -> (r: LogLevel)
    ensures
        severity == DiagnosticSeverity::Error ==> r == LogLevel::Error,
        severity == DiagnosticSeverity::Warning ==> r == LogLevel::Warn,
        severity != DiagnosticSeverity::Error && severity != DiagnosticSeverity::Warning ==> r
            == LogLevel::Debug,
{
    match severity {
        DiagnosticSeverity::Error => LogLevel::Error,
        DiagnosticSeverity::Warning => LogLevel::Warn,
        _ => LogLevel::Debug,
    }
}

} // verus!
