use vstd::prelude::*;

use crate::error::RenderError;

verus! {

/// Kind of a physical device, as the platform reports it.
#[derive(Clone, Copy, Debug, PartialEq, Eq, Structural)]
pub enum DeviceKind {
    DiscreteGpu,
    IntegratedGpu,
    VirtualGpu,
    Cpu,
    Other,
}

/// Preference rank of a device kind: lower is chosen first.
pub open spec fn device_rank(k: DeviceKind) -> int {
    match k {
        DeviceKind::DiscreteGpu => 0,
        DeviceKind::IntegratedGpu => 1,
        DeviceKind::VirtualGpu => 2,
        DeviceKind::Cpu => 3,
        DeviceKind::Other => 4,
    }
}

/// Executable rank matching `device_rank`.
pub fn rank_of(k: DeviceKind) -> (r: u32)
    ensures
        r == device_rank(k),
{
    match k {
        DeviceKind::DiscreteGpu => 0,
        DeviceKind::IntegratedGpu => 1,
        DeviceKind::VirtualGpu => 2,
        DeviceKind::Cpu => 3,
        DeviceKind::Other => 4,
    }
}

/// One queue family of a candidate device, as the selection logic reads it.
#[derive(Clone, Copy, Debug, PartialEq, Eq, Structural)]
pub struct QueueFamily {
    /// The family accepts graphics commands.
    pub graphics: bool,
    /// The family can present to the target surface.
    pub present: bool,
}

/// What the selection logic reads of one physical device.
#[derive(Clone, Debug)]
pub struct DeviceCandidate {
    pub kind: DeviceKind,
    /// The device offers the swapchain extension.
    pub supports_swapchain: bool,
    pub queue_families: Vec<QueueFamily>,
}

/// A queue family that can both draw and present.
pub open spec fn family_suitable(f: QueueFamily) -> bool {
    f.graphics && f.present
}

/// A device is usable when it offers the swapchain extension and has a
/// queue family that can both draw and present.
pub open spec fn candidate_suitable(c: DeviceCandidate) -> bool {
    &&& c.supports_swapchain
    &&& exists|i: int| 0 <= i < c.queue_families@.len() && family_suitable(c.queue_families@[i])
}

/// Index of the first suitable queue family of one device, or `None`.
fn find_family(families: &Vec<QueueFamily>) -> (r: Option<u32>)
    requires
        families@.len() <= u32::MAX,
    ensures
        r is Some <==> exists|i: int| 0 <= i < families@.len() && family_suitable(families@[i]),
        r matches Some(f) ==> {
            &&& f < families@.len()
            &&& family_suitable(families@[f as int])
            &&& forall|j: int| 0 <= j < f ==> !family_suitable(families@[j])
        },
{
    let mut i: usize = 0;
    while i < families.len()
        invariant
            0 <= i <= families@.len(),
            families@.len() <= u32::MAX,
            forall|j: int| 0 <= j < i ==> !family_suitable(families@[j]),
        decreases families@.len() - i,
    {
        let f = families[i];
        if f.graphics && f.present {
            return Some(i as u32);
        }
        i += 1;
    }
    None
}

/// Selects the physical device to render with: among the devices that
/// offer the swapchain extension and a queue family that can both draw
/// and present, the first one of the best (lowest) rank, together with
/// its first suitable queue family. Fails with `SetupError` exactly when
/// no device is suitable.
pub fn select_physical_device(candidates: &Vec<DeviceCandidate>) -> (r: Result<
    (usize, u32),
    RenderError,
>)
    requires
        forall|i: int|
            0 <= i < candidates@.len() ==> (#[trigger] candidates@[i]).queue_families@.len()
                <= u32::MAX,
    ensures
        r is Ok <==> exists|i: int| 0 <= i < candidates@.len() && candidate_suitable(
            candidates@[i],
        ),
        r matches Err(e) ==> e == RenderError::SetupError,
        r matches Ok(sel) ==> {
            let (d, f) = sel;
            &&& d < candidates@.len()
            &&& candidate_suitable(candidates@[d as int])
            &&& f < candidates@[d as int].queue_families@.len()
            &&& family_suitable(candidates@[d as int].queue_families@[f as int])
            &&& forall|j: int|
                0 <= j < f ==> !family_suitable(candidates@[d as int].queue_families@[j])
            &&& forall|j: int|
                0 <= j < candidates@.len() && candidate_suitable(#[trigger] candidates@[j])
                    ==> device_rank(candidates@[d as int].kind) <= device_rank(candidates@[j].kind)
            &&& forall|j: int|
                0 <= j < d && candidate_suitable(#[trigger] candidates@[j]) ==> device_rank(
                    candidates@[d as int].kind,
                ) < device_rank(candidates@[j].kind)
        },
{
    let mut best: Option<(usize, u32)> = None;
    let ghost mut best_rank: int = 0;
    let mut i: usize = 0;
    while i < candidates.len()
        invariant
            0 <= i <= candidates@.len(),
            forall|k: int|
                0 <= k < candidates@.len() ==> (#[trigger] candidates@[k]).queue_families@.len()
                    <= u32::MAX,
            best is None ==> forall|j: int| 0 <= j < i ==> !candidate_suitable(candidates@[j]),
            best matches Some(sel) ==> {
                let (d, f) = sel;
                &&& d < i
                &&& candidate_suitable(candidates@[d as int])
                &&& best_rank == device_rank(candidates@[d as int].kind)
                &&& f < candidates@[d as int].queue_families@.len()
                &&& family_suitable(candidates@[d as int].queue_families@[f as int])
                &&& forall|j: int|
                    0 <= j < f ==> !family_suitable(candidates@[d as int].queue_families@[j])
                &&& forall|j: int|
                    0 <= j < i && candidate_suitable(#[trigger] candidates@[j]) ==> device_rank(
                        candidates@[d as int].kind,
                    ) <= device_rank(candidates@[j].kind)
                &&& forall|j: int|
                    0 <= j < d && candidate_suitable(#[trigger] candidates@[j]) ==> device_rank(
                        candidates@[d as int].kind,
                    ) < device_rank(candidates@[j].kind)
            },
        decreases candidates@.len() - i,
    {
        let c = &candidates[i];
        if c.supports_swapchain {
            match find_family(&c.queue_families) {
                Some(f) => {
                    assert(candidate_suitable(candidates@[i as int]));
                    let r = rank_of(c.kind);
                    let replace = match best {
                        None => true,
                        Some((bd, _)) => r < rank_of(candidates[bd].kind),
                    };
                    if replace {
                        best = Some((i, f));
                        proof {
                            best_rank = device_rank(candidates@[i as int].kind);
                        }
                    }
                },
                None => {},
            }
        }
        i += 1;
    }
    match best {
        Some(sel) => Ok(sel),
        None => Err(RenderError::SetupError),
    }
}

} // verus!
