//! Device selection: the first physical device that has a graphics-capable
//! queue family, a family that can present to the surface, and the swap-chain
//! extension, and the queue requests for the logical device made on it.
use vstd::prelude::*;

use crate::error::RunError;
use crate::native;
use crate::swapchain::SurfaceSupport;

verus! {

/// Raw bit of `VK_QUEUE_GRAPHICS_BIT`.
pub const QUEUE_GRAPHICS_BIT: u32 = 1;

/// What the renderer needs to know of one queue family of a physical device.
#[derive(Clone, Copy, Debug, PartialEq, Eq, Structural)]
pub struct QueueFamilyInfo {
    /// Raw `VkQueueFlags` of the family.
    pub queue_flags: u32,
    /// Whether the family can present to the renderer's surface.
    pub present_support: bool,
}

impl QueueFamilyInfo {
    pub open spec fn supports_graphics(self) -> bool {
        self.queue_flags & QUEUE_GRAPHICS_BIT == QUEUE_GRAPHICS_BIT
    }
}

/// A snapshot of one enumerated physical device, taken against the surface.
#[derive(Clone, Debug)]
pub struct DeviceCandidate {
    pub queue_families: Vec<QueueFamilyInfo>,
    /// Names of the device extensions the device advertises.
    pub extensions: Vec<String>,
    /// What the device supports of the surface.
    pub surface_support: SurfaceSupport,
}

/// Queue-family indices of a selected device: one for graphics work and one
/// for presentation, possibly the same.
#[derive(Clone, Copy, Debug, PartialEq, Eq, Structural)]
pub struct VulkanQueuesIndices {
    pub graphic_family_i: u32,
    pub present_family_i: u32,
}

/// One queue-create request for the logical device: a family and a number of
/// queues in it (each at priority 1.0).
#[derive(Clone, Copy, Debug, PartialEq, Eq, Structural)]
pub struct QueueCreateRequest {
    pub queue_family_index: u32,
    pub queue_count: u32,
}

/// `i` is the first graphics-capable family.
pub open spec fn is_first_graphics(families: Seq<QueueFamilyInfo>, i: int) -> bool {
    &&& 0 <= i < families.len()
    &&& families[i].supports_graphics()
    &&& forall|k: int| 0 <= k < i ==> !(#[trigger] families[k]).supports_graphics()
}

/// `i` is the first family that can present to the surface.
pub open spec fn is_first_present(families: Seq<QueueFamilyInfo>, i: int) -> bool {
    &&& 0 <= i < families.len()
    &&& families[i].present_support
    &&& forall|k: int| 0 <= k < i ==> !(#[trigger] families[k]).present_support
}

pub open spec fn has_graphics_family(families: Seq<QueueFamilyInfo>) -> bool {
    exists|i: int| 0 <= i < families.len() && (#[trigger] families[i]).supports_graphics()
}

pub open spec fn has_present_family(families: Seq<QueueFamilyInfo>) -> bool {
    exists|i: int| 0 <= i < families.len() && (#[trigger] families[i]).present_support
}

/// The indices that one scan of the families finds: the first graphics-capable
/// family and the first present-capable family, if both exist.
pub open spec fn queues_of(families: Seq<QueueFamilyInfo>) -> Option<VulkanQueuesIndices> {
    if has_graphics_family(families) && has_present_family(families) {
        Some(
            VulkanQueuesIndices {
                graphic_family_i: (choose|i: int| is_first_graphics(families, i)) as u32,
                present_family_i: (choose|i: int| is_first_present(families, i)) as u32,
            },
        )
    } else {
        None
    }
}

/// Whether the device advertises the swap-chain extension.
pub open spec fn has_swapchain_extension(extensions: Seq<String>) -> bool {
    exists|i: int| 0 <= i < extensions.len() && (#[trigger] extensions[i])@ == "VK_KHR_swapchain"@
}

/// Whether the renderer can use the device.
pub open spec fn is_suitable(c: DeviceCandidate) -> bool {
    queues_of(c.queue_families@) is Some && has_swapchain_extension(c.extensions@)
}

/// The families whose queues the logical device asks for: each index once.
pub open spec fn unique_families(q: VulkanQueuesIndices) -> Seq<u32> {
    if q.graphic_family_i == q.present_family_i {
        seq![q.graphic_family_i]
    } else {
        seq![q.graphic_family_i, q.present_family_i]
    }
}

proof fn lemma_first_is_chosen(families: Seq<QueueFamilyInfo>, g: int, p: int)
    requires
        is_first_graphics(families, g),
        is_first_present(families, p),
    ensures
        queues_of(families) == Some(
            VulkanQueuesIndices { graphic_family_i: g as u32, present_family_i: p as u32 },
        ),
{
    assert(has_graphics_family(families) && has_present_family(families)) by {
        assert(families[g].supports_graphics());
        assert(families[p].present_support);
    }
    let cg = choose|i: int| is_first_graphics(families, i);
    let cp = choose|i: int| is_first_present(families, i);
    assert(is_first_graphics(families, cg));
    assert(is_first_present(families, cp));
    if cg < g {
        assert(!families[cg].supports_graphics());
    } else if g < cg {
        assert(!families[g].supports_graphics());
    }
    if cp < p {
        assert(!families[cp].present_support);
    } else if p < cp {
        assert(!families[p].present_support);
    }
}

/// Finds, in one scan, the first graphics-capable family and the first family
/// that can present to the surface.
pub fn get_queues(families: &Vec<QueueFamilyInfo>) -> (r: Option<VulkanQueuesIndices>)
    requires
        families@.len() <= u32::MAX,
    ensures
        r == queues_of(families@),
{
    let graphics_bit = native::queue_flag_graphics();
    let mut graphics: Option<u32> = None;
    let mut present: Option<u32> = None;
    let mut i: usize = 0;
    while i < families.len()
        invariant
            0 <= i <= families@.len(),
            families@.len() <= u32::MAX,
            graphics_bit == QUEUE_GRAPHICS_BIT,
            match graphics {
                Some(g) => is_first_graphics(families@, g as int) && g < i,
                None => forall|k: int| 0 <= k < i ==> !(#[trigger] families@[k]).supports_graphics(),
            },
            match present {
                Some(p) => is_first_present(families@, p as int) && p < i,
                None => forall|k: int| 0 <= k < i ==> !(#[trigger] families@[k]).present_support,
            },
        decreases families.len() - i,
    {
        let family = families[i];
        if graphics.is_none() && native::queue_flags_contain(family.queue_flags, graphics_bit) {
            graphics = Some(i as u32);
        }
        if present.is_none() && family.present_support {
            present = Some(i as u32);
        }
        i = i + 1;
    }
    match (graphics, present) {
        (Some(g), Some(p)) => {
            proof {
                lemma_first_is_chosen(families@, g as int, p as int);
            }
            Some(VulkanQueuesIndices { graphic_family_i: g, present_family_i: p })
        },
        _ => {
            proof {
                if graphics is None {
                    assert(!has_graphics_family(families@));
                } else {
                    assert(!has_present_family(families@));
                }
            }
            None
        },
    }
}

/// Whether the list of advertised extensions holds the swap-chain extension.
pub fn supports_required_extensions(extensions: &Vec<String>) -> (r: bool)
    ensures
        r == has_swapchain_extension(extensions@),
{
    let required = native::swapchain_extension_name();
    let mut i: usize = 0;
    while i < extensions.len()
        invariant
            0 <= i <= extensions@.len(),
            required@ == "VK_KHR_swapchain"@,
            forall|k: int| 0 <= k < i ==> (#[trigger] extensions@[k])@ != "VK_KHR_swapchain"@,
        decreases extensions.len() - i,
    {
        if extensions[i] == required {
            return true;
        }
        i = i + 1;
    }
    false
}

/// Whether the renderer can use the device: both queue families exist and the
/// swap-chain extension is advertised.
pub fn is_suitable_device(candidate: &DeviceCandidate) -> (r: bool)
    requires
        candidate.queue_families@.len() <= u32::MAX,
    ensures
        r == is_suitable(*candidate),
{
    get_queues(&candidate.queue_families).is_some() && supports_required_extensions(
        &candidate.extensions,
    )
}


/// `i` is the first suitable candidate.
pub open spec fn is_first_suitable(candidates: Seq<DeviceCandidate>, i: int) -> bool {
    &&& 0 <= i < candidates.len()
    &&& is_suitable(candidates[i])
    &&& forall|k: int| 0 <= k < i ==> !is_suitable(#[trigger] candidates[k])
}

/// Every candidate reports a number of queue families that a `u32` can index.
pub open spec fn families_indexable(candidates: Seq<DeviceCandidate>) -> bool {
    forall|k: int| 0 <= k < candidates.len() ==> (#[trigger] candidates[k]).queue_families@.len() <= u32::MAX
}

/// Selects the first suitable device in enumeration order and the queue
/// families found on it; fails with `NoSuitableDevice` when none is suitable.
pub fn get_phys_device(candidates: &Vec<DeviceCandidate>) -> (r: Result<
    (usize, VulkanQueuesIndices),
    RunError,
>)
    requires
        families_indexable(candidates@),
    ensures
        match r {
            Ok((i, q)) => is_first_suitable(candidates@, i as int) && queues_of(
                candidates@[i as int].queue_families@,
            ) == Some(q),
            Err(e) => e == RunError::NoSuitableDevice && forall|k: int|
                0 <= k < candidates@.len() ==> !is_suitable(#[trigger] candidates@[k]),
        },
{
    let mut i: usize = 0;
    while i < candidates.len()
        invariant
            0 <= i <= candidates@.len(),
            families_indexable(candidates@),
            forall|k: int| 0 <= k < i ==> !is_suitable(#[trigger] candidates@[k]),
        decreases candidates.len() - i,
    {
        let candidate = &candidates[i];
        assert(candidate.queue_families@.len() <= u32::MAX);
        if supports_required_extensions(&candidate.extensions) {
            if let Some(q) = get_queues(&candidate.queue_families) {
                return Ok((i, q));
            }
        }
        i = i + 1;
    }
    Err(RunError::NoSuitableDevice)
}

impl VulkanQueuesIndices {
    /// The queue requests for the logical device: one queue in each distinct
    /// family, so that a family that does both jobs is asked for once.
    pub fn to_create_infos(&self) -> (r: Vec<QueueCreateRequest>)
        ensures
            r@.len() == unique_families(*self).len(),
            forall|k: int|
                0 <= k < r@.len() ==> (#[trigger] r@[k]).queue_family_index == unique_families(
                    *self,
                )[k] && r@[k].queue_count == 1,
    {
        let mut infos: Vec<QueueCreateRequest> = Vec::new();
        infos.push(QueueCreateRequest { queue_family_index: self.graphic_family_i, queue_count: 1 });
        if self.present_family_i != self.graphic_family_i {
            infos.push(
                QueueCreateRequest { queue_family_index: self.present_family_i, queue_count: 1 },
            );
        }
        infos
    }
}

/// Once a device is selected, both a graphics family and a present family were
/// found on it by the same scan; the logical device then asks for two distinct
/// families when they differ and for one when they coincide.
pub proof fn lemma_selected_device_queues(
    candidates: Seq<DeviceCandidate>,
    i: int,
    q: VulkanQueuesIndices,
)
    requires
        families_indexable(candidates),
        is_first_suitable(candidates, i),
        queues_of(candidates[i].queue_families@) == Some(q),
    ensures
        is_first_graphics(candidates[i].queue_families@, q.graphic_family_i as int),
        is_first_present(candidates[i].queue_families@, q.present_family_i as int),
        q.graphic_family_i != q.present_family_i ==> unique_families(q).len() == 2
            && unique_families(q)[0] != unique_families(q)[1],
        q.graphic_family_i == q.present_family_i ==> unique_families(q).len() == 1,
        unique_families(q).to_set() == set![q.graphic_family_i, q.present_family_i],
{
    let fams = candidates[i].queue_families@;
    assert(fams.len() <= u32::MAX);
    assert(has_graphics_family(fams) && has_present_family(fams));
    let wg = choose|k: int| 0 <= k < fams.len() && (#[trigger] fams[k]).supports_graphics();
    let wp = choose|k: int| 0 <= k < fams.len() && (#[trigger] fams[k]).present_support;
    lemma_first_exists(fams, wg, wp);
    let g = choose|k: int| is_first_graphics(fams, k);
    let p = choose|k: int| is_first_present(fams, k);
    assert(is_first_graphics(fams, g) && is_first_present(fams, p));
    let u = unique_families(q);
    let pair = set![q.graphic_family_i, q.present_family_i];
    assert forall|x: u32| u.to_set().contains(x) <==> pair.contains(x) by {
        if pair.contains(x) {
            if x == q.graphic_family_i {
                assert(u[0] == x);
            } else {
                assert(u[u.len() - 1] == x);
            }
        }
    }
    assert(u.to_set() =~= pair);
}

proof fn lemma_first_exists(families: Seq<QueueFamilyInfo>, g: int, p: int)
    requires
        0 <= g < families.len() && families[g].supports_graphics(),
        0 <= p < families.len() && families[p].present_support,
    ensures
        exists|i: int| is_first_graphics(families, i),
        exists|i: int| is_first_present(families, i),
    decreases g + p,
{
    if exists|k: int| 0 <= k < g && (#[trigger] families[k]).supports_graphics() {
        let k = choose|k: int| 0 <= k < g && (#[trigger] families[k]).supports_graphics();
        lemma_first_exists(families, k, p);
    } else if exists|k: int| 0 <= k < p && (#[trigger] families[k]).present_support {
        let k = choose|k: int| 0 <= k < p && (#[trigger] families[k]).present_support;
        lemma_first_exists(families, g, k);
    } else {
        assert(is_first_graphics(families, g));
        assert(is_first_present(families, p));
    }
}

/// The device extensions the logical device enables: the swap chain.
pub fn required_device_extensions() -> (r: Vec<String>)
    ensures
        r@.len() == 1,
        r@[0]@ == "VK_KHR_swapchain"@,
{
    let mut v: Vec<String> = Vec::new();
    v.push(native::swapchain_extension_name());
    v
}

/// The logical device to create: on which candidate, with which queue
/// families, which queue requests and which extensions.
#[derive(Clone, Debug)]
pub struct VulkanDevice {
    /// Position of the chosen device in enumeration order.
    pub phys_device: usize,
    pub queues_i: VulkanQueuesIndices,
    pub queue_requests: Vec<QueueCreateRequest>,
    pub extensions: Vec<String>,
}

/// Selects the device and describes the logical device to create on it; fails
/// with `NoSuitableDevice` when no candidate is suitable, and then nothing is
/// to be created.
pub fn get_device(candidates: &Vec<DeviceCandidate>) -> (r: Result<VulkanDevice, RunError>)
    requires
        families_indexable(candidates@),
    ensures
        match r {
            Ok(d) => {
                &&& is_first_suitable(candidates@, d.phys_device as int)
                &&& queues_of(candidates@[d.phys_device as int].queue_families@) == Some(d.queues_i)
                &&& d.queue_requests@.len() == unique_families(d.queues_i).len()
                &&& forall|k: int|
                    0 <= k < d.queue_requests@.len() ==> (#[trigger] d.queue_requests@[k]).queue_family_index
                        == unique_families(d.queues_i)[k] && d.queue_requests@[k].queue_count == 1
                &&& d.extensions@.len() == 1
                &&& d.extensions@[0]@ == "VK_KHR_swapchain"@
            },
            Err(e) => e == RunError::NoSuitableDevice && forall|k: int|
                0 <= k < candidates@.len() ==> !is_suitable(#[trigger] candidates@[k]),
        },
{
    match get_phys_device(candidates) {
        Ok((i, q)) => Ok(
            VulkanDevice {
                phys_device: i,
                queues_i: q,
                queue_requests: q.to_create_infos(),
                extensions: required_device_extensions(),
            },
        ),
        Err(e) => Err(e),
    }
}

} // verus!
