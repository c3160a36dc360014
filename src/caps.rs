//! Capability resolution: which queue families serve graphics and
//! presentation, whether required layers and extensions are offered, and
//! whether an adapter can drive the surface at all.

use crate::swapchain::SwapchainSupportDetails;
use vstd::prelude::*;

verus! {

/// `VK_QUEUE_GRAPHICS_BIT`.
pub const QUEUE_GRAPHICS_BIT: u32 = 1;

pub open spec fn has_graphics(flags: u32) -> bool {
    flags & QUEUE_GRAPHICS_BIT == QUEUE_GRAPHICS_BIT
}

/// `i` is the lowest index of a queue family with graphics capability.
pub open spec fn is_first_graphics(queue_flags: Seq<u32>, i: int) -> bool {
    &&& 0 <= i < queue_flags.len()
    &&& has_graphics(queue_flags[i])
    &&& forall|j: int| 0 <= j < i ==> !has_graphics(#[trigger] queue_flags[j])
}

pub open spec fn any_graphics(queue_flags: Seq<u32>) -> bool {
    exists|i: int| 0 <= i < queue_flags.len() && has_graphics(#[trigger] queue_flags[i])
}

/// `i` is the lowest index of a queue family that can present to the surface.
pub open spec fn is_first_present(present_support: Seq<bool>, i: int) -> bool {
    &&& 0 <= i < present_support.len()
    &&& present_support[i]
    &&& forall|j: int| 0 <= j < i ==> !#[trigger] present_support[j]
}

pub open spec fn any_present(present_support: Seq<bool>) -> bool {
    exists|i: int| 0 <= i < present_support.len() && #[trigger] present_support[i]
}

/// The queue families a device uses: the first with graphics capability and
/// the first that can present to the surface (possibly the same one).
#[derive(Clone, Copy, Debug, PartialEq, Eq, Structural)]
pub struct QueueFamilyIndices {
    pub graphics_family: Option<usize>,
    pub present_family: Option<usize>,
}

fn first_graphics_family(queue_flags: &Vec<u32>) -> (r: Option<usize>)
    ensures
        r matches Some(i) ==> is_first_graphics(queue_flags@, i as int),
        r is None <==> !any_graphics(queue_flags@),
{
    let mut i: usize = 0;
    while i < queue_flags.len()
        invariant
            i <= queue_flags@.len(),
            forall|j: int| 0 <= j < i ==> !has_graphics(#[trigger] queue_flags@[j]),
        decreases queue_flags@.len() - i,
    {
        if queue_flags[i] & QUEUE_GRAPHICS_BIT == QUEUE_GRAPHICS_BIT {
            return Some(i);
        }
        i = i + 1;
    }
    None
}

fn first_present_family(present_support: &Vec<bool>) -> (r: Option<usize>)
    ensures
        r matches Some(i) ==> is_first_present(present_support@, i as int),
        r is None <==> !any_present(present_support@),
{
    let mut k: usize = 0;
    while k < present_support.len()
        invariant
            k <= present_support@.len(),
            forall|j: int| 0 <= j < k ==> !#[trigger] present_support@[j],
        decreases present_support@.len() - k,
    {
        if present_support[k] {
            return Some(k);
        }
        k = k + 1;
    }
    None
}

/// Finds the first graphics-capable queue family among `queue_flags` (the
/// capability flags of each family, in order) and the first family whose
/// entry in `present_support` is set.
pub fn find_queue_families(queue_flags: &Vec<u32>, present_support: &Vec<bool>) -> (r:
    QueueFamilyIndices)
    ensures
        r.graphics_family matches Some(i) ==> is_first_graphics(queue_flags@, i as int),
        r.graphics_family is None <==> !any_graphics(queue_flags@),
        r.present_family matches Some(i) ==> is_first_present(present_support@, i as int),
        r.present_family is None <==> !any_present(present_support@),
{
    QueueFamilyIndices {
        graphics_family: first_graphics_family(queue_flags),
        present_family: first_present_family(present_support),
    }
}

/// Byte-for-byte equality of two names.
pub fn names_equal(a: &Vec<u8>, b: &Vec<u8>) -> (r: bool)
    ensures
        r == (a@ == b@),
{
    if a.len() != b.len() {
        return false;
    }
    let mut i: usize = 0;
    while i < a.len()
        invariant
            i <= a@.len(),
            a@.len() == b@.len(),
            forall|j: int| 0 <= j < i ==> a@[j] == b@[j],
        decreases a@.len() - i,
    {
        if a[i] != b[i] {
            return false;
        }
        i = i + 1;
    }
    assert(a@ =~= b@);
    true
}

/// `name` is one of the names in `available`.
pub open spec fn name_listed(available: Seq<Vec<u8>>, name: Seq<u8>) -> bool {
    exists|j: int| 0 <= j < available.len() && (#[trigger] available[j])@ == name
}

/// Every name in `required` is among `available`.
pub open spec fn all_listed(available: Seq<Vec<u8>>, required: Seq<Vec<u8>>) -> bool {
    forall|i: int| 0 <= i < required.len() ==> name_listed(available, (#[trigger] required[i])@)
}

fn name_in(available: &Vec<Vec<u8>>, name: &Vec<u8>) -> (r: bool)
    ensures
        r == name_listed(available@, name@),
{
    let mut j: usize = 0;
    while j < available.len()
        invariant
            j <= available@.len(),
            forall|k: int| 0 <= k < j ==> (#[trigger] available@[k])@ != name@,
        decreases available@.len() - j,
    {
        if names_equal(&available[j], name) {
            return true;
        }
        j = j + 1;
    }
    false
}

/// Whether every required name (a validation layer or a device extension)
/// is among the names the implementation offers.
pub fn names_supported(available: &Vec<Vec<u8>>, required: &Vec<Vec<u8>>) -> (r: bool)
    ensures
        r == all_listed(available@, required@),
{
    let mut i: usize = 0;
    while i < required.len()
        invariant
            i <= required@.len(),
            forall|k: int| 0 <= k < i ==> name_listed(available@, (#[trigger] required@[k])@),
        decreases required@.len() - i,
    {
        if !name_in(available, &required[i]) {
            return false;
        }
        i = i + 1;
    }
    true
}

/// Why an adapter cannot drive the surface.
#[derive(Clone, Copy, Debug, PartialEq, Eq, Structural)]
pub enum Unsupported {
    NoGraphicsQueue,
    NoPresentQueue,
    MissingDeviceExtension,
    NoSurfaceFormats,
    NoPresentModes,
}

/// An adapter that can drive the surface: its queue families and what the
/// surface supports on it.
#[derive(Clone, Debug)]
pub struct AdapterCapabilities {
    pub graphics_family: usize,
    pub present_family: usize,
    pub support: SwapchainSupportDetails,
}

/// The first reason, in the order checked, why an adapter is unsuitable.
pub open spec fn unsuitability(
    queue_flags: Seq<u32>,
    present_support: Seq<bool>,
    available_extensions: Seq<Vec<u8>>,
    required_extensions: Seq<Vec<u8>>,
    support: SwapchainSupportDetails,
) -> Option<Unsupported> {
    if !any_graphics(queue_flags) {
        Some(Unsupported::NoGraphicsQueue)
    } else if !any_present(present_support) {
        Some(Unsupported::NoPresentQueue)
    } else if !all_listed(available_extensions, required_extensions) {
        Some(Unsupported::MissingDeviceExtension)
    } else if support.formats@.len() == 0 {
        Some(Unsupported::NoSurfaceFormats)
    } else if support.present_modes@.len() == 0 {
        Some(Unsupported::NoPresentModes)
    } else {
        None
    }
}

/// Decides whether an adapter can drive the surface. `queue_flags` and
/// `present_support` describe its queue families in order; the extension
/// lists hold names without the terminating zero.
pub fn resolve_capabilities(
    queue_flags: &Vec<u32>,
    present_support: &Vec<bool>,
    available_extensions: &Vec<Vec<u8>>,
    required_extensions: &Vec<Vec<u8>>,
    support: SwapchainSupportDetails,
) -> (r: Result<AdapterCapabilities, Unsupported>)
    ensures
        r matches Err(why) ==> unsuitability(
            queue_flags@,
            present_support@,
            available_extensions@,
            required_extensions@,
            support,
        ) == Some(why),
        r is Ok <==> unsuitability(
            queue_flags@,
            present_support@,
            available_extensions@,
            required_extensions@,
            support,
        ) is None,
        r matches Ok(c) ==> is_first_graphics(queue_flags@, c.graphics_family as int)
            && is_first_present(present_support@, c.present_family as int)
            && c.support.capabilities == support.capabilities
            && c.support.formats@ == support.formats@
            && c.support.present_modes@ == support.present_modes@,
{
    let families = find_queue_families(queue_flags, present_support);
    let graphics_family = match families.graphics_family {
        Some(g) => g,
        None => {
            return Err(Unsupported::NoGraphicsQueue);
        },
    };
    let present_family = match families.present_family {
        Some(p) => p,
        None => {
            return Err(Unsupported::NoPresentQueue);
        },
    };
    if !names_supported(available_extensions, required_extensions) {
        return Err(Unsupported::MissingDeviceExtension);
    }
    if support.formats.len() == 0 {
        return Err(Unsupported::NoSurfaceFormats);
    }
    if support.present_modes.len() == 0 {
        return Err(Unsupported::NoPresentModes);
    }
    Ok(AdapterCapabilities { graphics_family, present_family, support })
}

/// Picks the adapter to use among adapters judged suitable or not: the last
/// suitable one, or none when no adapter is suitable (or there is none).
pub fn pick_physical_device(suitable: &Vec<bool>) -> (r: Option<usize>)
    ensures
        r matches Some(i) ==> i < suitable@.len() && suitable@[i as int] && forall|j: int|
            i < j < suitable@.len() ==> !#[trigger] suitable@[j],
        r is None <==> forall|j: int| 0 <= j < suitable@.len() ==> !#[trigger] suitable@[j],
{
    let mut chosen: Option<usize> = None;
    let mut i: usize = 0;
    while i < suitable.len()
        invariant
            i <= suitable@.len(),
            chosen matches Some(c) ==> c < i && suitable@[c as int] && forall|j: int|
                c < j < i ==> !#[trigger] suitable@[j],
            chosen is None ==> forall|j: int| 0 <= j < i ==> !#[trigger] suitable@[j],
        decreases suitable@.len() - i,
    {
        if suitable[i] {
            chosen = Some(i);
        }
        i = i + 1;
    }
    chosen
}

} // verus!
