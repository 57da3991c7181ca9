//! Adapter selection and queue-family discovery.
//!
//! An adapter is suitable iff it exposes a queue family supporting graphics,
//! a queue family supporting presentation to the surface (possibly the same
//! family), the presentation-chain extension, and at least one surface format
//! and present mode.  The first suitable adapter wins; there is no scoring.

use vstd::prelude::*;

use crate::error::SetupError;

verus! {

/// What one queue family offers, as reported by the platform.
#[derive(Clone, Copy, Debug, PartialEq, Eq, Structural)]
pub struct QueueFamilyProperties {
    /// The family supports graphics operations.
    pub supports_graphics: bool,
    /// The family supports presentation to the target surface.
    pub supports_present: bool,
}

/// The chosen graphics and presentation families; either may be missing
/// until discovery completes, and the two may be equal.
#[derive(Clone, Copy, Debug, PartialEq, Eq)]
pub struct QueueFamilyIndices {
    /// Index of a family supporting graphics operations.
    pub graphics_family: Option<u32>,
    /// Index of a family supporting presentation.
    pub present_family: Option<u32>,
}

/// Both required families have been found.
pub open spec fn spec_is_complete(q: QueueFamilyIndices) -> bool {
    q.graphics_family is Some && q.present_family is Some
}

/// One discovery step: family `i` overwrites whichever slots it supports.
pub open spec fn qfi_update(
    q: QueueFamilyIndices,
    f: QueueFamilyProperties,
    i: u32,
) -> QueueFamilyIndices {
    QueueFamilyIndices {
        graphics_family: if f.supports_graphics {
            Some(i)
        } else {
            q.graphics_family
        },
        present_family: if f.supports_present {
            Some(i)
        } else {
            q.present_family
        },
    }
}

/// Discovery from position `i` with accumulator `acc`: update on each family
/// in index order, stopping as soon as both slots are filled.
pub open spec fn spec_find_from(
    fams: Seq<QueueFamilyProperties>,
    i: int,
    acc: QueueFamilyIndices,
) -> QueueFamilyIndices
    decreases fams.len() - i,
{
    if i < 0 || i >= fams.len() {
        acc
    } else {
        let next = qfi_update(acc, fams[i], i as u32);
        if spec_is_complete(next) {
            next
        } else {
            spec_find_from(fams, i + 1, next)
        }
    }
}

/// The queue-family indices that discovery yields on `fams`.
pub open spec fn spec_find_queue_families(fams: Seq<QueueFamilyProperties>) -> QueueFamilyIndices {
    spec_find_from(fams, 0, QueueFamilyIndices { graphics_family: None, present_family: None })
}

/// Every filled slot points at an in-range family that supports the
/// corresponding operation.
pub open spec fn qfi_sound(fams: Seq<QueueFamilyProperties>, q: QueueFamilyIndices) -> bool {
    &&& (q.graphics_family matches Some(g) ==> 0 <= g < fams.len() && fams[
        g as int
    ].supports_graphics)
    &&& (q.present_family matches Some(p) ==> 0 <= p < fams.len() && fams[
        p as int
    ].supports_present)
}

proof fn lemma_find_from_sound(fams: Seq<QueueFamilyProperties>, i: int, acc: QueueFamilyIndices)
    requires
        0 <= i <= fams.len(),
        fams.len() <= u32::MAX,
        qfi_sound(fams, acc),
    ensures
        qfi_sound(fams, spec_find_from(fams, i, acc)),
    decreases fams.len() - i,
{
    if i < fams.len() {
        let next = qfi_update(acc, fams[i], i as u32);
        assert(qfi_sound(fams, next));
        if !spec_is_complete(next) {
            lemma_find_from_sound(fams, i + 1, next);
        }
    }
}

/// Whatever discovery fills in, it fills in correctly: each chosen family
/// index is in range and supports its operation.  This is the invariant the
/// device context is created under.
pub proof fn lemma_queue_families_supported(fams: Seq<QueueFamilyProperties>)
    requires
        fams.len() <= u32::MAX,
    ensures
        qfi_sound(fams, spec_find_queue_families(fams)),
{
    lemma_find_from_sound(
        fams,
        0,
        QueueFamilyIndices { graphics_family: None, present_family: None },
    );
}

proof fn lemma_find_from_complete(fams: Seq<QueueFamilyProperties>, i: int, acc: QueueFamilyIndices)
    requires
        0 <= i <= fams.len(),
    ensures
        spec_find_from(fams, i, acc).graphics_family is Some <==> (acc.graphics_family is Some
            || exists|j: int| i <= j < fams.len() && #[trigger] fams[j].supports_graphics),
        spec_find_from(fams, i, acc).present_family is Some <==> (acc.present_family is Some
            || exists|j: int| i <= j < fams.len() && #[trigger] fams[j].supports_present),
    decreases fams.len() - i,
{
    if i < fams.len() {
        let next = qfi_update(acc, fams[i], i as u32);
        if spec_is_complete(next) {
            if acc.graphics_family !is Some && next.graphics_family is Some {
                assert(fams[i].supports_graphics);
            }
            if acc.present_family !is Some && next.present_family is Some {
                assert(fams[i].supports_present);
            }
        } else {
            lemma_find_from_complete(fams, i + 1, next);
            if next.graphics_family is Some && acc.graphics_family !is Some {
                assert(fams[i].supports_graphics);
            }
            if next.present_family is Some && acc.present_family !is Some {
                assert(fams[i].supports_present);
            }
            if exists|j: int| i <= j < fams.len() && #[trigger] fams[j].supports_graphics {
                let j = choose|j: int| i <= j < fams.len() && #[trigger] fams[j].supports_graphics;
                if j == i {
                    assert(next.graphics_family is Some);
                } else {
                    assert(i + 1 <= j < fams.len() && fams[j].supports_graphics);
                }
            }
            if exists|j: int| i <= j < fams.len() && #[trigger] fams[j].supports_present {
                let j = choose|j: int| i <= j < fams.len() && #[trigger] fams[j].supports_present;
                if j == i {
                    assert(next.present_family is Some);
                } else {
                    assert(i + 1 <= j < fams.len() && fams[j].supports_present);
                }
            }
        }
    }
}

/// Discovery completes exactly when the adapter exposes the two required
/// kinds of family at all: some family supporting graphics and some family
/// supporting presentation (possibly the same one).
pub proof fn lemma_discovery_complete_iff_supported(fams: Seq<QueueFamilyProperties>)
    ensures
        spec_is_complete(spec_find_queue_families(fams)) <==> ((exists|j: int|
            0 <= j < fams.len() && #[trigger] fams[j].supports_graphics) && (exists|j: int|
            0 <= j < fams.len() && #[trigger] fams[j].supports_present)),
{
    lemma_find_from_complete(
        fams,
        0,
        QueueFamilyIndices { graphics_family: None, present_family: None },
    );
}

impl QueueFamilyIndices {
    /// Both a graphics family and a presentation family have been found.
    pub fn is_complete(&self) -> (r: bool)
        ensures
            r == spec_is_complete(*self),
    {
        self.graphics_family.is_some() && self.present_family.is_some()
    }
}

/// Walks the queue families in index order, recording the latest family that
/// supports graphics and the latest that supports presentation, and stops as
/// soon as both are found.
pub fn find_queue_families(families: &Vec<QueueFamilyProperties>) -> (r: QueueFamilyIndices)
    requires
        families@.len() <= u32::MAX,
    ensures
        r == spec_find_queue_families(families@),
{
    let mut indices = QueueFamilyIndices { graphics_family: None, present_family: None };
    let mut i: usize = 0;
    while i < families.len()
        invariant
            families@.len() <= u32::MAX,
            i <= families@.len(),
            !spec_is_complete(indices),
            spec_find_from(families@, i as int, indices) == spec_find_queue_families(families@),
        decreases families@.len() - i,
    {
        let f = families[i];
        let next = QueueFamilyIndices {
            graphics_family: if f.supports_graphics {
                Some(i as u32)
            } else {
                indices.graphics_family
            },
            present_family: if f.supports_present {
                Some(i as u32)
            } else {
                indices.present_family
            },
        };
        assert(next == qfi_update(indices, families@[i as int], i as u32));
        if next.graphics_family.is_some() && next.present_family.is_some() {
            return next;
        }
        indices = next;
        i += 1;
    }
    indices
}

/// Everything suitability depends on, gathered for one adapter.
#[derive(Clone, Debug, PartialEq, Eq)]
pub struct DeviceSupportInfo {
    /// The adapter's queue families, in index order.
    pub queue_families: Vec<QueueFamilyProperties>,
    /// The presentation-chain extension is available on the adapter.
    pub swapchain_extension_supported: bool,
    /// How many surface formats the adapter offers for the surface.
    pub surface_format_count: usize,
    /// How many present modes the adapter offers for the surface.
    pub present_mode_count: usize,
}

/// An adapter is suitable iff discovery finds both families, the
/// presentation extension is available, and the surface has at least one
/// format and one present mode.
pub open spec fn spec_device_suitable(d: DeviceSupportInfo) -> bool {
    &&& spec_is_complete(spec_find_queue_families(d.queue_families@))
    &&& d.swapchain_extension_supported
    &&& d.surface_format_count > 0
    &&& d.present_mode_count > 0
}

/// Decides suitability for one adapter.
pub fn is_device_suitable(device: &DeviceSupportInfo) -> (r: bool)
    requires
        device.queue_families@.len() <= u32::MAX,
    ensures
        r == spec_device_suitable(*device),
{
    let indices = find_queue_families(&device.queue_families);
    indices.is_complete() && device.swapchain_extension_supported
        && device.surface_format_count > 0 && device.present_mode_count > 0
}

/// Picks the first suitable adapter, in enumeration order, together with its
/// queue-family indices.  Fails with `NoSuitableDevice` iff no adapter is
/// suitable; that failure is fatal and not retried.
pub fn pick_physical_device(devices: &Vec<DeviceSupportInfo>) -> (r: Result<
    (usize, QueueFamilyIndices),
    SetupError,
>)
    requires
        forall|i: int| 0 <= i < devices@.len() ==> #[trigger] devices@[i].queue_families@.len()
            <= u32::MAX,
    ensures
        match r {
            Ok((i, q)) => {
                &&& 0 <= i < devices@.len()
                &&& spec_device_suitable(devices@[i as int])
                &&& forall|j: int| 0 <= j < i ==> !spec_device_suitable(devices@[j])
                &&& q == spec_find_queue_families(devices@[i as int].queue_families@)
            },
            Err(e) => {
                &&& e == SetupError::NoSuitableDevice
                &&& forall|j: int| 0 <= j < devices@.len() ==> !spec_device_suitable(devices@[j])
            },
        },
{
    let mut i: usize = 0;
    while i < devices.len()
        invariant
            i <= devices@.len(),
            forall|k: int| 0 <= k < devices@.len() ==> #[trigger] devices@[k].queue_families@.len()
                <= u32::MAX,
            forall|j: int| 0 <= j < i ==> !spec_device_suitable(devices@[j]),
        decreases devices@.len() - i,
    {
        if is_device_suitable(&devices[i]) {
            let indices = find_queue_families(&devices[i].queue_families);
            return Ok((i, indices));
        }
        i += 1;
    }
    Err(SetupError::NoSuitableDevice)
}

/// The presentation-chain extension name, byte for byte.
pub open spec fn swapchain_extension_name() -> Seq<u8> {
    seq![86u8, 75, 95, 75, 72, 82, 95, 115, 119, 97, 112, 99, 104, 97, 105, 110]
}

/// Builds the presentation-chain extension name ("VK_KHR_swapchain") as bytes.
pub fn swapchain_extension_name_bytes() -> (r: Vec<u8>)
    ensures
        r@ == swapchain_extension_name(),
{
    let mut v: Vec<u8> = Vec::new();
    v.push(86);
    v.push(75);
    v.push(95);
    v.push(75);
    v.push(72);
    v.push(82);
    v.push(95);
    v.push(115);
    v.push(119);
    v.push(97);
    v.push(112);
    v.push(99);
    v.push(104);
    v.push(97);
    v.push(105);
    v.push(110);
    proof {
        assert(v@ =~= swapchain_extension_name());
    }
    v
}

/// Byte-for-byte equality of two byte vectors.
pub fn bytes_equal(a: &Vec<u8>, b: &Vec<u8>) -> (r: bool)
    ensures
        r <==> a@ == b@,
{
    if a.len() != b.len() {
        return false;
    }
    let mut i: usize = 0;
    while i < a.len()
        invariant
            a@.len() == b@.len(),
            i <= a@.len(),
            forall|j: int| 0 <= j < i ==> a@[j] == b@[j],
        decreases a@.len() - i,
    {
        if a[i] != b[i] {
            return false;
        }
        i += 1;
    }
    proof {
        assert(a@ =~= b@);
    }
    true
}

/// The required extension is present in the adapter's extension list.
pub fn check_device_extension_support(available: &Vec<Vec<u8>>) -> (r: bool)
    ensures
        r <==> exists|i: int| 0 <= i < available@.len() && #[trigger] available@[i]@
            == swapchain_extension_name(),
{
    let name = swapchain_extension_name_bytes();
    let mut i: usize = 0;
    while i < available.len()
        invariant
            name@ == swapchain_extension_name(),
            i <= available@.len(),
            forall|j: int| 0 <= j < i ==> #[trigger] available@[j]@ != swapchain_extension_name(),
        decreases available@.len() - i,
    {
        if bytes_equal(&available[i], &name) {
            assert(available@[i as int]@ == swapchain_extension_name());
            return true;
        }
        i += 1;
    }
    false
}

/// The distinct queue families a logical device must create queues on:
/// one entry when graphics and presentation share a family, two otherwise.
pub fn unique_queue_families(graphics_family: u32, present_family: u32) -> (r: Vec<u32>)
    ensures
        graphics_family == present_family ==> r@ == seq![graphics_family],
        graphics_family != present_family ==> r@ == seq![graphics_family, present_family],
        r@.contains(graphics_family),
        r@.contains(present_family),
        forall|i: int, j: int| 0 <= i < j < r@.len() ==> r@[i] != r@[j],
{
    let mut v: Vec<u32> = Vec::new();
    v.push(graphics_family);
    if present_family != graphics_family {
        v.push(present_family);
        proof {
            assert(v@ =~= seq![graphics_family, present_family]);
            assert(v@[0] == graphics_family);
            assert(v@[1] == present_family);
        }
    } else {
        proof {
            assert(v@ =~= seq![graphics_family]);
            assert(v@[0] == graphics_family);
        }
    }
    v
}

} // verus!
