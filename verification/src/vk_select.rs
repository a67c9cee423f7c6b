//! The decisions that the Vulkan wrapper takes on what a physical device
//! reports: which memory type to allocate from, which device and queue
//! families to create a logical device with, which requested layers or
//! extensions the instance lacks, and the layers and extensions asked for by
//! default.

use vstd::prelude::*;
use crate::text::strings_view;

verus! {

/// `VK_MEMORY_PROPERTY_DEVICE_LOCAL_BIT`
pub const VK_MEMORY_PROPERTY_DEVICE_LOCAL_BIT: u32 = 0x1;

/// `VK_MEMORY_PROPERTY_HOST_VISIBLE_BIT`
pub const VK_MEMORY_PROPERTY_HOST_VISIBLE_BIT: u32 = 0x2;

/// `VK_MEMORY_PROPERTY_HOST_COHERENT_BIT`
pub const VK_MEMORY_PROPERTY_HOST_COHERENT_BIT: u32 = 0x4;

/// `VK_MEMORY_PROPERTY_HOST_CACHED_BIT`
pub const VK_MEMORY_PROPERTY_HOST_CACHED_BIT: u32 = 0x8;

/// `VK_QUEUE_GRAPHICS_BIT`
pub const VK_QUEUE_GRAPHICS_BIT: u32 = 0x1;

/// `VK_QUEUE_COMPUTE_BIT`
pub const VK_QUEUE_COMPUTE_BIT: u32 = 0x2;

/// `VK_QUEUE_TRANSFER_BIT`
pub const VK_QUEUE_TRANSFER_BIT: u32 = 0x4;

/// A memory type of a physical device (`VkMemoryType`).
#[derive(Debug, Clone, Copy, PartialEq, Eq, Structural)]
pub struct MemoryType {
    pub property_flags: u32,
    pub heap_index: u32,
}

/// A memory heap of a physical device (`VkMemoryHeap`).
#[derive(Debug, Clone, Copy, PartialEq, Eq, Structural)]
pub struct MemoryHeap {
    pub size: u64,
    pub flags: u32,
}

/// Index of the first memory type at or after `i` that has one of the
/// properties of `mask`, or the number of types when none has.
pub open spec fn first_memory_type(types: Seq<MemoryType>, mask: u32, i: int) -> int
    decreases types.len() - i,
{
    if i >= types.len() || i < 0 {
        types.len() as int
    } else if types[i].property_flags & mask != 0 {
        i
    } else {
        first_memory_type(types, mask, i + 1)
    }
}

/// Whether some memory type has one of the properties of `mask`.
pub open spec fn has_memory_type(types: Seq<MemoryType>, mask: u32) -> bool {
    exists|i: int| 0 <= i < types.len() && #[trigger] types[i].property_flags & mask != 0
}

/// `first_memory_type` finds the first type with the properties.
pub proof fn lemma_first_memory_type(types: Seq<MemoryType>, mask: u32, i: int)
    requires
        0 <= i <= types.len(),
    ensures
        i <= first_memory_type(types, mask, i) <= types.len(),
        first_memory_type(types, mask, i) < types.len() ==> types[first_memory_type(types, mask, i)].property_flags
            & mask != 0,
        forall|j: int| i <= j < first_memory_type(types, mask, i) ==> #[trigger] types[j].property_flags & mask == 0,
    decreases types.len() - i,
{
    if i < types.len() && types[i].property_flags & mask == 0 {
        lemma_first_memory_type(types, mask, i + 1);
    }
}

/// The index of the first memory type with one of the properties of `mask`,
/// `None` when there is none.
pub fn find_memory_type(memory_available: &(Vec<MemoryType>, Vec<MemoryHeap>), mask: u32) -> (r: Option<usize>)
    ensures
        r is Some <==> has_memory_type(memory_available.0@, mask),
        r matches Some(i) ==> i == first_memory_type(memory_available.0@, mask, 0),
{
    let types = &memory_available.0;
    let mut i: usize = 0;
    while i < types.len()
        invariant
            i <= types@.len(),
            types@ == memory_available.0@,
            first_memory_type(types@, mask, 0) == first_memory_type(types@, mask, i as int),
            forall|j: int| 0 <= j < i ==> #[trigger] types@[j].property_flags & mask == 0,
        decreases types@.len() - i,
    {
        if types[i].property_flags & mask != 0 {
            return Some(i);
        }
        i = i + 1;
    }
    None
}

/// The first host-visible memory type (for staging uploads); one must exist.
pub fn staging_memory(memory_available: &(Vec<MemoryType>, Vec<MemoryHeap>)) -> (r: usize)
    requires
        has_memory_type(memory_available.0@, VK_MEMORY_PROPERTY_HOST_VISIBLE_BIT),
    ensures
        r == first_memory_type(memory_available.0@, VK_MEMORY_PROPERTY_HOST_VISIBLE_BIT, 0),
        r < memory_available.0@.len(),
{
    proof {
        lemma_first_memory_type(memory_available.0@, VK_MEMORY_PROPERTY_HOST_VISIBLE_BIT, 0);
    }
    find_memory_type(memory_available, VK_MEMORY_PROPERTY_HOST_VISIBLE_BIT).unwrap()
}

/// The first device-local memory type; one must exist.
pub fn gpu_only_memory(memory_available: &(Vec<MemoryType>, Vec<MemoryHeap>)) -> (r: usize)
    requires
        has_memory_type(memory_available.0@, VK_MEMORY_PROPERTY_DEVICE_LOCAL_BIT),
    ensures
        r == first_memory_type(memory_available.0@, VK_MEMORY_PROPERTY_DEVICE_LOCAL_BIT, 0),
        r < memory_available.0@.len(),
{
    proof {
        lemma_first_memory_type(memory_available.0@, VK_MEMORY_PROPERTY_DEVICE_LOCAL_BIT, 0);
    }
    find_memory_type(memory_available, VK_MEMORY_PROPERTY_DEVICE_LOCAL_BIT).unwrap()
}

/// The properties a memory type read back by the host may have: host-visible,
/// host-cached or host-coherent.
pub open spec fn gpu_to_cpu_mask() -> u32 {
    VK_MEMORY_PROPERTY_HOST_VISIBLE_BIT | VK_MEMORY_PROPERTY_HOST_CACHED_BIT | VK_MEMORY_PROPERTY_HOST_COHERENT_BIT
}

/// The first memory type with one of the host-visible, host-cached or
/// host-coherent properties; one must exist.
pub fn gpu_to_cpu_memory(memory_available: &(Vec<MemoryType>, Vec<MemoryHeap>)) -> (r: usize)
    requires
        has_memory_type(memory_available.0@, gpu_to_cpu_mask()),
    ensures
        r == first_memory_type(memory_available.0@, gpu_to_cpu_mask(), 0),
        r < memory_available.0@.len(),
{
    let mask = VK_MEMORY_PROPERTY_HOST_VISIBLE_BIT | VK_MEMORY_PROPERTY_HOST_CACHED_BIT
        | VK_MEMORY_PROPERTY_HOST_COHERENT_BIT;
    proof {
        lemma_first_memory_type(memory_available.0@, mask, 0);
    }
    find_memory_type(memory_available, mask).unwrap()
}

/// What a physical device reports of one of its queue families: its flags,
/// and whether it can present to the window surface.
#[derive(Debug, Clone, Copy, PartialEq, Eq, Structural)]
pub struct QueueFamily {
    pub queue_flags: u32,
    pub supports_present: bool,
}

/// A family that can draw and present.
pub open spec fn is_graphics_family(f: QueueFamily) -> bool {
    f.queue_flags & VK_QUEUE_GRAPHICS_BIT != 0 && f.supports_present
}

/// A family whose flags include one of `mask`.
pub open spec fn has_queue_flag(f: QueueFamily, mask: u32) -> bool {
    f.queue_flags & mask != 0
}

/// Index of the first graphics family at or after `i`, or the number of
/// families when there is none.
pub open spec fn first_graphics_family(fams: Seq<QueueFamily>, i: int) -> int
    decreases fams.len() - i,
{
    if i >= fams.len() || i < 0 {
        fams.len() as int
    } else if is_graphics_family(fams[i]) {
        i
    } else {
        first_graphics_family(fams, i + 1)
    }
}

/// Index of the last of the first `n` families with a flag of `mask`, or -1.
pub open spec fn last_family_with(fams: Seq<QueueFamily>, mask: u32, n: int) -> int
    decreases n,
{
    if n <= 0 {
        -1
    } else if has_queue_flag(fams[n - 1], mask) {
        n - 1
    } else {
        last_family_with(fams, mask, n - 1)
    }
}

/// A device that has a graphics family, a compute family and a transfer family.
pub open spec fn device_suitable(fams: Seq<QueueFamily>) -> bool {
    &&& exists|i: int| 0 <= i < fams.len() && #[trigger] is_graphics_family(fams[i])
    &&& exists|i: int| 0 <= i < fams.len() && #[trigger] has_queue_flag(fams[i], VK_QUEUE_COMPUTE_BIT)
    &&& exists|i: int| 0 <= i < fams.len() && #[trigger] has_queue_flag(fams[i], VK_QUEUE_TRANSFER_BIT)
}

/// The view of the queue families of each device.
pub open spec fn devices_view(devices: Seq<Vec<QueueFamily>>) -> Seq<Seq<QueueFamily>> {
    devices.map_values(|d: Vec<QueueFamily>| d@)
}

/// Index of the first suitable device at or after `d`, or the number of devices.
pub open spec fn first_suitable_device(devs: Seq<Seq<QueueFamily>>, d: int) -> int
    decreases devs.len() - d,
{
    if d >= devs.len() || d < 0 {
        devs.len() as int
    } else if device_suitable(devs[d]) {
        d
    } else {
        first_suitable_device(devs, d + 1)
    }
}

/// A sequence with consecutive repeats removed.
pub open spec fn dedup_consecutive(s: Seq<u32>) -> Seq<u32>
    decreases s.len(),
{
    if s.len() <= 1 {
        s
    } else if s.last() == s[s.len() - 2] {
        dedup_consecutive(s.drop_last())
    } else {
        dedup_consecutive(s.drop_last()).push(s.last())
    }
}

/// The device and queue families chosen for a logical device.
#[derive(Debug, Clone, PartialEq, Eq)]
pub struct QueueSelection {
    /// Index of the chosen physical device.
    pub physical_device: usize,
    /// Queue families to create one queue each from: the first graphics
    /// family, the last compute family and the last transfer family, with
    /// consecutive repeats removed.
    pub queue_family_indices: Vec<u32>,
}

/// The first graphics family, the last compute family and the last transfer
/// family of a device.
fn device_queue_families(fams: &Vec<QueueFamily>) -> (r: (Option<usize>, Option<usize>, Option<usize>))
    ensures
        r.0 is Some <==> first_graphics_family(fams@, 0) < fams@.len(),
        r.0 matches Some(g) ==> g == first_graphics_family(fams@, 0),
        r.1 is Some <==> last_family_with(fams@, VK_QUEUE_COMPUTE_BIT, fams@.len() as int) >= 0,
        r.1 matches Some(c) ==> c == last_family_with(fams@, VK_QUEUE_COMPUTE_BIT, fams@.len() as int),
        r.2 is Some <==> last_family_with(fams@, VK_QUEUE_TRANSFER_BIT, fams@.len() as int) >= 0,
        r.2 matches Some(t) ==> t == last_family_with(fams@, VK_QUEUE_TRANSFER_BIT, fams@.len() as int),
{
    let mut graphics: Option<usize> = None;
    let mut compute: Option<usize> = None;
    let mut transfer: Option<usize> = None;
    let mut i: usize = 0;
    while i < fams.len()
        invariant
            i <= fams@.len(),
            graphics is None ==> first_graphics_family(fams@, 0) == first_graphics_family(fams@, i as int),
            graphics matches Some(g) ==> g == first_graphics_family(fams@, 0) && g < fams@.len(),
            compute is Some <==> last_family_with(fams@, VK_QUEUE_COMPUTE_BIT, i as int) >= 0,
            compute matches Some(c) ==> c == last_family_with(fams@, VK_QUEUE_COMPUTE_BIT, i as int),
            transfer is Some <==> last_family_with(fams@, VK_QUEUE_TRANSFER_BIT, i as int) >= 0,
            transfer matches Some(t) ==> t == last_family_with(fams@, VK_QUEUE_TRANSFER_BIT, i as int),
        decreases fams@.len() - i,
    {
        let f = fams[i];
        if graphics.is_none() && f.queue_flags & VK_QUEUE_GRAPHICS_BIT != 0 && f.supports_present {
            graphics = Some(i);
        }
        if f.queue_flags & VK_QUEUE_COMPUTE_BIT != 0 {
            compute = Some(i);
        }
        if f.queue_flags & VK_QUEUE_TRANSFER_BIT != 0 {
            transfer = Some(i);
        }
        i = i + 1;
    }
    (graphics, compute, transfer)
}

/// Search facts: the first graphics family is a graphics family and none
/// comes before it; the last family with a flag has it and none after it has.
proof fn lemma_family_search(fams: Seq<QueueFamily>, i: int, n: int, mask: u32)
    requires
        0 <= i <= fams.len(),
        0 <= n <= fams.len(),
    ensures
        i <= first_graphics_family(fams, i) <= fams.len(),
        first_graphics_family(fams, i) < fams.len() ==> is_graphics_family(fams[first_graphics_family(fams, i)]),
        forall|j: int| i <= j < first_graphics_family(fams, i) ==> !#[trigger] is_graphics_family(fams[j]),
        -1 <= last_family_with(fams, mask, n) < n,
        last_family_with(fams, mask, n) >= 0 ==> has_queue_flag(fams[last_family_with(fams, mask, n)], mask),
        forall|j: int| last_family_with(fams, mask, n) < j < n ==> !#[trigger] has_queue_flag(fams[j], mask),
    decreases fams.len() - i + n,
{
    if i < fams.len() && !is_graphics_family(fams[i]) {
        lemma_family_search(fams, i + 1, n, mask);
    } else if n > 0 && !has_queue_flag(fams[n - 1], mask) {
        lemma_family_search(fams, i, n - 1, mask);
    } else if n > 0 {
        lemma_family_search(fams, fams.len() as int, n - 1, mask);
    } else if i < fams.len() {
        lemma_family_search(fams, fams.len() as int, n, mask);
    }
}

/// A device is suitable exactly when it has a graphics family and a last
/// compute and last transfer family.
proof fn lemma_suitable_iff(fams: Seq<QueueFamily>)
    ensures
        device_suitable(fams) <==> (first_graphics_family(fams, 0) < fams.len() && last_family_with(
            fams,
            VK_QUEUE_COMPUTE_BIT,
            fams.len() as int,
        ) >= 0 && last_family_with(fams, VK_QUEUE_TRANSFER_BIT, fams.len() as int) >= 0),
{
    lemma_family_search(fams, 0, fams.len() as int, VK_QUEUE_COMPUTE_BIT);
    lemma_family_search(fams, 0, fams.len() as int, VK_QUEUE_TRANSFER_BIT);
    if first_graphics_family(fams, 0) < fams.len() {
        assert(is_graphics_family(fams[first_graphics_family(fams, 0)]));
    }
    let c = last_family_with(fams, VK_QUEUE_COMPUTE_BIT, fams.len() as int);
    let t = last_family_with(fams, VK_QUEUE_TRANSFER_BIT, fams.len() as int);
    if c >= 0 {
        assert(has_queue_flag(fams[c], VK_QUEUE_COMPUTE_BIT));
    }
    if t >= 0 {
        assert(has_queue_flag(fams[t], VK_QUEUE_TRANSFER_BIT));
    }
}

/// Whether some device is suitable.
pub open spec fn some_device_suitable(devs: Seq<Seq<QueueFamily>>) -> bool {
    exists|d: int| 0 <= d < devs.len() && #[trigger] device_suitable(devs[d])
}

/// The queue families chosen on a suitable device.
pub open spec fn chosen_families(fams: Seq<QueueFamily>) -> Seq<u32> {
    dedup_consecutive(
        seq![
            first_graphics_family(fams, 0) as u32,
            last_family_with(fams, VK_QUEUE_COMPUTE_BIT, fams.len() as int) as u32,
            last_family_with(fams, VK_QUEUE_TRANSFER_BIT, fams.len() as int) as u32,
        ],
    )
}

/// Chooses the first physical device that has a family that can draw and
/// present, a compute family and a transfer family, and the families to create
/// queues from on it (given, per device, what each queue family reports).
pub fn choose_device_queues(devices: &Vec<Vec<QueueFamily>>) -> (r: QueueSelection)
    requires
        some_device_suitable(devices_view(devices@)),
        forall|d: int| 0 <= d < devices@.len() ==> #[trigger] devices@[d]@.len() <= u32::MAX,
    ensures
        r.physical_device == first_suitable_device(devices_view(devices@), 0),
        r.physical_device < devices@.len(),
        device_suitable(devices@[r.physical_device as int]@),
        r.queue_family_indices@ == chosen_families(devices@[r.physical_device as int]@),
{
    let ghost devs = devices_view(devices@);
    let mut d: usize = 0;
    while d < devices.len()
        invariant
            d <= devices@.len(),
            devs == devices_view(devices@),
            first_suitable_device(devs, 0) == first_suitable_device(devs, d as int),
            forall|k: int| 0 <= k < d ==> !#[trigger] device_suitable(devs[k]),
            some_device_suitable(devs),
            forall|k: int| 0 <= k < devices@.len() ==> #[trigger] devices@[k]@.len() <= u32::MAX,
        decreases devices@.len() - d,
    {
        let fams = &devices[d];
        let (g, c, t) = device_queue_families(fams);
        proof {
            assert(devs[d as int] == fams@);
            lemma_suitable_iff(fams@);
            lemma_family_search(fams@, 0, fams@.len() as int, VK_QUEUE_COMPUTE_BIT);
            lemma_family_search(fams@, 0, fams@.len() as int, VK_QUEUE_TRANSFER_BIT);
        }
        match (g, c, t) {
            (Some(g), Some(c), Some(t)) => {
                let g32 = g as u32;
                let c32 = c as u32;
                let t32 = t as u32;
                let mut indices: Vec<u32> = Vec::new();
                indices.push(g32);
                if c32 != g32 {
                    indices.push(c32);
                }
                if t32 != c32 {
                    indices.push(t32);
                }
                proof {
                    let s = seq![g32, c32, t32];
                    assert(s.drop_last() =~= seq![g32, c32]);
                    assert(seq![g32, c32].drop_last() =~= seq![g32]);
                    assert(dedup_consecutive(seq![g32]) == seq![g32]);
                    let two = seq![g32, c32];
                    assert(two.last() == c32 && two[0] == g32);
                    assert(s.last() == t32 && s[1] == c32);
                    if c32 == g32 {
                        assert(dedup_consecutive(two) == seq![g32]);
                    } else {
                        assert(dedup_consecutive(two) =~= seq![g32, c32]);
                    }
                    assert(indices@ =~= dedup_consecutive(s));
                }
                return QueueSelection { physical_device: d, queue_family_indices: indices };
            },
            _ => {},
        }
        d = d + 1;
    }
    proof {
        let w = choose|k: int| 0 <= k < devs.len() && #[trigger] device_suitable(devs[k]);
        assert(device_suitable(devs[w]));
    }
    QueueSelection { physical_device: 0, queue_family_indices: Vec::new() }
}

/// Whether `name` is among `names`.
pub open spec fn name_listed(names: Seq<Seq<char>>, name: Seq<char>) -> bool {
    exists|i: int| 0 <= i < names.len() && names[i] == name
}

/// The requested names that are not available, in the order requested.
pub open spec fn unavailable(requested: Seq<Seq<char>>, available: Seq<Seq<char>>) -> Seq<Seq<char>>
    decreases requested.len(),
{
    if requested.len() == 0 {
        Seq::empty()
    } else {
        let rest = unavailable(requested.drop_last(), available);
        if name_listed(available, requested.last()) {
            rest
        } else {
            rest.push(requested.last())
        }
    }
}

/// Whether `name` equals one of `available`.
fn is_listed(available: &Vec<String>, name: &String) -> (r: bool)
    ensures
        r == name_listed(strings_view(available@), name@),
{
    let mut i: usize = 0;
    while i < available.len()
        invariant
            i <= available@.len(),
            forall|j: int| 0 <= j < i ==> strings_view(available@)[j] != name@,
        decreases available@.len() - i,
    {
        if available[i] == *name {
            assert(strings_view(available@)[i as int] == name@);
            return true;
        }
        i = i + 1;
    }
    false
}

/// The requested layers or extensions that the instance does not offer, in
/// the order requested (the instance warns about each).
pub fn unavailable_names(requested: &Vec<String>, available: &Vec<String>) -> (r: Vec<String>)
    ensures
        strings_view(r@) == unavailable(strings_view(requested@), strings_view(available@)),
{
    let mut r: Vec<String> = Vec::new();
    let mut i: usize = 0;
    while i < requested.len()
        invariant
            i <= requested@.len(),
            strings_view(r@) == unavailable(strings_view(requested@).take(i as int), strings_view(available@)),
        decreases requested@.len() - i,
    {
        let listed = is_listed(available, &requested[i]);
        let ghost before = r@;
        proof {
            assert(strings_view(requested@).take(i + 1).drop_last() =~= strings_view(requested@).take(i as int));
        }
        if !listed {
            r.push(requested[i].clone());
            assert(strings_view(r@) =~= strings_view(before).push(requested@[i as int]@));
        }
        i = i + 1;
    }
    assert(strings_view(requested@).take(requested@.len() as int) =~= strings_view(requested@));
    r
}

/// The layers and extensions an instance is created with, and the application
/// name it reports.
#[derive(Debug, Clone, PartialEq, Eq)]
pub struct LayerSettings {
    pub layers: Vec<String>,
    pub extensions: Vec<String>,
    pub application_name: String,
}

/// The validation layer, asked for in debug builds.
pub open spec fn validation_layers(debug_assertions: bool) -> Seq<Seq<char>> {
    if debug_assertions {
        seq!["VK_LAYER_LUNARG_standard_validation"@]
    } else {
        Seq::empty()
    }
}

/// The instance extensions asked for by default: debug reports in debug
/// builds, surfaces, the window system's surface and displays.
pub open spec fn default_instance_extensions(debug_assertions: bool, windows: bool, unix: bool) -> Seq<Seq<char>> {
    (if debug_assertions { seq!["VK_EXT_debug_report"@] } else { Seq::empty() }) + seq!["VK_KHR_surface"@] + (
    if windows {
        seq!["VK_KHR_win32_surface"@]
    } else {
        Seq::empty()
    }) + (if unix { seq!["VK_KHR_xcb_surface"@] } else { Seq::empty() }) + seq!["VK_KHR_display"@]
}

/// Appends a name to a list of names.
fn push_name(names: &mut Vec<String>, name: &str)
    ensures
        strings_view(final(names)@) == strings_view(old(names)@).push(name@),
{
    let ghost before = strings_view(names@);
    names.push(name.to_string());
    assert(strings_view(names@) =~= before.push(name@));
}

/// What an instance is created with by default, for a debug or release build
/// on Windows or a Unix.
pub fn default_instance_settings(debug_assertions: bool, windows: bool, unix: bool) -> (r: LayerSettings)
    ensures
        strings_view(r.layers@) == validation_layers(debug_assertions),
        strings_view(r.extensions@) == default_instance_extensions(debug_assertions, windows, unix),
        r.application_name@ == "rust vulkan application"@,
{
    let mut layers: Vec<String> = Vec::new();
    if debug_assertions {
        push_name(&mut layers, "VK_LAYER_LUNARG_standard_validation");
    }
    let mut extensions: Vec<String> = Vec::new();
    if debug_assertions {
        push_name(&mut extensions, "VK_EXT_debug_report");
    }
    push_name(&mut extensions, "VK_KHR_surface");
    if windows {
        push_name(&mut extensions, "VK_KHR_win32_surface");
    }
    if unix {
        push_name(&mut extensions, "VK_KHR_xcb_surface");
    }
    push_name(&mut extensions, "VK_KHR_display");
    assert(strings_view(layers@) =~= validation_layers(debug_assertions));
    assert(strings_view(extensions@) =~= default_instance_extensions(debug_assertions, windows, unix));
    LayerSettings { layers, extensions, application_name: "rust vulkan application".to_string() }
}

/// The layers and the extensions a logical device is created with by default:
/// the validation layer in debug builds, and the swapchain extension.
pub fn default_device_settings(debug_assertions: bool) -> (r: (Vec<String>, Vec<String>))
    ensures
        strings_view(r.0@) == validation_layers(debug_assertions),
        strings_view(r.1@) == seq!["VK_KHR_swapchain"@],
{
    let mut layers: Vec<String> = Vec::new();
    if debug_assertions {
        push_name(&mut layers, "VK_LAYER_LUNARG_standard_validation");
    }
    let mut extensions: Vec<String> = Vec::new();
    push_name(&mut extensions, "VK_KHR_swapchain");
    assert(strings_view(layers@) =~= validation_layers(debug_assertions));
    assert(strings_view(extensions@) =~= seq!["VK_KHR_swapchain"@]);
    (layers, extensions)
}

} // verus!
