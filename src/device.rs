use vstd::prelude::*;

verus! {

/// What one queue family of a physical device offers.
#[derive(Clone, Copy, Debug, PartialEq, Eq, Structural)]
pub struct QueueFamily {
    /// The family's queue flags include graphics.
    pub graphics: bool,
    /// The family can present to the window's surface.
    pub present: bool,
}

/// The queue families that the renderer submits and presents on.
#[derive(Clone, Copy, Debug, PartialEq, Eq, Structural)]
pub struct QueueFamilyIndices {
    pub graphics: u32,
    pub present: u32,
}

/// Why a physical device cannot run the renderer.
#[derive(Clone, Copy, Debug, PartialEq, Eq, Structural)]
pub enum SuitabilityError {
    MissingQueueFamilies,
    MissingExtensions,
    InsufficientSwapchainSupport,
    NoSamplerAnisotropy,
}

/// No physical device passed every check.
#[derive(Clone, Copy, Debug, PartialEq, Eq, Structural)]
pub struct NoSuitableDeviceError;

/// What the renderer reads of a physical device before choosing it.
pub struct PhysicalDeviceInfo {
    pub queue_families: Vec<QueueFamily>,
    /// Names of the device extensions it supports.
    pub extensions: Vec<String>,
    /// How many surface formats it offers for the window's surface.
    pub surface_format_count: usize,
    /// How many present modes it offers for the window's surface.
    pub present_mode_count: usize,
    pub sampler_anisotropy: bool,
    /// Sample counts supported for color attachments, one bit per count.
    pub color_sample_counts: u32,
    /// Sample counts supported for depth attachments, one bit per count.
    pub depth_sample_counts: u32,
}

/// Index of the first family with the property, if any.
pub open spec fn first_family(families: Seq<QueueFamily>, graphics: bool) -> Option<int> {
    if exists|i: int|
        0 <= i < families.len() && (if graphics {
            families[i].graphics
        } else {
            families[i].present
        }) {
        Some(
            choose|i: int|
                0 <= i < families.len() && (if graphics {
                    families[i].graphics
                } else {
                    families[i].present
                }) && forall|j: int|
                    0 <= j < i ==> !(if graphics {
                        families[j].graphics
                    } else {
                        families[j].present
                    }),
        )
    } else {
        None
    }
}

/// The first family with the property: graphics when `graphics`, else presentation.
fn find_family(families: &Vec<QueueFamily>, graphics: bool) -> (r: Option<u32>)
    requires
        families@.len() <= u32::MAX,
    ensures
        match r {
            Some(i) => {
                &&& (i as int) < families@.len()
                &&& if graphics {
                    families@[i as int].graphics
                } else {
                    families@[i as int].present
                }
                &&& forall|j: int|
                    0 <= j < i ==> !(if graphics {
                        families@[j].graphics
                    } else {
                        families@[j].present
                    })
            },
            None => forall|j: int|
                0 <= j < families@.len() ==> !(if graphics {
                    families@[j].graphics
                } else {
                    families@[j].present
                }),
        },
{
    let mut i: usize = 0;
    while i < families.len()
        invariant
            i <= families@.len() <= u32::MAX,
            forall|j: int|
                0 <= j < i ==> !(if graphics {
                    families@[j].graphics
                } else {
                    families@[j].present
                }),
        decreases families@.len() - i,
    {
        let family = families[i];
        if (graphics && family.graphics) || (!graphics && family.present) {
            return Some(i as u32);
        }
        i = i + 1;
    }
    None
}

proof fn lemma_first_family(families: Seq<QueueFamily>, graphics: bool, i: int)
    requires
        0 <= i < families.len(),
        if graphics {
            families[i].graphics
        } else {
            families[i].present
        },
        forall|j: int|
            0 <= j < i ==> !(if graphics {
                families[j].graphics
            } else {
                families[j].present
            }),
    ensures
        first_family(families, graphics) == Some(i),
{
    let k = first_family(families, graphics)->0;
    if k < i {
        assert(!(if graphics {
            families[k].graphics
        } else {
            families[k].present
        }));
    } else if k > i {
        assert(!(if graphics {
            families[i].graphics
        } else {
            families[i].present
        }));
    }
}

impl QueueFamilyIndices {
    /// The first graphics-capable family and the first family that can
    /// present; they may coincide.
    pub fn get(families: &Vec<QueueFamily>) -> (r: Result<Self, SuitabilityError>)
        requires
            families@.len() <= u32::MAX,
        ensures
            match r {
                Ok(indices) => first_family(families@, true) == Some(indices.graphics as int)
                    && first_family(families@, false) == Some(indices.present as int),
                Err(e) => e == SuitabilityError::MissingQueueFamilies && (first_family(
                    families@,
                    true,
                ) is None || first_family(families@, false) is None),
            },
    {
        let graphics = find_family(families, true);
        let present = find_family(families, false);
        proof {
            if let Some(g) = graphics {
                lemma_first_family(families@, true, g as int);
            }
            if let Some(p) = present {
                lemma_first_family(families@, false, p as int);
            }
        }
        match (graphics, present) {
            (Some(graphics), Some(present)) => Ok(QueueFamilyIndices { graphics, present }),
            _ => Err(SuitabilityError::MissingQueueFamilies),
        }
    }

    /// The distinct families to create queues on: one when graphics and
    /// presentation share a family, else both.
    pub fn unique(&self) -> (r: Vec<u32>)
        ensures
            r@ == if self.graphics == self.present {
                seq![self.graphics]
            } else {
                seq![self.graphics, self.present]
            },
    {
        let mut r: Vec<u32> = Vec::new();
        r.push(self.graphics);
        if self.present != self.graphics {
            r.push(self.present);
        }
        assert(r@ =~= if self.graphics == self.present {
            seq![self.graphics]
        } else {
            seq![self.graphics, self.present]
        });
        r
    }
}

/// Name of the swapchain device extension.
pub open spec fn swapchain_extension() -> Seq<char> {
    seq!['V', 'K', '_', 'K', 'H', 'R', '_', 's', 'w', 'a', 'p', 'c', 'h', 'a', 'i', 'n']
}

/// The device extensions that the renderer needs.
pub open spec fn required_extensions() -> Seq<Seq<char>> {
    seq![swapchain_extension()]
}

/// The names of the device extensions that the renderer needs.
pub fn device_extensions() -> (r: Vec<String>)
    ensures
        r@.len() == required_extensions().len(),
        forall|i: int| 0 <= i < r@.len() ==> (#[trigger] r@[i])@ == required_extensions()[i],
{
    let name = String::from_str("VK_KHR_swapchain");
    proof {
        reveal_strlit("VK_KHR_swapchain");
        assert(name@ =~= swapchain_extension());
    }
    let mut r: Vec<String> = Vec::new();
    r.push(name);
    r
}

/// `names` holds `name`.
pub open spec fn has_name(names: Seq<String>, name: Seq<char>) -> bool {
    exists|j: int| 0 <= j < names.len() && (#[trigger] names[j])@ == name
}

/// `names` holds every required extension.
pub open spec fn has_extensions(names: Seq<String>) -> bool {
    forall|i: int|
        0 <= i < required_extensions().len() ==> #[trigger] has_name(names, required_extensions()[i])
}

fn contains_name(names: &Vec<String>, name: &String) -> (r: bool)
    ensures
        r == has_name(names@, name@),
{
    let mut i: usize = 0;
    while i < names.len()
        invariant
            i <= names@.len(),
            forall|j: int| 0 <= j < i ==> (#[trigger] names@[j])@ != name@,
        decreases names@.len() - i,
    {
        if names[i] == *name {
            return true;
        }
        i = i + 1;
    }
    false
}

/// Whether every required device extension is among `names`.
pub fn check_extensions(names: &Vec<String>) -> (r: bool)
    ensures
        r == has_extensions(names@),
{
    let required = device_extensions();
    let mut i: usize = 0;
    while i < required.len()
        invariant
            i <= required@.len(),
            required@.len() == required_extensions().len(),
            forall|k: int| 0 <= k < required@.len() ==> (#[trigger] required@[k])@ == required_extensions()[k],
            forall|k: int| 0 <= k < i ==> #[trigger] has_name(names@, required_extensions()[k]),
        decreases required@.len() - i,
    {
        if !contains_name(names, &required[i]) {
            assert(required@[i as int]@ == required_extensions()[i as int]);
            return false;
        }
        i = i + 1;
    }
    true
}

/// Which check a physical device fails first, in the order queue families,
/// extensions, swapchain support, sampler anisotropy; `None` if it passes all.
#[verifier::opaque]
pub open spec fn device_flaw(d: PhysicalDeviceInfo) -> Option<SuitabilityError> {
    if first_family(d.queue_families@, true) is None || first_family(d.queue_families@, false) is None {
        Some(SuitabilityError::MissingQueueFamilies)
    } else if !has_extensions(d.extensions@) {
        Some(SuitabilityError::MissingExtensions)
    } else if d.surface_format_count == 0 || d.present_mode_count == 0 {
        Some(SuitabilityError::InsufficientSwapchainSupport)
    } else if !d.sampler_anisotropy {
        Some(SuitabilityError::NoSamplerAnisotropy)
    } else {
        None
    }
}

/// Checks that a physical device has graphics and present queue families, the
/// required extensions, some surface format and present mode, and sampler
/// anisotropy.
pub fn check_physical_device(device: &PhysicalDeviceInfo) -> (r: Result<(), SuitabilityError>)
    requires
        device.queue_families@.len() <= u32::MAX,
    ensures
        match r {
            Ok(()) => device_flaw(*device) is None,
            Err(e) => device_flaw(*device) == Some(e),
        },
{
    reveal(device_flaw);
    QueueFamilyIndices::get(&device.queue_families)?;
    if !check_extensions(&device.extensions) {
        return Err(SuitabilityError::MissingExtensions);
    }
    if device.surface_format_count == 0 || device.present_mode_count == 0 {
        return Err(SuitabilityError::InsufficientSwapchainSupport);
    }
    if !device.sampler_anisotropy {
        return Err(SuitabilityError::NoSamplerAnisotropy);
    }
    Ok(())
}

/// The highest sample count of 64, 32, 16, 8, 4 and 2 whose bit is set in
/// `counts`, else 1.
pub open spec fn max_sample_count(counts: u32) -> u32 {
    if counts & 64 == 64 {
        64
    } else if counts & 32 == 32 {
        32
    } else if counts & 16 == 16 {
        16
    } else if counts & 8 == 8 {
        8
    } else if counts & 4 == 4 {
        4
    } else if counts & 2 == 2 {
        2
    } else {
        1
    }
}

/// The largest multisample count that both color and depth attachments support.
pub fn get_max_msaa_samples(color_counts: u32, depth_counts: u32) -> (r: u32)
    ensures
        r == max_sample_count(color_counts & depth_counts),
{
    let counts = color_counts & depth_counts;
    if counts & 64 == 64 {
        64
    } else if counts & 32 == 32 {
        32
    } else if counts & 16 == 16 {
        16
    } else if counts & 8 == 8 {
        8
    } else if counts & 4 == 4 {
        4
    } else if counts & 2 == 2 {
        2
    } else {
        1
    }
}

/// Index of the first device with no flaw, if any.
pub open spec fn first_suitable(devices: Seq<PhysicalDeviceInfo>) -> Option<int> {
    if exists|i: int| 0 <= i < devices.len() && device_flaw(#[trigger] devices[i]) is None {
        Some(
            choose|i: int|
                0 <= i < devices.len() && device_flaw(#[trigger] devices[i]) is None && forall|
                    j: int,
                | 0 <= j < i ==> !(device_flaw(#[trigger] devices[j]) is None),
        )
    } else {
        None
    }
}

/// Picks the first device that passes every check, with the largest
/// multisample count that it supports.
pub fn pick_physical_device(devices: &Vec<PhysicalDeviceInfo>) -> (r: Result<
    (usize, u32),
    NoSuitableDeviceError,
>)
    requires
        forall|i: int|
            0 <= i < devices@.len() ==> (#[trigger] devices@[i]).queue_families@.len() <= u32::MAX,
    ensures
        match r {
            Ok((index, samples)) => {
                &&& first_suitable(devices@) == Some(index as int)
                &&& samples == max_sample_count(
                    devices@[index as int].color_sample_counts
                        & devices@[index as int].depth_sample_counts,
                )
            },
            Err(_) => first_suitable(devices@) is None,
        },
{
    let mut i: usize = 0;
    while i < devices.len()
        invariant
            i <= devices@.len(),
            forall|k: int|
                0 <= k < devices@.len() ==> (#[trigger] devices@[k]).queue_families@.len() <= u32::MAX,
            forall|j: int| 0 <= j < i ==> !(device_flaw(#[trigger] devices@[j]) is None),
        decreases devices@.len() - i,
    {
        let device = &devices[i];
        if check_physical_device(device).is_ok() {
            let samples = get_max_msaa_samples(device.color_sample_counts, device.depth_sample_counts);
            proof {
                let k = first_suitable(devices@)->0;
                assert(device_flaw(devices@[i as int]) is None);
                if k < i {
                    assert(!(device_flaw(devices@[k]) is None));
                } else if k > i {
                    assert(!(device_flaw(devices@[i as int]) is None));
                }
            }
            return Ok((i, samples));
        }
        i = i + 1;
    }
    Err(NoSuitableDeviceError)
}

} // verus!
