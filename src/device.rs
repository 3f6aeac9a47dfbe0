use vstd::prelude::*;

use crate::bits::{contains, flags_contain};
use crate::error::RenderError;

verus! {

/// Queue flag: the family supports graphics operations.
pub const QUEUE_GRAPHICS: u32 = 0x1;

/// What a physical device lacks.
#[derive(Clone, Copy, Debug, PartialEq, Eq, Structural)]
pub enum Shortfall {
    /// No graphics queue family, or none that can present to the surface.
    QueueFamilies,
    /// A required device extension is not offered.
    DeviceExtensions,
    /// The surface offers no format or no present mode on this device.
    SwapchainSupport,
    /// Anisotropic sampling is not supported.
    SamplerAnisotropy,
}

/// Why a physical device was passed over.
#[derive(Clone, Copy, Debug, PartialEq, Eq, Structural)]
pub struct SuitabilityError(pub Shortfall);

/// The queue families the engine uses: one for graphics, one for presentation.
#[derive(Clone, Copy, Debug, PartialEq, Eq, Structural)]
pub struct QueueFamilyIndices {
    pub graphics: u32,
    pub present: u32,
}

/// What the engine needs to know of a physical device to judge it.
pub struct DeviceReport {
    /// The queue flags of each queue family, in family order.
    pub queue_flags: Vec<u32>,
    /// Whether each queue family can present to the surface, in family order.
    pub present_support: Vec<bool>,
    /// The names of the device extensions offered.
    pub extensions: Vec<Vec<u8>>,
    /// The number of surface formats offered on this device.
    pub format_count: usize,
    /// The number of present modes offered on this device.
    pub present_mode_count: usize,
    /// Whether anisotropic sampling is supported.
    pub sampler_anisotropy: bool,
}

pub open spec fn is_graphics_family(flags: Seq<u32>, i: int) -> bool {
    0 <= i < flags.len() && flags_contain(flags[i], QUEUE_GRAPHICS)
}

pub open spec fn has_graphics_family(flags: Seq<u32>) -> bool {
    exists|i: int| is_graphics_family(flags, i)
}

pub open spec fn has_present_family(support: Seq<bool>) -> bool {
    exists|i: int| 0 <= i < support.len() && support[i]
}

/// The index of the first graphics queue family, where one exists.
pub open spec fn first_graphics(flags: Seq<u32>) -> int {
    choose|i: int| is_graphics_family(flags, i) && forall|j: int| 0 <= j < i ==> !is_graphics_family(flags, j)
}

/// The index of the first queue family that can present, where one exists.
pub open spec fn first_present(support: Seq<bool>) -> int {
    choose|i: int| 0 <= i < support.len() && support[i] && forall|j: int| 0 <= j < i ==> !support[j]
}

/// Whether every required extension name is among those offered.
pub open spec fn extensions_offered(required: Seq<Seq<u8>>, offered: Seq<Seq<u8>>) -> bool {
    forall|r: int| 0 <= r < required.len() ==> name_offered(#[trigger] required[r], offered)
}

/// Whether `name` is among the names `offered`.
pub open spec fn name_offered(name: Seq<u8>, offered: Seq<Seq<u8>>) -> bool {
    exists|o: int| 0 <= o < offered.len() && (#[trigger] offered[o]) == name
}

pub open spec fn names(v: Seq<Vec<u8>>) -> Seq<Seq<u8>> {
    Seq::new(v.len(), |i: int| v[i]@)
}

/// The first thing a device lacks, checked in order: queue families,
/// extensions, swapchain support, anisotropic sampling.
pub open spec fn device_shortfall(
    queue_flags: Seq<u32>,
    present_support: Seq<bool>,
    offered: Seq<Seq<u8>>,
    format_count: usize,
    present_mode_count: usize,
    sampler_anisotropy: bool,
    required: Seq<Seq<u8>>,
) -> Option<Shortfall> {
    if !has_graphics_family(queue_flags) || !has_present_family(present_support) {
        Some(Shortfall::QueueFamilies)
    } else if !extensions_offered(required, offered) {
        Some(Shortfall::DeviceExtensions)
    } else if format_count == 0 || present_mode_count == 0 {
        Some(Shortfall::SwapchainSupport)
    } else if !sampler_anisotropy {
        Some(Shortfall::SamplerAnisotropy)
    } else {
        None
    }
}

pub open spec fn report_shortfall(report: &DeviceReport, required: Seq<Seq<u8>>) -> Option<Shortfall> {
    device_shortfall(
        report.queue_flags@,
        report.present_support@,
        names(report.extensions@),
        report.format_count,
        report.present_mode_count,
        report.sampler_anisotropy,
        required,
    )
}

fn find_graphics_family(queue_flags: &Vec<u32>) -> (r: Option<u32>)
    requires
        queue_flags@.len() <= u32::MAX,
    ensures
        match r {
            Some(g) => has_graphics_family(queue_flags@) && g as int == first_graphics(queue_flags@),
            None => !has_graphics_family(queue_flags@),
        },
{
    let mut i: usize = 0;
    while i < queue_flags.len()
        invariant
            i <= queue_flags@.len() <= u32::MAX,
            forall|j: int| 0 <= j < i ==> !is_graphics_family(queue_flags@, j),
        decreases queue_flags.len() - i,
    {
        if contains(queue_flags[i], QUEUE_GRAPHICS) {
            proof {
                assert(is_graphics_family(queue_flags@, i as int));
                let k = first_graphics(queue_flags@);
                assert(is_graphics_family(queue_flags@, k) && forall|j: int| 0 <= j < k ==> !is_graphics_family(queue_flags@, j));
                assert(k == i) by {
                    if k > i {
                        assert(!is_graphics_family(queue_flags@, i as int));
                    }
                }
            }
            return Some(i as u32);
        }
        i = i + 1;
    }
    None
}

fn find_present_family(present_support: &Vec<bool>) -> (r: Option<u32>)
    requires
        present_support@.len() <= u32::MAX,
    ensures
        match r {
            Some(p) => has_present_family(present_support@) && p as int == first_present(present_support@),
            None => !has_present_family(present_support@),
        },
{
    let mut p: usize = 0;
    while p < present_support.len()
        invariant
            p <= present_support@.len() <= u32::MAX,
            forall|j: int| 0 <= j < p ==> !present_support@[j],
        decreases present_support.len() - p,
    {
        if present_support[p] {
            proof {
                let k = first_present(present_support@);
                assert(0 <= k < present_support@.len() && present_support@[k]
                    && forall|j: int| 0 <= j < k ==> !present_support@[j]);
                assert(k == p) by {
                    if k > p {
                        assert(!present_support@[p as int]);
                    }
                }
            }
            return Some(p as u32);
        }
        p = p + 1;
    }
    None
}

impl QueueFamilyIndices {
    /// Finds the first queue family with graphics support and the first that
    /// can present to the surface; a device lacking either is unsuitable.
    pub fn get(queue_flags: &Vec<u32>, present_support: &Vec<bool>) -> (r: Result<QueueFamilyIndices, SuitabilityError>)
        requires
            queue_flags@.len() <= u32::MAX,
            present_support@.len() <= u32::MAX,
        ensures
            match r {
                Ok(q) => {
                    &&& has_graphics_family(queue_flags@) && has_present_family(present_support@)
                    &&& q.graphics as int == first_graphics(queue_flags@)
                    &&& q.present as int == first_present(present_support@)
                },
                Err(e) => {
                    &&& e == SuitabilityError(Shortfall::QueueFamilies)
                    &&& !has_graphics_family(queue_flags@) || !has_present_family(present_support@)
                },
            },
    {
        let graphics = find_graphics_family(queue_flags);
        let present = find_present_family(present_support);
        match (graphics, present) {
            (Some(g), Some(q)) => Ok(QueueFamilyIndices { graphics: g, present: q }),
            _ => Err(SuitabilityError(Shortfall::QueueFamilies)),
        }
    }

    /// Whether swapchain images must be shared between two queue families,
    /// which is so when graphics and presentation use different families.
    pub fn needs_concurrent_sharing(&self) -> (r: bool)
        ensures
            r == (self.graphics != self.present),
    {
        self.graphics != self.present
    }

    /// The distinct queue families to create queues on: one when graphics
    /// and presentation share a family, else both, graphics first.
    pub fn unique(&self) -> (r: Vec<u32>)
        ensures
            r@ == if self.graphics == self.present { seq![self.graphics] } else { seq![self.graphics, self.present] },
    {
        let mut r: Vec<u32> = Vec::new();
        r.push(self.graphics);
        if self.present != self.graphics {
            r.push(self.present);
        }
        assert(r@ =~= if self.graphics == self.present { seq![self.graphics] } else { seq![self.graphics, self.present] });
        r
    }
}

fn same_name(a: &Vec<u8>, b: &Vec<u8>) -> (r: bool)
    ensures
        r == (a@ == b@),
{
    if a.len() != b.len() {
        return false;
    }
    let mut i: usize = 0;
    while i < a.len()
        invariant
            a@.len() == b@.len(),
            i <= a@.len(),
            forall|j: int| 0 <= j < i ==> a@[j] == b@[j],
        decreases a.len() - i,
    {
        if a[i] != b[i] {
            return false;
        }
        i = i + 1;
    }
    assert(a@ =~= b@);
    true
}

fn is_offered(name: &Vec<u8>, offered: &Vec<Vec<u8>>) -> (r: bool)
    ensures
        r == name_offered(name@, names(offered@)),
{
    let mut i: usize = 0;
    while i < offered.len()
        invariant
            i <= offered@.len(),
            forall|j: int| 0 <= j < i ==> names(offered@)[j] != name@,
        decreases offered.len() - i,
    {
        if same_name(&offered[i], name) {
            assert(names(offered@)[i as int] == name@);
            return true;
        }
        i = i + 1;
    }
    false
}

/// Checks that every extension named in `required` is among `offered`.
pub fn check_physical_device_extensions(required: &Vec<Vec<u8>>, offered_names: &Vec<Vec<u8>>) -> (r: Result<(), SuitabilityError>)
    ensures
        r is Ok <==> extensions_offered(names(required@), names(offered_names@)),
        r matches Err(e) ==> e == SuitabilityError(Shortfall::DeviceExtensions),
{
    let mut i: usize = 0;
    while i < required.len()
        invariant
            i <= required@.len(),
            forall|k: int| 0 <= k < i ==> name_offered(#[trigger] names(required@)[k], names(offered_names@)),
        decreases required.len() - i,
    {
        if !is_offered(&required[i], offered_names) {
            assert(names(required@)[i as int] == required@[i as int]@);
            assert(!name_offered(names(required@)[i as int], names(offered_names@)));
            return Err(SuitabilityError(Shortfall::DeviceExtensions));
        }
        i = i + 1;
    }
    Ok(())
}

/// Judges a device against the engine's needs; the error names the first
/// thing it lacks.
pub fn check_physical_device(report: &DeviceReport, required: &Vec<Vec<u8>>) -> (r: Result<QueueFamilyIndices, SuitabilityError>)
    requires
        report.queue_flags@.len() <= u32::MAX,
        report.present_support@.len() <= u32::MAX,
    ensures
        match r {
            Ok(q) => {
                &&& report_shortfall(report, names(required@)) is None
                &&& q.graphics as int == first_graphics(report.queue_flags@)
                &&& q.present as int == first_present(report.present_support@)
            },
            Err(e) => report_shortfall(report, names(required@)) == Some(e.0),
        },
{
    let indices = match QueueFamilyIndices::get(&report.queue_flags, &report.present_support) {
        Ok(q) => q,
        Err(e) => return Err(e),
    };
    match check_physical_device_extensions(required, &report.extensions) {
        Ok(()) => {},
        Err(e) => return Err(e),
    }
    if report.format_count == 0 || report.present_mode_count == 0 {
        return Err(SuitabilityError(Shortfall::SwapchainSupport));
    }
    if !report.sampler_anisotropy {
        return Err(SuitabilityError(Shortfall::SamplerAnisotropy));
    }
    Ok(indices)
}

/// Selects the first suitable device among `reports`; fails when none is.
pub fn pick_physical_device(reports: &Vec<DeviceReport>, required: &Vec<Vec<u8>>) -> (r: Result<(usize, QueueFamilyIndices), RenderError>)
    requires
        forall|i: int| 0 <= i < reports@.len() ==> (#[trigger] reports@[i]).queue_flags@.len() <= u32::MAX
            && reports@[i].present_support@.len() <= u32::MAX,
    ensures
        match r {
            Ok((i, q)) => {
                &&& i < reports@.len()
                &&& report_shortfall(&reports@[i as int], names(required@)) is None
                &&& forall|j: int| 0 <= j < i ==> report_shortfall(#[trigger] &reports@[j], names(required@)) is Some
                &&& q.graphics as int == first_graphics(reports@[i as int].queue_flags@)
                &&& q.present as int == first_present(reports@[i as int].present_support@)
            },
            Err(e) => {
                &&& e == RenderError::DeviceSelectionFailure
                &&& forall|j: int| 0 <= j < reports@.len() ==> report_shortfall(#[trigger] &reports@[j], names(required@)) is Some
            },
        },
{
    let mut i: usize = 0;
    while i < reports.len()
        invariant
            i <= reports@.len(),
            forall|k: int| 0 <= k < reports@.len() ==> (#[trigger] reports@[k]).queue_flags@.len() <= u32::MAX
                && reports@[k].present_support@.len() <= u32::MAX,
            forall|j: int| 0 <= j < i ==> report_shortfall(#[trigger] &reports@[j], names(required@)) is Some,
        decreases reports.len() - i,
    {
        match check_physical_device(&reports[i], required) {
            Ok(q) => return Ok((i, q)),
            Err(_) => {},
        }
        i = i + 1;
    }
    Err(RenderError::DeviceSelectionFailure)
}

} // verus!
