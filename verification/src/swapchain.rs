use vstd::prelude::*;

verus! {

/// A width/height pair, as the driver reports surface extents.
#[derive(Clone, Copy, Debug, PartialEq, Eq, Structural)]
pub struct Extent2d {
    pub width: u32,
    pub height: u32,
}

/// The surface capabilities of one (device, surface) pair: image-count
/// bounds and extent bounds. A reported maximum image count of zero
/// means "no maximum", as the driver spells it.
#[derive(Clone, Copy, Debug, PartialEq, Eq, Structural)]
pub struct SurfaceCapabilities {
    pub min_image_count: u32,
    pub max_image_count: u32,
    pub current_extent: Extent2d,
    pub min_image_extent: Extent2d,
    pub max_image_extent: Extent2d,
}

/// One supported surface format: the driver's raw pixel-format and
/// color-space enumeration values.
#[derive(Clone, Copy, Debug, PartialEq, Eq, Structural)]
pub struct SurfaceFormat {
    pub format: i32,
    pub color_space: i32,
}

/// Raw enumeration value of the preferred pixel format (8-bit BGRA,
/// sRGB).
pub const FORMAT_B8G8R8A8_SRGB: i32 = 50;

/// Raw enumeration value of the preferred color space (sRGB nonlinear).
pub const COLOR_SPACE_SRGB_NONLINEAR: i32 = 0;

/// Raw enumeration value of the mailbox present mode (triple
/// buffering).
pub const PRESENT_MODE_MAILBOX: i32 = 1;

/// Raw enumeration value of the FIFO present mode, which every
/// conforming driver supports.
pub const PRESENT_MODE_FIFO: i32 = 2;

/// What the three surface queries report for one (device, surface)
/// pair: capabilities, the supported formats in driver order, and the
/// supported present modes in driver order. Bundled unfiltered; whether
/// the lists are empty is judged by the suitability evaluator.
#[derive(Clone, Debug)]
pub struct SwapchainSupport {
    pub capabilities: SurfaceCapabilities,
    pub formats: Vec<SurfaceFormat>,
    pub present_modes: Vec<i32>,
}

impl SwapchainSupport {
    /// A device is usable only with at least one format and at least
    /// one present mode.
    pub open spec fn spec_adequate(self) -> bool {
        self.formats@.len() > 0 && self.present_modes@.len() > 0
    }

    /// The emptiness judgement on the two lists.
    pub fn is_adequate(&self) -> (r: bool)
        ensures
            r == self.spec_adequate(),
    {
        self.formats.len() > 0 && self.present_modes.len() > 0
    }
}

/// `f` is the preferred format: 8-bit BGRA sRGB in the sRGB nonlinear
/// color space.
pub open spec fn is_preferred_format(f: SurfaceFormat) -> bool {
    f.format == FORMAT_B8G8R8A8_SRGB && f.color_space == COLOR_SPACE_SRGB_NONLINEAR
}

/// `i` is the first position holding the preferred format.
pub open spec fn first_preferred_format(formats: Seq<SurfaceFormat>, i: int) -> bool {
    &&& 0 <= i < formats.len()
    &&& is_preferred_format(formats[i])
    &&& forall|j: int| 0 <= j < i ==> !is_preferred_format(formats[j])
}

/// Picks the surface format for a later swapchain: the first occurrence
/// of the preferred format, or the first reported format when the
/// preferred one is absent.
pub fn get_swapchain_surface_format(formats: &Vec<SurfaceFormat>) -> (r: SurfaceFormat)
    requires
        formats@.len() > 0,
    ensures
        (exists|i: int| 0 <= i < formats@.len() && is_preferred_format(formats@[i])) ==> (
        is_preferred_format(r) && exists|i: int| first_preferred_format(formats@, i) && r == formats@[i]),
        !(exists|i: int| 0 <= i < formats@.len() && is_preferred_format(formats@[i])) ==> r == formats@[0],
{
    let mut i: usize = 0;
    while i < formats.len()
        invariant
            i <= formats@.len(),
            forall|j: int| 0 <= j < i ==> !is_preferred_format(formats@[j]),
        decreases formats@.len() - i,
    {
        let f = formats[i];
        if f.format == FORMAT_B8G8R8A8_SRGB && f.color_space == COLOR_SPACE_SRGB_NONLINEAR {
            proof {
                assert(first_preferred_format(formats@, i as int));
            }
            return f;
        }
        i += 1;
    }
    formats[0]
}

/// Picks the present mode for a later swapchain: mailbox when the
/// driver lists it, otherwise FIFO.
pub fn get_swapchain_present_mode(present_modes: &Vec<i32>) -> (r: i32)
    ensures
        (exists|i: int|
            0 <= i < present_modes@.len() && present_modes@[i] == PRESENT_MODE_MAILBOX) ==> r
            == PRESENT_MODE_MAILBOX,
        !(exists|i: int|
            0 <= i < present_modes@.len() && present_modes@[i] == PRESENT_MODE_MAILBOX) ==> r
            == PRESENT_MODE_FIFO,
{
    let mut i: usize = 0;
    while i < present_modes.len()
        invariant
            i <= present_modes@.len(),
            forall|j: int| 0 <= j < i ==> present_modes@[j] != PRESENT_MODE_MAILBOX,
        decreases present_modes@.len() - i,
    {
        if present_modes[i] == PRESENT_MODE_MAILBOX {
            return PRESENT_MODE_MAILBOX;
        }
        i += 1;
    }
    PRESENT_MODE_FIFO
}

} // verus!
