//! The negotiated surface configuration and its assembly from a recorded
//! window size and a capability report.

use vstd::prelude::*;
use crate::caps::{
    AlphaMode, PresentMode, SurfaceCapabilities, TextureFormat, select_surface_format,
    spec_selected_format,
};

verus! {

/// How many frames may be queued ahead of presentation: a fixed
/// backpressure bound, not tunable here.
pub const DESIRED_MAXIMUM_FRAME_LATENCY: u32 = 2;

/// The one texture usage this negotiation ever configures a surface with:
/// the surface is a render target.
#[derive(Clone, Copy, Debug, PartialEq, Eq, Structural)]
pub enum TextureUsage {
    /// The surface's textures are drawn to as render attachments.
    RenderAttachment,
}

/// A window's physical pixel size, recorded once when the negotiation
/// begins and treated as the source of truth for the configuration.
#[derive(Clone, Copy, Debug, PartialEq, Eq, Structural)]
pub struct WindowSize {
    /// Width in device pixels.
    pub width: u32,
    /// Height in device pixels.
    pub height: u32,
}

/// The negotiated surface configuration.  The view-format list the
/// negotiation produces is always empty, so it carries no field here;
/// the caller supplies an empty list when applying the configuration.
#[derive(Clone, Copy, Debug, PartialEq, Eq, Structural)]
pub struct SurfaceConfig {
    /// How the surface's textures will be used: always as render targets.
    pub usage: TextureUsage,
    /// The selected texture format.
    pub format: TextureFormat,
    /// Configured width: the recorded window width.
    pub width: u32,
    /// Configured height: the recorded window height.
    pub height: u32,
    /// The selected present mode.
    pub present_mode: PresentMode,
    /// The selected alpha compositing mode.
    pub alpha_mode: AlphaMode,
    /// The fixed frame-latency bound.
    pub desired_maximum_frame_latency: u32,
}

/// The configuration assembled from a recorded window size and a
/// capability report: render-target usage, the selected format, the
/// recorded dimensions, the first offered present and alpha modes, and
/// the fixed frame-latency bound.
pub open spec fn spec_build_config(size: WindowSize, caps: SurfaceCapabilities) -> SurfaceConfig {
    SurfaceConfig {
        usage: TextureUsage::RenderAttachment,
        format: spec_selected_format(caps.formats@),
        width: size.width,
        height: size.height,
        present_mode: caps.present_modes@[0],
        alpha_mode: caps.alpha_modes@[0],
        desired_maximum_frame_latency: DESIRED_MAXIMUM_FRAME_LATENCY,
    }
}

/// Assemble the surface configuration from the recorded window size and a
/// well-formed capability report.  The configured dimensions equal the
/// recorded size exactly; present mode and alpha mode are the first entries
/// of their capability lists; the format is the first sRGB-encoded one,
/// falling back to the list's first entry.
pub fn build_surface_config(size: WindowSize, caps: &SurfaceCapabilities) -> (r: SurfaceConfig)
    requires
        caps.well_formed(),
    ensures
        r == spec_build_config(size, *caps),
        r.width == size.width,
        r.height == size.height,
        r.format == spec_selected_format(caps.formats@),
        r.present_mode == caps.present_modes@[0],
        r.alpha_mode == caps.alpha_modes@[0],
        r.usage == TextureUsage::RenderAttachment,
        r.desired_maximum_frame_latency == DESIRED_MAXIMUM_FRAME_LATENCY,
{
    let format = select_surface_format(&caps.formats);
    SurfaceConfig {
        usage: TextureUsage::RenderAttachment,
        format,
        width: size.width,
        height: size.height,
        present_mode: caps.present_modes[0],
        alpha_mode: caps.alpha_modes[0],
        desired_maximum_frame_latency: DESIRED_MAXIMUM_FRAME_LATENCY,
    }
}

} // verus!
