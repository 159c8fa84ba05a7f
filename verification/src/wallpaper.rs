//! Render options, their binding to what the display service takes, and the
//! two halves of setting a desktop image: the request that goes to the
//! display service, and the reading of its answer.

use crate::display::{resolved, Display, DisplayError, DisplayRegistry};
use vstd::prelude::*;

verus! {

/// How an image is scaled to the display it is set on.
#[derive(Clone, Copy, Debug, PartialEq, Eq, Structural)]
pub enum ScalingMode {
    /// Stretch each axis independently until the image fills the display.
    AxesIndependent,
    /// Keep the image at its own size.
    NoScaling,
    /// Scale both axes by one factor, up or down, until the image fits.
    ProportionalFit,
}

impl ScalingMode {
    /// The integer by which the display service knows this mode. The numbers
    /// are fixed by the display service and are never renumbered.
    pub open spec fn spec_code(self) -> int {
        match self {
            ScalingMode::AxesIndependent => 1,
            ScalingMode::NoScaling => 2,
            ScalingMode::ProportionalFit => 3,
        }
    }

    /// The integer by which the display service knows this mode.
    pub fn code(self) -> (code: i64)
        ensures
            code == self.spec_code(),
    {
        match self {
            ScalingMode::AxesIndependent => 1,
            ScalingMode::NoScaling => 2,
            ScalingMode::ProportionalFit => 3,
        }
    }
}

/// The codes of the scaling modes are 1, 2 and 3 and no others, and each of
/// them belongs to exactly one mode.
pub proof fn lemma_scaling_codes_are_a_bijection()
    ensures
        forall|mode: ScalingMode| 1 <= #[trigger] mode.spec_code() <= 3,
        forall|a: ScalingMode, b: ScalingMode|
            #[trigger] a.spec_code() == #[trigger] b.spec_code() ==> a == b,
        exists|mode: ScalingMode| #[trigger] mode.spec_code() == 1,
        exists|mode: ScalingMode| #[trigger] mode.spec_code() == 2,
        exists|mode: ScalingMode| #[trigger] mode.spec_code() == 3,
{
    assert(ScalingMode::AxesIndependent.spec_code() == 1);
    assert(ScalingMode::NoScaling.spec_code() == 2);
    assert(ScalingMode::ProportionalFit.spec_code() == 3);
}

/// A colour of four channels. A channel holds 0 to 255 and stands for that
/// many parts of 255: 0 is none of the channel, 255 all of it.
#[derive(Clone, Copy, Debug, PartialEq, Eq, Structural)]
pub struct Rgba {
    pub red: u8,
    pub green: u8,
    pub blue: u8,
    pub alpha: u8,
}

/// The number of parts that a whole colour channel has.
pub const CHANNEL_FULL: u8 = 255;

/// Every channel value is a part of the whole between none and all of it,
/// both included: as a fraction of `CHANNEL_FULL` it lies between 0 and 1.
pub proof fn lemma_channel_within_unit_range(channel: u8)
    ensures
        0 * CHANNEL_FULL <= channel <= 1 * CHANNEL_FULL,
{
}

/// How a caller wants an image rendered.
#[derive(Clone, Copy, Debug, PartialEq, Eq, Structural)]
pub struct RenderOptions {
    pub scaling: ScalingMode,
    /// The colour of what the image leaves uncovered.
    pub background_color: Rgba,
    /// Whether the image may be cut where it is larger than the display.
    pub allow_clipping: bool,
}

/// The options as the display service takes them.
#[derive(Clone, Copy, Debug, PartialEq, Eq, Structural)]
pub struct PlatformOptions {
    pub scaling_code: i64,
    pub allow_clipping: bool,
    pub fill_color: Rgba,
}

impl RenderOptions {
    /// The bundle that the display service takes for these options.
    pub open spec fn spec_bind(self) -> PlatformOptions {
        PlatformOptions {
            scaling_code: self.scaling.spec_code() as i64,
            allow_clipping: self.allow_clipping,
            fill_color: self.background_color,
        }
    }

    /// Builds the bundle that the display service takes: the scaling mode by
    /// its code, the clipping flag and the background colour as they are.
    pub fn bind(&self) -> (bundle: PlatformOptions)
        ensures
            bundle == self.spec_bind(),
            bundle.scaling_code == self.scaling.spec_code(),
    {
        PlatformOptions {
            scaling_code: self.scaling.code(),
            allow_clipping: self.allow_clipping,
            fill_color: self.background_color,
        }
    }
}

/// One call of the display service's operation that sets the desktop image
/// of a display.
#[derive(Clone, Debug, PartialEq, Eq)]
pub struct WallpaperRequest<H> {
    /// The display to set the image on.
    pub handle: H,
    /// Where the image lies.
    pub image_path: String,
    pub options: PlatformOptions,
}

/// The display service refused to set the desktop image.
#[derive(Clone, Debug, PartialEq, Eq)]
pub struct ApplyError {
    /// What the display service gave as its reason.
    pub reason: String,
}

/// The call that sets the image at `image_path` on `display`. Nothing is
/// checked of the image: that is the display service's part.
pub fn request<H: Copy>(display: &Display<H>, image_path: &str, options: &RenderOptions) -> (call:
    WallpaperRequest<H>)
    ensures
        call.handle == display.handle,
        call.image_path@ == image_path@,
        call.options == options.spec_bind(),
{
    WallpaperRequest {
        handle: display.handle,
        image_path: image_path.to_owned(),
        options: options.bind(),
    }
}

/// Reads the display service's answer to a request: its refusal becomes an
/// `ApplyError` with the reason that it gave.
pub fn conclude(answer: Result<(), String>) -> (r: Result<(), ApplyError>)
    ensures
        match answer {
            Ok(_) => r is Ok,
            Err(reason) => r == Err::<(), ApplyError>(ApplyError { reason }),
        },
{
    match answer {
        Ok(_) => Ok(()),
        Err(reason) => Err(ApplyError { reason }),
    }
}

/// What is to be done to set the image at `wallpaper_path` on the display
/// that `display_id` names: the request for the first enumerated display
/// with that identifier, or `NotFound` where no display has it.
pub fn set_wallpaper<H: Copy>(
    registry: &DisplayRegistry<H>,
    display_id: u64,
    wallpaper_path: &str,
    options: &RenderOptions,
) -> (r: Result<WallpaperRequest<H>, DisplayError>)
    ensures
        match resolved(registry@, display_id) {
            Ok(display) => r matches Ok(call) && call.handle == display.handle
                && call.image_path@ == wallpaper_path@ && call.options == options.spec_bind(),
            Err(e) => r == Err::<WallpaperRequest<H>, DisplayError>(e),
        },
{
    match registry.resolve(display_id) {
        Ok(display) => Ok(request(display, wallpaper_path, options)),
        Err(e) => Err(e),
    }
}

} // verus!
