//! A presentable surface: the negotiation of its pixel format and the upkeep
//! of its presentation parameters.

use crate::device::DeviceCreationError;
use crate::scan::{is_first_set, none_set};
use vstd::prelude::*;
use wgpu::TextureFormat;

verus! {

#[verifier::external_type_specification]
#[verifier::external_body]
pub struct ExTextureFormat(TextureFormat);

/// Whether wgpu counts `format` among the sRGB formats.
pub uninterp spec fn srgb(format: TextureFormat) -> bool;

/// wgpu's `TextureFormat::is_srgb`. Not proved: that the answer depends on
/// the format alone, which is what naming it `srgb` claims.
#[verifier::external_body]
fn format_is_srgb(format: TextureFormat) -> (b: bool)
    ensures
        b == srgb(format),
{
    format.is_srgb()
}

/// When a presented frame becomes visible.
#[derive(Clone, Copy, Debug, PartialEq, Eq, Structural)]
pub enum PresentMode {
    /// Wait for the vertical blank, by whichever mode the platform offers.
    AutoVsync,
    /// Do not wait, by whichever mode the platform offers.
    AutoNoVsync,
    /// A queue of frames, one shown per vertical blank.
    Fifo,
    /// As `Fifo`, but a late frame is shown at once.
    FifoRelaxed,
    /// Shown at once; may tear.
    Immediate,
    /// The newest frame replaces the one that waits.
    Mailbox,
}

/// How the surface is blended with what lies behind the window.
#[derive(Clone, Copy, Debug, PartialEq, Eq, Structural)]
pub enum AlphaMode {
    /// Whichever mode the platform prefers.
    Auto,
    /// The alpha channel is ignored.
    Opaque,
    /// The colors are already multiplied by alpha.
    PreMultiplied,
    /// The compositor multiplies the colors by alpha.
    PostMultiplied,
    /// The mode is set by other means.
    Inherit,
}

/// The usage bit of a texture that a render pass writes to.
pub const RENDER_ATTACHMENT: u32 = 16;

/// The number of frames that may wait for presentation.
pub const FRAME_LATENCY: u32 = 2;

/// The presentation parameters of a surface.
pub struct SurfaceConfig {
    /// The usage bits of the surface's textures.
    pub usage: u32,
    /// The pixel format of the surface's textures.
    pub format: TextureFormat,
    /// The width in pixels; never zero.
    pub width: u32,
    /// The height in pixels; never zero.
    pub height: u32,
    /// When a presented frame becomes visible.
    pub present_mode: PresentMode,
    /// How the surface is blended with what lies behind it.
    pub alpha_mode: AlphaMode,
    /// The formats that views of the surface's textures may have.
    pub view_formats: Vec<TextureFormat>,
    /// The number of frames that may wait for presentation.
    pub desired_maximum_frame_latency: u32,
}

/// Why no surface could be made.
#[derive(Clone, Copy, Debug, PartialEq, Eq, Structural)]
pub enum SurfaceCreationError {
    /// The platform gave no surface for the window.
    SurfaceUnavailable,
    /// No device could be resolved for the surface.
    Device(DeviceCreationError),
    /// The adapter advertises no format for the surface.
    NoFormat,
    /// The width or the height asked for is zero.
    EmptySize,
}

/// What the owner of the platform surface has to do after a call.
#[derive(Clone, Copy, Debug, PartialEq, Eq, Structural)]
pub enum SurfaceAction {
    /// Nothing: the surface is configured as before.
    Keep,
    /// Wait until the device `wait_for`, which owns the surface, has no
    /// work pending, then apply the surface's present configuration to the
    /// platform surface. Without the wait the configuration may race the
    /// work in flight.
    Reconfigure { wait_for: usize },
}

/// `format` is the one to present in, given the advertised formats and, for
/// each, whether it is preferred: the first preferred one, or the first of
/// all where none is preferred.
pub open spec fn is_negotiated(
    formats: Seq<TextureFormat>,
    preferred: Seq<bool>,
    format: TextureFormat,
) -> bool {
    &&& formats.len() > 0
    &&& formats.len() == preferred.len()
    &&& {
        ||| exists|i: int| is_first_set(preferred, i) && format == formats[i]
        ||| none_set(preferred) && format == formats[0]
    }
}

/// For each format, whether wgpu counts it among the sRGB formats.
pub open spec fn srgb_flags(formats: Seq<TextureFormat>) -> Seq<bool> {
    formats.map_values(|f: TextureFormat| srgb(f))
}

/// The formats of a list of candidates.
pub open spec fn formats_of(candidates: Seq<(TextureFormat, bool)>) -> Seq<TextureFormat> {
    candidates.map_values(|c: (TextureFormat, bool)| c.0)
}

/// For each candidate of a list, whether it is preferred.
pub open spec fn flags_of(candidates: Seq<(TextureFormat, bool)>) -> Seq<bool> {
    candidates.map_values(|c: (TextureFormat, bool)| c.1)
}

/// Picks the format to present in from the advertised formats, each with
/// the word on whether it is preferred: the first preferred one, or the
/// first of all where none is preferred. Without any candidate there is
/// nothing to pick.
pub fn pick_format(candidates: &Vec<(TextureFormat, bool)>) -> (r: Option<TextureFormat>)
    ensures
        r is None <==> candidates.len() == 0,
        r is Some ==> is_negotiated(formats_of(candidates@), flags_of(candidates@), r->Some_0),
{
    let mut i: usize = 0;
    while i < candidates.len()
        invariant
            i <= candidates.len(),
            forall|j: int| 0 <= j < i ==> !flags_of(candidates@)[j],
        decreases candidates.len() - i,
    {
        if candidates[i].1 {
            assert(is_first_set(flags_of(candidates@), i as int));
            return Some(candidates[i].0);
        }
        i += 1;
    }
    if candidates.len() == 0 {
        None
    } else {
        assert(none_set(flags_of(candidates@)));
        Some(candidates[0].0)
    }
}

/// Each format with the word on whether wgpu counts it among the sRGB
/// formats.
pub open spec fn srgb_candidates(formats: Seq<TextureFormat>) -> Seq<(TextureFormat, bool)> {
    formats.map_values(|f: TextureFormat| (f, srgb(f)))
}

/// Negotiates the format of a surface from the formats that the adapter
/// advertises for it: the first sRGB format, or the first format where
/// none is sRGB.
pub fn choose_format(formats: &Vec<TextureFormat>) -> (r: Option<TextureFormat>)
    ensures
        r is None <==> formats.len() == 0,
        r is Some ==> is_negotiated(formats@, srgb_flags(formats@), r->Some_0),
{
    let mut candidates: Vec<(TextureFormat, bool)> = Vec::with_capacity(formats.len());
    let mut i: usize = 0;
    while i < formats.len()
        invariant
            i <= formats.len(),
            candidates@ == srgb_candidates(formats@.take(i as int)),
        decreases formats.len() - i,
    {
        candidates.push((formats[i], format_is_srgb(formats[i])));
        assert(candidates@ =~= srgb_candidates(formats@.take(i + 1)));
        i += 1;
    }
    assert(formats@.take(i as int) =~= formats@);
    assert(formats_of(candidates@) =~= formats@);
    assert(flags_of(candidates@) =~= srgb_flags(formats@));
    pick_format(&candidates)
}

/// A surface bound to one device of the registry: the platform's binding
/// to the window, and the presentation parameters that were asked for last.
pub struct Surface<B> {
    binding: B,
    config: SurfaceConfig,
    dev_id: usize,
}

/// Whether a surface can be made from what the platform returned, and if
/// not, why: the first of these that went wrong.
pub open spec fn creation_error<B>(
    binding: Option<B>,
    device: Result<usize, DeviceCreationError>,
    formats: Seq<TextureFormat>,
    width: u32,
    height: u32,
) -> Option<SurfaceCreationError> {
    if width == 0 || height == 0 {
        Some(SurfaceCreationError::EmptySize)
    } else if binding is None {
        Some(SurfaceCreationError::SurfaceUnavailable)
    } else if device is Err {
        Some(SurfaceCreationError::Device(device->Err_0))
    } else if formats.len() == 0 {
        Some(SurfaceCreationError::NoFormat)
    } else {
        None
    }
}

impl<B> Surface<B> {
    #[verifier::type_invariant]
    spec fn sized(&self) -> bool {
        self.config.width > 0 && self.config.height > 0
    }

    /// The platform's binding to the window.
    pub closed spec fn spec_binding(&self) -> B {
        self.binding
    }

    /// The presentation parameters asked for last.
    pub closed spec fn spec_config(&self) -> SurfaceConfig {
        self.config
    }

    /// The index of the owning device in the registry.
    pub closed spec fn spec_dev_id(&self) -> usize {
        self.dev_id
    }

    /// The surface's dimensions are not degenerate.
    pub open spec fn wf(&self) -> bool {
        self.spec_config().width > 0 && self.spec_config().height > 0
    }

    /// The parameters of a surface that was just made: textures that a
    /// render pass writes to, the negotiated format, the dimensions asked
    /// for, presentation at the vertical blank, and blending left to the
    /// platform.
    pub open spec fn is_initial(
        &self,
        formats: Seq<TextureFormat>,
        width: u32,
        height: u32,
    ) -> bool {
        let c = self.spec_config();
        &&& is_negotiated(formats, srgb_flags(formats), c.format)
        &&& c.usage == RENDER_ATTACHMENT
        &&& c.width == width
        &&& c.height == height
        &&& c.present_mode == PresentMode::AutoVsync
        &&& c.alpha_mode == AlphaMode::Auto
        &&& c.view_formats@ == seq![formats[0]]
        &&& c.desired_maximum_frame_latency == FRAME_LATENCY
    }

    /// Makes the surface for a window from what the platform returned: the
    /// binding to the window, the device that the registry resolved for it,
    /// and the formats that this device's adapter advertises for it. The
    /// caller applies the resulting configuration at once.
    pub fn create(
        binding: Option<B>,
        device: Result<usize, DeviceCreationError>,
        formats: &Vec<TextureFormat>,
        width: u32,
        height: u32,
    ) -> (r: Result<Surface<B>, SurfaceCreationError>)
        ensures
            match r {
                Ok(s) => {
                    &&& creation_error(binding, device, formats@, width, height) is None
                    &&& s.wf()
                    &&& s.is_initial(formats@, width, height)
                    &&& Some(s.spec_binding()) == binding
                    &&& Ok::<usize, DeviceCreationError>(s.spec_dev_id()) == device
                },
                Err(e) => creation_error(binding, device, formats@, width, height) == Some(e),
            },
    {
        if width == 0 || height == 0 {
            return Err(SurfaceCreationError::EmptySize);
        }
        let binding = match binding {
            Some(b) => b,
            None => {
                return Err(SurfaceCreationError::SurfaceUnavailable);
            },
        };
        let dev_id: usize = match device {
            Ok(i) => i,
            Err(e) => {
                return Err(SurfaceCreationError::Device(e));
            },
        };
        match choose_format(formats) {
            None => Err(SurfaceCreationError::NoFormat),
            Some(format) => {
                let mut view_formats: Vec<TextureFormat> = Vec::new();
                view_formats.push(formats[0]);
                let config = SurfaceConfig {
                    usage: RENDER_ATTACHMENT,
                    format,
                    width,
                    height,
                    present_mode: PresentMode::AutoVsync,
                    alpha_mode: AlphaMode::Auto,
                    view_formats,
                    desired_maximum_frame_latency: FRAME_LATENCY,
                };
                assert(config.view_formats@ =~= seq![formats@[0]]);
                Ok(Surface { binding, config, dev_id })
            },
        }
    }

    /// Makes the surface for a window as `create` does, and says what is to
    /// be done with it at once: its configuration is applied before any
    /// frame is acquired from it.
    pub fn create_configured(
        binding: Option<B>,
        device: Result<usize, DeviceCreationError>,
        formats: &Vec<TextureFormat>,
        width: u32,
        height: u32,
    ) -> (r: Result<(Surface<B>, SurfaceAction), SurfaceCreationError>)
        ensures
            match r {
                Ok((s, action)) => {
                    &&& creation_error(binding, device, formats@, width, height) is None
                    &&& s.wf()
                    &&& s.is_initial(formats@, width, height)
                    &&& Some(s.spec_binding()) == binding
                    &&& Ok::<usize, DeviceCreationError>(s.spec_dev_id()) == device
                    &&& action == (SurfaceAction::Reconfigure { wait_for: s.spec_dev_id() })
                },
                Err(e) => creation_error(binding, device, formats@, width, height) == Some(e),
            },
    {
        match Surface::create(binding, device, formats, width, height) {
            Ok(surface) => {
                let action = surface.configure();
                Ok((surface, action))
            },
            Err(e) => Err(e),
        }
    }

    /// The platform's binding to the window.
    pub fn binding(&self) -> (b: &B)
        ensures
            *b == self.spec_binding(),
    {
        &self.binding
    }

    /// The presentation parameters asked for last.
    pub fn config(&self) -> (c: &SurfaceConfig)
        ensures
            *c == self.spec_config(),
            c.width > 0,
            c.height > 0,
    {
        proof {
            use_type_invariant(self);
        }
        &self.config
    }

    /// The index of the owning device in the registry.
    pub fn dev_id(&self) -> (i: usize)
        ensures
            i == self.spec_dev_id(),
    {
        self.dev_id
    }

    /// What it takes to apply the configuration as it stands: the owning
    /// device goes idle first.
    pub fn configure(&self) -> (action: SurfaceAction)
        ensures
            action == (SurfaceAction::Reconfigure { wait_for: self.spec_dev_id() }),
    {
        SurfaceAction::Reconfigure { wait_for: self.dev_id }
    }

    /// Takes new dimensions and asks for the configuration to be applied
    /// again. A zero width or height is ignored: nothing changes and nothing
    /// is to be applied.
    pub fn resize(&mut self, width: u32, height: u32) -> (action: SurfaceAction)
        ensures
            final(self).spec_dev_id() == old(self).spec_dev_id(),
            final(self).spec_binding() == old(self).spec_binding(),
            width == 0 || height == 0 ==> {
                &&& action == SurfaceAction::Keep
                &&& *final(self) == *old(self)
            },
            width > 0 && height > 0 ==> {
                &&& action == (SurfaceAction::Reconfigure { wait_for: old(self).spec_dev_id() })
                &&& final(self).spec_config() == (SurfaceConfig {
                    width,
                    height,
                    ..old(self).spec_config()
                })
            },
            final(self).wf(),
    {
        proof {
            use_type_invariant(&*self);
        }
        if width > 0 && height > 0 {
            self.config.width = width;
            self.config.height = height;
            SurfaceAction::Reconfigure { wait_for: self.dev_id }
        } else {
            SurfaceAction::Keep
        }
    }

    /// Takes a new present mode and asks for the configuration to be applied
    /// again.
    pub fn set_present_mode(&mut self, mode: PresentMode) -> (action: SurfaceAction)
        ensures
            action == (SurfaceAction::Reconfigure { wait_for: old(self).spec_dev_id() }),
            final(self).spec_dev_id() == old(self).spec_dev_id(),
            final(self).spec_binding() == old(self).spec_binding(),
            final(self).wf(),
            final(self).spec_config() == (SurfaceConfig {
                present_mode: mode,
                ..old(self).spec_config()
            }),
    {
        proof {
            use_type_invariant(&*self);
        }
        self.config.present_mode = mode;
        SurfaceAction::Reconfigure { wait_for: self.dev_id }
    }
}

} // verus!
