//! The presentable surface: its size, what it can do, and how it is
//! configured.

use vstd::prelude::*;

verus! {

/// A size in physical pixels.
#[derive(Clone, Copy, Debug, PartialEq, Eq, Structural)]
pub struct PhysicalSize {
    pub width: u32,
    pub height: u32,
}

impl PhysicalSize {
    pub fn new(width: u32, height: u32) -> (size: PhysicalSize)
        ensures
            size == (PhysicalSize { width, height }),
    {
        PhysicalSize { width, height }
    }

    /// A size with a zero side cannot be drawn into.
    pub open spec fn spec_is_empty(self) -> bool {
        self.width == 0 || self.height == 0
    }

    #[verifier::when_used_as_spec(spec_is_empty)]
    pub fn is_empty(self) -> (empty: bool)
        ensures
            empty == self.spec_is_empty(),
    {
        self.width == 0 || self.height == 0
    }
}

/// The pixel formats a surface commonly offers. A format that has no variant
/// of its own is kept apart by the tag its owner gave it.
#[derive(Clone, Copy, Debug, PartialEq, Eq, Structural)]
pub enum TextureFormat {
    Bgra8Unorm,
    Bgra8UnormSrgb,
    Rgba8Unorm,
    Rgba8UnormSrgb,
    Rgba16Float,
    Rgb10a2Unorm,
    Other(u32),
}

/// How the window system blends the surface with what lies behind it.
#[derive(Clone, Copy, Debug, PartialEq, Eq, Structural)]
pub enum CompositeAlphaMode {
    Auto,
    Opaque,
    PreMultiplied,
    PostMultiplied,
    Inherit,
}

/// When a finished image is shown.
#[derive(Clone, Copy, Debug, PartialEq, Eq, Structural)]
pub enum PresentMode {
    AutoVsync,
    AutoNoVsync,
    Fifo,
    FifoRelaxed,
    Immediate,
    Mailbox,
}

/// What the images of a surface may be used for.
#[derive(Clone, Copy, Debug, PartialEq, Eq, Structural)]
pub struct TextureUsages {
    pub copy_src: bool,
    pub copy_dst: bool,
    pub texture_binding: bool,
    pub storage_binding: bool,
    pub render_attachment: bool,
}

impl TextureUsages {
    /// The usage of an image that is only ever drawn into.
    pub open spec fn spec_render_attachment() -> TextureUsages {
        TextureUsages {
            copy_src: false,
            copy_dst: false,
            texture_binding: false,
            storage_binding: false,
            render_attachment: true,
        }
    }

    #[verifier::when_used_as_spec(spec_render_attachment)]
    pub fn render_attachment() -> (usage: TextureUsages)
        ensures
            usage == Self::spec_render_attachment(),
    {
        TextureUsages {
            copy_src: false,
            copy_dst: false,
            texture_binding: false,
            storage_binding: false,
            render_attachment: true,
        }
    }
}

/// What a surface reported it supports, in the order it reported it.
#[derive(Clone, Debug, PartialEq, Eq)]
pub struct SurfaceCapabilities {
    pub formats: Vec<TextureFormat>,
    pub alpha_modes: Vec<CompositeAlphaMode>,
}

impl SurfaceCapabilities {
    /// A surface that supports no format or no alpha mode cannot be
    /// configured.
    pub open spec fn spec_is_usable(&self) -> bool {
        self.formats@.len() > 0 && self.alpha_modes@.len() > 0
    }

    #[verifier::when_used_as_spec(spec_is_usable)]
    pub fn is_usable(&self) -> (usable: bool)
        ensures
            usable == self.spec_is_usable(),
    {
        self.formats.len() > 0 && self.alpha_modes.len() > 0
    }
}

/// The format to draw in: `Bgra8Unorm` where the surface offers it, else the
/// first format it offers.
pub open spec fn preferred_format(formats: Seq<TextureFormat>) -> TextureFormat
    recommends
        formats.len() > 0,
{
    if formats.contains(TextureFormat::Bgra8Unorm) {
        TextureFormat::Bgra8Unorm
    } else {
        formats[0]
    }
}

/// The alpha mode to composite with: post-multiplied where the surface offers
/// it, else the first mode it offers.
pub open spec fn preferred_alpha_mode(modes: Seq<CompositeAlphaMode>) -> CompositeAlphaMode
    recommends
        modes.len() > 0,
{
    if modes.contains(CompositeAlphaMode::PostMultiplied) {
        CompositeAlphaMode::PostMultiplied
    } else {
        modes[0]
    }
}

/// Picks the pixel format for a surface that offers `formats`.
pub fn choose_format(formats: &Vec<TextureFormat>) -> (format: TextureFormat)
    requires
        formats@.len() > 0,
    ensures
        format == preferred_format(formats@),
{
    let mut i: usize = 0;
    while i < formats.len()
        invariant
            i <= formats@.len(),
            forall|j: int| 0 <= j < i ==> formats@[j] != TextureFormat::Bgra8Unorm,
        decreases formats@.len() - i,
    {
        if formats[i] == TextureFormat::Bgra8Unorm {
            return TextureFormat::Bgra8Unorm;
        }
        i += 1;
    }
    formats[0]
}

/// Picks the alpha mode for a surface that offers `modes`.
pub fn choose_alpha_mode(modes: &Vec<CompositeAlphaMode>) -> (mode: CompositeAlphaMode)
    requires
        modes@.len() > 0,
    ensures
        mode == preferred_alpha_mode(modes@),
{
    let mut i: usize = 0;
    while i < modes.len()
        invariant
            i <= modes@.len(),
            forall|j: int| 0 <= j < i ==> modes@[j] != CompositeAlphaMode::PostMultiplied,
        decreases modes@.len() - i,
    {
        if modes[i] == CompositeAlphaMode::PostMultiplied {
            return CompositeAlphaMode::PostMultiplied;
        }
        i += 1;
    }
    modes[0]
}

/// How a surface is set up: the one group of values that changes while the
/// renderer lives.
#[derive(Clone, Debug, PartialEq, Eq)]
pub struct SurfaceConfiguration {
    pub usage: TextureUsages,
    pub format: TextureFormat,
    pub width: u32,
    pub height: u32,
    pub present_mode: PresentMode,
    pub alpha_mode: CompositeAlphaMode,
    pub view_formats: Vec<TextureFormat>,
}

/// A surface configuration as a mathematical value.
pub struct SurfaceConfigurationView {
    pub usage: TextureUsages,
    pub format: TextureFormat,
    pub width: u32,
    pub height: u32,
    pub present_mode: PresentMode,
    pub alpha_mode: CompositeAlphaMode,
    pub view_formats: Seq<TextureFormat>,
}

impl View for SurfaceConfiguration {
    type V = SurfaceConfigurationView;

    open spec fn view(&self) -> SurfaceConfigurationView {
        SurfaceConfigurationView {
            usage: self.usage,
            format: self.format,
            width: self.width,
            height: self.height,
            present_mode: self.present_mode,
            alpha_mode: self.alpha_mode,
            view_formats: self.view_formats@,
        }
    }
}

impl SurfaceConfigurationView {
    /// The same configuration at another size.
    pub open spec fn with_size(self, size: PhysicalSize) -> SurfaceConfigurationView {
        SurfaceConfigurationView { width: size.width, height: size.height, ..self }
    }
}

/// The configuration a surface starts with: drawn into only, in the preferred
/// format and alpha mode, shown in step with the display, at the window's
/// size, with no further view formats.
pub open spec fn initial_configuration(
    formats: Seq<TextureFormat>,
    alpha_modes: Seq<CompositeAlphaMode>,
    size: PhysicalSize,
) -> SurfaceConfigurationView
    recommends
        formats.len() > 0,
        alpha_modes.len() > 0,
{
    SurfaceConfigurationView {
        usage: TextureUsages::spec_render_attachment(),
        format: preferred_format(formats),
        width: size.width,
        height: size.height,
        present_mode: PresentMode::Fifo,
        alpha_mode: preferred_alpha_mode(alpha_modes),
        view_formats: Seq::empty(),
    }
}

impl SurfaceConfiguration {
    /// The starting configuration of a surface with capabilities `caps` in a
    /// window of `size`.
    pub fn new(caps: &SurfaceCapabilities, size: PhysicalSize) -> (config: SurfaceConfiguration)
        requires
            caps.spec_is_usable(),
        ensures
            config@ == initial_configuration(caps.formats@, caps.alpha_modes@, size),
    {
        SurfaceConfiguration {
            usage: TextureUsages::render_attachment(),
            format: choose_format(&caps.formats),
            width: size.width,
            height: size.height,
            present_mode: PresentMode::Fifo,
            alpha_mode: choose_alpha_mode(&caps.alpha_modes),
            view_formats: Vec::new(),
        }
    }

    /// A second value of the same configuration.
    pub fn duplicate(&self) -> (copy: SurfaceConfiguration)
        ensures
            copy@ == self@,
    {
        let mut view_formats: Vec<TextureFormat> = Vec::new();
        let mut i: usize = 0;
        while i < self.view_formats.len()
            invariant
                i <= self.view_formats@.len(),
                view_formats@ == self.view_formats@.subrange(0, i as int),
            decreases self.view_formats@.len() - i,
        {
            view_formats.push(self.view_formats[i]);
            i += 1;
        }
        assert(view_formats@ =~= self.view_formats@);
        SurfaceConfiguration {
            usage: self.usage,
            format: self.format,
            width: self.width,
            height: self.height,
            present_mode: self.present_mode,
            alpha_mode: self.alpha_mode,
            view_formats,
        }
    }
}

} // verus!
