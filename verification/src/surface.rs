//! How the presentation surface is configured from what an adapter supports.

use vstd::prelude::*;
use crate::geometry::Size;

verus! {

/// `wgpu::TextureFormat`, carried through the library as an opaque value.
#[verifier::external_type_specification]
#[verifier::external_body]
pub struct ExTextureFormat(wgpu::TextureFormat);

/// `wgpu::PresentMode`, carried through the library as an opaque value.
#[verifier::external_type_specification]
#[verifier::external_body]
pub struct ExPresentMode(wgpu::PresentMode);

/// `wgpu::CompositeAlphaMode`, carried through the library as an opaque value.
#[verifier::external_type_specification]
#[verifier::external_body]
pub struct ExCompositeAlphaMode(wgpu::CompositeAlphaMode);

/// The answer of `wgpu::TextureFormat::is_srgb` for a format.
pub uninterp spec fn format_is_srgb(format: wgpu::TextureFormat) -> bool;

/// `wgpu::TextureFormat::is_srgb` compares the format with itself stripped of
/// its sRGB suffix, so its answer depends on the format alone. Nothing more is
/// claimed of it than that it is this function of the format.
pub assume_specification[ wgpu::TextureFormat::is_srgb ](format: &wgpu::TextureFormat) -> (srgb: bool)
    ensures
        srgb == format_is_srgb(*format),
;

/// `index` is where the format to present in stands among `formats`: at the
/// first sRGB format, or at the front when no format is sRGB.
pub open spec fn is_preferred_index(formats: Seq<wgpu::TextureFormat>, index: int) -> bool {
    &&& 0 <= index < formats.len()
    &&& forall|j: int| 0 <= j < index ==> !format_is_srgb(#[trigger] formats[j])
    &&& format_is_srgb(formats[index]) || (index == 0 && forall|j: int|
        0 <= j < formats.len() ==> !format_is_srgb(#[trigger] formats[j]))
}

/// The one index that `is_preferred_index` accepts for a non-empty list.
pub open spec fn preferred_index(formats: Seq<wgpu::TextureFormat>) -> int {
    choose|index: int| is_preferred_index(formats, index)
}

/// A list of formats has at most one preferred index.
pub proof fn lemma_preferred_index_unique(formats: Seq<wgpu::TextureFormat>, a: int, b: int)
    requires
        is_preferred_index(formats, a),
        is_preferred_index(formats, b),
    ensures
        a == b,
{
    if a < b {
        assert(!format_is_srgb(formats[a]));
    } else if b < a {
        assert(!format_is_srgb(formats[b]));
    }
}

/// The preferred index of `formats`, found by looking from `from` on, where
/// no format before `from` is sRGB.
proof fn lemma_preferred_index_from(formats: Seq<wgpu::TextureFormat>, from: int) -> (index: int)
    requires
        formats.len() > 0,
        0 <= from <= formats.len(),
        forall|j: int| 0 <= j < from ==> !format_is_srgb(#[trigger] formats[j]),
    ensures
        is_preferred_index(formats, index),
    decreases formats.len() - from,
{
    if from == formats.len() {
        0
    } else if format_is_srgb(formats[from]) {
        from
    } else {
        lemma_preferred_index_from(formats, from + 1)
    }
}

/// Every non-empty list of formats has a preferred index, and
/// `preferred_index` is it: the position of the first sRGB format, or the
/// front when no format is sRGB.
pub proof fn lemma_preferred_index_exists(formats: Seq<wgpu::TextureFormat>)
    requires
        formats.len() > 0,
    ensures
        is_preferred_index(formats, preferred_index(formats)),
{
    let index = lemma_preferred_index_from(formats, 0);
    assert(is_preferred_index(formats, index));
}

/// Finds the preferred format's position by asking each format in turn
/// whether it is sRGB.
pub fn choose_format(formats: &Vec<wgpu::TextureFormat>) -> (index: usize)
    requires
        formats@.len() > 0,
    ensures
        is_preferred_index(formats@, index as int),
        index as int == preferred_index(formats@),
{
    let mut i: usize = 0;
    let mut found: Option<usize> = None;
    while i < formats.len() && found.is_none()
        invariant
            i <= formats@.len(),
            forall|j: int|
                0 <= j < (if found is Some { found->0 as int } else { i as int })
                    ==> !format_is_srgb(#[trigger] formats@[j]),
            found matches Some(k) ==> k < formats@.len() && format_is_srgb(formats@[k as int]),
        decreases formats@.len() - i + (if found is Some { 0int } else { 1int }),
    {
        if formats[i].is_srgb() {
            found = Some(i);
        } else {
            i += 1;
        }
    }
    let index: usize = match found {
        Some(k) => k,
        None => 0,
    };
    proof {
        lemma_preferred_index_unique(formats@, index as int, preferred_index(formats@));
    }
    index
}

/// What an adapter supports for a surface, each list in the adapter's order
/// of preference.
pub struct SurfaceCaps {
    pub formats: Vec<wgpu::TextureFormat>,
    pub present_modes: Vec<wgpu::PresentMode>,
    pub alpha_modes: Vec<wgpu::CompositeAlphaMode>,
}

impl SurfaceCaps {
    /// A surface can only be configured when every list offers a choice.
    pub open spec fn usable(self) -> bool {
        &&& self.formats@.len() > 0
        &&& self.present_modes@.len() > 0
        &&& self.alpha_modes@.len() > 0
    }

    /// Tells whether every list offers at least one choice.
    pub fn is_usable(&self) -> (usable: bool)
        ensures
            usable == self.usable(),
    {
        self.formats.len() > 0 && self.present_modes.len() > 0 && self.alpha_modes.len() > 0
    }
}

/// What the surface's textures are used for.
#[derive(Clone, Copy, Debug, PartialEq, Eq, Structural)]
pub enum Usage {
    /// The textures are the colour attachment of a render pass.
    RenderAttachment,
}

/// Frames that the presentation engine may queue in advance.
pub const FRAME_LATENCY: u32 = 2;

/// The parameters that a presentation surface is configured with. The surface
/// gets no view formats besides its own.
#[derive(Clone, Copy, Debug, PartialEq, Eq)]
pub struct SurfaceConfig {
    pub usage: Usage,
    pub format: wgpu::TextureFormat,
    pub width: u32,
    pub height: u32,
    pub present_mode: wgpu::PresentMode,
    pub alpha_mode: wgpu::CompositeAlphaMode,
    pub frame_latency: u32,
}

impl SurfaceConfig {
    /// The configuration for a window of extent `size` on an adapter that
    /// supports `caps`.
    pub open spec fn for_window_spec(size: Size, caps: SurfaceCaps) -> SurfaceConfig {
        SurfaceConfig {
            usage: Usage::RenderAttachment,
            format: caps.formats@[preferred_index(caps.formats@)],
            width: size.width,
            height: size.height,
            present_mode: caps.present_modes@[0],
            alpha_mode: caps.alpha_modes@[0],
            frame_latency: FRAME_LATENCY,
        }
    }

    /// Picks the preferred format and the first present and alpha modes, and
    /// sizes the surface to the window.
    pub fn for_window(size: Size, caps: &SurfaceCaps) -> (config: SurfaceConfig)
        requires
            caps.usable(),
        ensures
            config == Self::for_window_spec(size, *caps),
            is_preferred_index(caps.formats@, preferred_index(caps.formats@)),
    {
        let index = choose_format(&caps.formats);
        SurfaceConfig {
            usage: Usage::RenderAttachment,
            format: caps.formats[index],
            width: size.width,
            height: size.height,
            present_mode: caps.present_modes[0],
            alpha_mode: caps.alpha_modes[0],
            frame_latency: FRAME_LATENCY,
        }
    }

    /// The extent that the surface is configured to.
    pub open spec fn size(self) -> Size {
        Size { width: self.width, height: self.height }
    }

    /// The same configuration at another extent.
    pub open spec fn resized(self, size: Size) -> SurfaceConfig {
        SurfaceConfig { width: size.width, height: size.height, ..self }
    }
}

} // verus!
