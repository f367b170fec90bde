//! Decisions of the renderer that need no device: why bring-up can fail,
//! which surface format to take, which sizes to accept, and what to do when
//! a frame cannot be had.

use vstd::prelude::*;

verus! {

/// Why the renderer could not be brought up.
#[derive(Clone, Copy, Debug, PartialEq, Eq, Structural)]
pub enum RendererError {
    AdapterNotFound,
    DeviceRequestFailed,
    SurfaceCreationFailed,
}

impl RendererError {
    pub open spec fn spec_message(self) -> Seq<char> {
        match self {
            RendererError::AdapterNotFound => "Failed to find a suitable GPU adapter"@,
            RendererError::DeviceRequestFailed => "Failed to request device"@,
            RendererError::SurfaceCreationFailed => "Failed to create surface"@,
        }
    }

    /// The error in words.
    pub fn message(&self) -> (text: &'static str)
        ensures
            text@ == self.spec_message(),
    {
        match self {
            RendererError::AdapterNotFound => "Failed to find a suitable GPU adapter",
            RendererError::DeviceRequestFailed => "Failed to request device",
            RendererError::SurfaceCreationFailed => "Failed to create surface",
        }
    }
}

/// Whether a surface can be configured to this size: neither side is zero.
pub fn accepts_size(width: u32, height: u32) -> (accepted: bool)
    ensures
        accepted == (width > 0 && height > 0),
{
    width > 0 && height > 0
}

/// Whether `place` holds the first sRGB format.
pub open spec fn first_srgb(srgb: Seq<bool>, place: int) -> bool {
    &&& 0 <= place < srgb.len()
    &&& srgb[place]
    &&& forall|earlier: int| 0 <= earlier < place ==> !srgb[earlier]
}

/// The place of the format to take: the first sRGB one if there is any,
/// else the first one, and `None` only where the surface offers none.
pub fn preferred_format(srgb: &Vec<bool>) -> (place: Option<usize>)
    ensures
        match place {
            Some(taken) => taken < srgb.len() && (first_srgb(srgb@, taken as int) || (taken == 0
                && forall|other: int| 0 <= other < srgb.len() ==> !srgb@[other])),
            None => srgb.len() == 0,
        },
{
    let mut place: usize = 0;
    while place < srgb.len()
        invariant
            place <= srgb.len(),
            forall|earlier: int| 0 <= earlier < place ==> !srgb@[earlier],
        decreases srgb.len() - place,
    {
        if srgb[place] {
            return Some(place);
        }
        place = place + 1;
    }
    if srgb.len() > 0 {
        Some(0)
    } else {
        None
    }
}

/// A texture format of the device. Nothing can be seen inside one.
#[verifier::external_type_specification]
#[verifier::external_body]
pub struct ExTextureFormat(wgpu::TextureFormat);

/// Whether `wgpu::TextureFormat::is_srgb` holds of a format.
pub uninterp spec fn is_srgb(format: wgpu::TextureFormat) -> bool;

/// `wgpu::TextureFormat::is_srgb` says whether a format is an sRGB format.
/// It compares the format with itself stripped of the sRGB suffix, so what
/// it returns depends on the format alone, and it returns for every format.
pub assume_specification[ wgpu::TextureFormat::is_srgb ](format: &wgpu::TextureFormat) -> (srgb:
    bool)
    ensures
        srgb == is_srgb(*format),
;

/// Of each format, whether it is an sRGB format.
pub open spec fn srgb_flags(formats: Seq<wgpu::TextureFormat>) -> Seq<bool> {
    Seq::new(formats.len(), |place: int| is_srgb(formats[place]))
}

/// The place of the format to take among those that the surface offers:
/// the first sRGB one if there is any, else the first one, and `None` only
/// where the surface offers none.
pub fn surface_format(formats: &Vec<wgpu::TextureFormat>) -> (place: Option<usize>)
    ensures
        match place {
            Some(taken) => taken < formats.len() && (first_srgb(
                srgb_flags(formats@),
                taken as int,
            ) || (taken == 0 && forall|other: int|
                0 <= other < formats.len() ==> !is_srgb(#[trigger] formats@[other]))),
            None => formats.len() == 0,
        },
{
    let mut srgb: Vec<bool> = Vec::new();
    let mut place: usize = 0;
    while place < formats.len()
        invariant
            place <= formats.len(),
            srgb.len() == place,
            forall|seen: int| 0 <= seen < place ==> srgb@[seen] == is_srgb(formats@[seen]),
        decreases formats.len() - place,
    {
        srgb.push(formats[place].is_srgb());
        place = place + 1;
    }
    assert(srgb@ =~= srgb_flags(formats@));
    let taken = preferred_format(&srgb);
    proof {
        if forall|other: int| 0 <= other < srgb.len() ==> !srgb@[other] {
            assert forall|other: int| 0 <= other < formats.len() implies !is_srgb(
                #[trigger] formats@[other],
            ) by {
                assert(!srgb@[other]);
            }
        }
    }
    taken
}

/// Why no frame could be had from the surface.
#[derive(Clone, Copy, Debug, PartialEq, Eq, Structural)]
pub enum SurfaceFault {
    Timeout,
    Outdated,
    Lost,
    OutOfMemory,
    Other,
}

/// What to do about a frame that could not be had.
#[derive(Clone, Copy, Debug, PartialEq, Eq, Structural)]
pub enum Recovery {
    /// Configure the surface anew at the size of the window.
    Reconfigure,
    /// Give up and leave the event loop.
    Exit,
    /// Say so and try again with the next frame.
    Report,
}

impl SurfaceFault {
    pub open spec fn spec_recovery(self) -> Recovery {
        match self {
            SurfaceFault::Lost | SurfaceFault::Outdated => Recovery::Reconfigure,
            SurfaceFault::OutOfMemory => Recovery::Exit,
            SurfaceFault::Timeout | SurfaceFault::Other => Recovery::Report,
        }
    }

    /// A lost or outdated surface is configured anew; without memory the
    /// program ends; anything else is reported and the frame dropped.
    pub fn recovery(self) -> (recovery: Recovery)
        ensures
            recovery == self.spec_recovery(),
    {
        match self {
            SurfaceFault::Lost | SurfaceFault::Outdated => Recovery::Reconfigure,
            SurfaceFault::OutOfMemory => Recovery::Exit,
            SurfaceFault::Timeout | SurfaceFault::Other => Recovery::Report,
        }
    }
}

} // verus!
