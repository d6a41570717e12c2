//! The presentable surface: its configuration, its capabilities, the choice
//! of color format, the depth attachment that must track its size, and the
//! recovery policy for the errors the presentation engine reports.

use vstd::prelude::*;

verus! {

/// A color format the surface can present, as the host reports it: an opaque
/// tag of the host's choosing plus whether the format is perceptually
/// (sRGB) encoded.
#[derive(Clone, Copy, Debug, PartialEq, Eq, Structural)]
pub struct SurfaceFormat {
    pub id: u32,
    pub srgb: bool,
}

/// What the surface reports it can do. Present and alpha modes are opaque
/// tags of the host's choosing, listed in the order the surface prefers.
#[derive(Debug)]
pub struct SurfaceCaps {
    pub formats: Vec<SurfaceFormat>,
    pub present_modes: Vec<u32>,
    pub alpha_modes: Vec<u32>,
}

/// The configuration the surface is currently presented with. Width and
/// height mirror the window's physical pixel size and stay positive: a
/// resize to a zero dimension is refused and the previous configuration
/// retained.
#[derive(Clone, Copy, Debug, PartialEq, Eq, Structural)]
pub struct SurfaceConfig {
    pub format: SurfaceFormat,
    pub width: u32,
    pub height: u32,
    pub present_mode: u32,
    pub alpha_mode: u32,
}

/// The first perceptually encoded format of `s`, if any.
pub open spec fn first_srgb(s: Seq<SurfaceFormat>) -> Option<SurfaceFormat>
    decreases s.len(),
{
    if s.len() == 0 {
        None
    } else if s[0].srgb {
        Some(s[0])
    } else {
        first_srgb(s.drop_first())
    }
}

/// The format the renderer configures the surface with: the first
/// perceptually encoded one, or the capability list's first entry when none
/// is.
pub open spec fn spec_selected_format(s: Seq<SurfaceFormat>) -> SurfaceFormat
    recommends
        s.len() > 0,
{
    match first_srgb(s) {
        Some(f) => f,
        None => s[0],
    }
}

proof fn lemma_first_srgb_skip(s: Seq<SurfaceFormat>, i: int)
    requires
        0 <= i <= s.len(),
        forall|j: int| 0 <= j < i ==> !s[j].srgb,
    ensures
        first_srgb(s) == first_srgb(s.skip(i)),
    decreases i,
{
    if i > 0 {
        lemma_first_srgb_skip(s, i - 1);
        assert(s.skip(i - 1).len() > 0);
        assert(s.skip(i - 1)[0] == s[i - 1]);
        assert(!s.skip(i - 1)[0].srgb);
        assert(s.skip(i - 1).drop_first() =~= s.skip(i));
    } else {
        assert(s.skip(0) =~= s);
    }
}

/// Picks the color format for the surface configuration: the first sRGB
/// entry of the capability list, else its first entry.
pub fn select_surface_format(formats: &Vec<SurfaceFormat>) -> (r: SurfaceFormat)
    requires
        formats@.len() > 0,
    ensures
        r == spec_selected_format(formats@),
        first_srgb(formats@) matches Some(f) ==> r == f && r.srgb,
        first_srgb(formats@) is None ==> r == formats@[0],
{
    let mut i: usize = 0;
    while i < formats.len()
        invariant
            i <= formats@.len(),
            forall|j: int| 0 <= j < i ==> !formats@[j].srgb,
        decreases formats@.len() - i,
    {
        if formats[i].srgb {
            proof {
                lemma_first_srgb_skip(formats@, i as int);
                assert(formats@.skip(i as int)[0] == formats@[i as int]);
            }
            return formats[i];
        }
        i = i + 1;
    }
    proof {
        lemma_first_srgb_skip(formats@, formats@.len() as int);
        assert(formats@.skip(formats@.len() as int) =~= Seq::<SurfaceFormat>::empty());
    }
    formats[0]
}

/// An error reported while acquiring the next presentable surface image.
#[derive(Clone, Copy, Debug, PartialEq, Eq, Structural)]
pub enum SurfaceError {
    /// The surface was lost and must be reconfigured.
    Lost,
    /// The configuration no longer matches the surface and must be
    /// reapplied.
    Outdated,
    /// The presentation engine is out of memory.
    OutOfMemory,
    /// Acquiring the image took too long this frame.
    Timeout,
}

/// What the host shell does about a failed frame.
#[derive(Clone, Copy, Debug, PartialEq, Eq, Structural)]
pub enum RecoveryAction {
    /// Reapply the last known configuration at its stored size and retry.
    ReconfigureSurface,
    /// Not recoverable: terminate.
    Exit,
    /// Transient: skip this frame and let the next redraw retry.
    SkipFrame,
}

/// The recovery policy: a lost or outdated surface is reconfigured at the
/// last known size, out of memory is fatal, and a timeout only skips the
/// frame.
pub fn surface_error_action(e: &SurfaceError) -> (a: RecoveryAction)
    ensures
        a == RecoveryAction::ReconfigureSurface <==> (e is Lost || e is Outdated),
        a == RecoveryAction::Exit <==> e is OutOfMemory,
        a == RecoveryAction::SkipFrame <==> e is Timeout,
{
    match e {
        SurfaceError::Lost | SurfaceError::Outdated => RecoveryAction::ReconfigureSurface,
        SurfaceError::OutOfMemory => RecoveryAction::Exit,
        SurfaceError::Timeout => RecoveryAction::SkipFrame,
    }
}

/// The depth attachment. Its format is fixed by the pipeline; its dimensions
/// are immutable once allocated, so a reconfigured surface always gets a
/// freshly created texture rather than a resized one.
#[derive(Clone, Copy, Debug, PartialEq, Eq, Structural)]
pub struct DepthTexture {
    pub width: u32,
    pub height: u32,
}

/// Allocates the depth attachment for the configured surface, sized exactly
/// to it.
pub fn create_depth_texture(config: &SurfaceConfig) -> (t: DepthTexture)
    ensures
        t.width == config.width,
        t.height == config.height,
{
    DepthTexture { width: config.width, height: config.height }
}

} // verus!
