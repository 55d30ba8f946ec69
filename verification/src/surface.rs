//! The presentation surface: the per-window target and its configuration.
//!
//! Creating the OS surface and acquiring frame images are the frame loop's
//! work; this module owns the configuration: which format is chosen from
//! the adapter's capabilities, how resizing changes the configuration, and
//! what a frame does when acquisition fails.

use vstd::prelude::*;

verus! {

use crate::error::SurfaceErrorKind;
use crate::texture::TextureFormat;

/// Usage bit: the surface's images are render attachments.
pub const TEXTURE_USAGE_RENDER_ATTACHMENT: u32 = 0x10;

/// When the surface presents.
#[derive(Clone, Copy, Debug, PartialEq, Eq, Structural)]
pub enum PresentMode {
    /// Present in step with the display's refresh.
    Fifo,
    /// Present immediately, tearing allowed.
    Immediate,
    /// Present the newest finished frame at refresh.
    Mailbox,
}

/// The configuration a surface is (re)configured with.
#[derive(Clone, Copy, Debug, PartialEq, Eq, Structural)]
pub struct SurfaceConfiguration {
    pub usage: u32,
    pub format: TextureFormat,
    pub width: u32,
    pub height: u32,
    pub present_mode: PresentMode,
    pub desired_maximum_frame_latency: u32,
}

/// The first sRGB format the adapter offers, if any.
pub open spec fn find_srgb(formats: Seq<TextureFormat>) -> Option<TextureFormat>
    decreases formats.len(),
{
    if formats.len() == 0 {
        None
    } else if formats[0].spec_is_srgb() {
        Some(formats[0])
    } else {
        find_srgb(formats.drop_first())
    }
}

/// The format a surface chooses from the adapter's capability list: the
/// first sRGB format, or the first format of all when none is sRGB.
pub open spec fn spec_choose_format(formats: Seq<TextureFormat>) -> TextureFormat
    recommends
        formats.len() > 0,
{
    match find_srgb(formats) {
        Some(f) => f,
        None => formats[0],
    }
}

/// What the frame loop does after a failed frame-image acquisition.
#[derive(Clone, Copy, Debug, PartialEq, Eq, Structural)]
pub enum FrameAction {
    /// Skip this frame; try again next frame.
    SkipFrame,
    /// Reconfigure the surface, then skip this frame.
    ReconfigureAndSkip,
    /// Unrecoverable; the application must stop.
    Fatal,
}

/// The frame loop's response to each acquisition failure: a lost surface is
/// reconfigured and the frame skipped; out-of-memory is fatal; everything
/// else skips the frame. No failure crosses the frame boundary.
pub fn action_for_surface_error(kind: SurfaceErrorKind) -> (r: FrameAction)
    ensures
        r == match kind {
            SurfaceErrorKind::Lost => FrameAction::ReconfigureAndSkip,
            SurfaceErrorKind::OutOfMemory => FrameAction::Fatal,
            _ => FrameAction::SkipFrame,
        },
{
    match kind {
        SurfaceErrorKind::Lost => FrameAction::ReconfigureAndSkip,
        SurfaceErrorKind::OutOfMemory => FrameAction::Fatal,
        _ => FrameAction::SkipFrame,
    }
}

/// The per-window presentation target.
#[derive(Debug)]
pub struct Surface {
    /// The current configuration.
    pub config: SurfaceConfiguration,
    /// The chosen image format.
    pub format: TextureFormat,
    /// Whether the configuration has been applied to the OS surface.
    pub is_configured: bool,
}

impl Surface {
    /// A surface over a window of the given inner size, choosing its format
    /// from the adapter's capability list: the first sRGB format, else the
    /// first offered. Degenerate window sizes are clamped to one pixel. The
    /// surface still has to be configured before its first frame.
    pub fn new(width: u32, height: u32, formats: &Vec<TextureFormat>) -> (r: Surface)
        requires
            formats@.len() > 0,
        ensures
            r.format == spec_choose_format(formats@),
            r.config == (SurfaceConfiguration {
                usage: TEXTURE_USAGE_RENDER_ATTACHMENT,
                format: spec_choose_format(formats@),
                width: if width > 0 { width } else { 1u32 },
                height: if height > 0 { height } else { 1u32 },
                present_mode: PresentMode::Fifo,
                desired_maximum_frame_latency: 2u32,
            }),
            !r.is_configured,
    {
        let mut i: usize = 0;
        let mut chosen: Option<TextureFormat> = None;
        while i < formats.len()
            invariant
                i <= formats@.len(),
                chosen is None ==> find_srgb(formats@.take(i as int)) is None,
                chosen matches Some(f) ==> find_srgb(formats@) matches Some(g) && f == g,
            decreases formats@.len() - i,
        {
            if chosen.is_none() {
                if formats[i].is_srgb() {
                    chosen = Some(formats[i]);
                    proof {
                        lemma_find_srgb_extend(formats@, i as int);
                    }
                } else {
                    proof {
                        lemma_find_srgb_none_extend(formats@, i as int);
                    }
                }
            }
            i = i + 1;
        }
        let format = match chosen {
            Some(f) => f,
            None => {
                proof {
                    assert(formats@.take(formats@.len() as int) =~= formats@);
                }
                formats[0]
            },
        };
        Surface {
            config: SurfaceConfiguration {
                usage: TEXTURE_USAGE_RENDER_ATTACHMENT,
                format,
                width: if width > 0 {
                    width
                } else {
                    1
                },
                height: if height > 0 {
                    height
                } else {
                    1
                },
                present_mode: PresentMode::Fifo,
                desired_maximum_frame_latency: 2,
            },
            format,
            is_configured: false,
        }
    }

    /// Apply the current configuration to the OS surface.
    pub fn configure(&mut self)
        ensures
            *final(self) == (Surface { is_configured: true, ..*old(self) }),
    {
        self.is_configured = true;
    }

    /// Resize: with both dimensions positive, the configuration takes the
    /// new extent and is applied; with either dimension zero this is a
    /// no-op — configuration and allocation stay exactly as they were.
    pub fn resize(&mut self, width: u32, height: u32)
        ensures
            width > 0 && height > 0 ==> *final(self) == (Surface {
                config: SurfaceConfiguration { width, height, ..old(self).config },
                is_configured: true,
                ..*old(self)
            }),
            !(width > 0 && height > 0) ==> *final(self) == *old(self),
    {
        if width > 0 && height > 0 {
            self.config = SurfaceConfiguration { width, height, ..self.config };
            self.configure();
        }
    }

    /// The chosen image format.
    pub fn format(&self) -> (r: TextureFormat)
        ensures
            r == self.format,
    {
        self.format
    }

    /// Whether the configuration has been applied.
    pub fn is_configured(&self) -> (r: bool)
        ensures
            r == self.is_configured,
    {
        self.is_configured
    }

    /// The configured width.
    pub fn width(&self) -> (r: u32)
        ensures
            r == self.config.width,
    {
        self.config.width
    }

    /// The configured height.
    pub fn height(&self) -> (r: u32)
        ensures
            r == self.config.height,
    {
        self.config.height
    }
}

/// If no sRGB format stands before `i` and `formats[i]` is sRGB, then it is
/// the first sRGB format of the whole list.
proof fn lemma_find_srgb_extend(formats: Seq<TextureFormat>, i: int)
    requires
        0 <= i < formats.len(),
        find_srgb(formats.take(i)) is None,
        formats[i].spec_is_srgb(),
    ensures
        find_srgb(formats) matches Some(g) && g == formats[i],
    decreases i,
{
    if i == 0 {
    } else {
        assert(formats.take(i)[0] == formats[0]);
        assert(!formats[0].spec_is_srgb());
        assert(formats.take(i).drop_first() =~= formats.drop_first().take(i - 1));
        lemma_find_srgb_extend(formats.drop_first(), i - 1);
    }
}

/// If no sRGB format stands before `i` and `formats[i]` is not sRGB either,
/// none stands before `i + 1`.
proof fn lemma_find_srgb_none_extend(formats: Seq<TextureFormat>, i: int)
    requires
        0 <= i < formats.len(),
        find_srgb(formats.take(i)) is None,
        !formats[i].spec_is_srgb(),
    ensures
        find_srgb(formats.take(i + 1)) is None,
    decreases i,
{
    if i == 0 {
        assert(formats.take(1)[0] == formats[0]);
        assert(formats.take(1).drop_first() =~= Seq::<TextureFormat>::empty());
    } else {
        assert(formats.take(i)[0] == formats[0]);
        assert(!formats[0].spec_is_srgb());
        assert(formats.take(i).drop_first() =~= formats.drop_first().take(i - 1));
        assert(formats.take(i + 1)[0] == formats[0]);
        assert(formats.take(i + 1).drop_first() =~= formats.drop_first().take(i));
        assert(formats.drop_first()[i - 1] == formats[i]);
        lemma_find_srgb_none_extend(formats.drop_first(), i - 1);
    }
}

} // verus!
