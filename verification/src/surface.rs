//! The negotiated GPU surface: capability reports, the format selection
//! rule, and the swapchain configuration with its resize protocol.

use vstd::prelude::*;

verus! {

/// One pixel format that the surface/adapter pair reports as supported.
///
/// `code` identifies the format to the host (for example its position in the
/// platform's reported list); `srgb` says whether the format is sRGB-encoded.
#[derive(Clone, Copy, PartialEq, Eq, Structural, Debug)]
pub struct SurfaceFormat {
    pub code: u32,
    pub srgb: bool,
}

/// Whether any format in `s` is sRGB-encoded.
pub open spec fn has_srgb(s: Seq<SurfaceFormat>) -> bool {
    exists|i: int| 0 <= i < s.len() && s[i].srgb
}

/// The format the negotiation picks from a non-empty reported list: the
/// first sRGB-encoded format in list order, or the first entry when no
/// sRGB format is reported.
pub open spec fn spec_selected_format(s: Seq<SurfaceFormat>) -> SurfaceFormat
    recommends
        s.len() > 0,
    decreases s.len(),
{
    if s.len() == 0 {
        SurfaceFormat { code: 0, srgb: false }
    } else if s[0].srgb {
        s[0]
    } else if has_srgb(s.skip(1)) {
        spec_selected_format(s.skip(1))
    } else {
        s[0]
    }
}

/// The selected format is the entry at the first sRGB position when one
/// exists.
pub proof fn lemma_selected_format_first_srgb(s: Seq<SurfaceFormat>, i: int)
    requires
        0 <= i < s.len(),
        s[i].srgb,
        forall|j: int| 0 <= j < i ==> !(#[trigger] s[j]).srgb,
    ensures
        spec_selected_format(s) == s[i],
        spec_selected_format(s).srgb,
    decreases i,
{
    if i == 0 {
        assert(s[0].srgb);
    } else {
        assert(!s[0].srgb);
        let t = s.skip(1);
        assert(t[i - 1] == s[i]);
        assert(has_srgb(t));
        assert(forall|j: int| 0 <= j < i - 1 ==> !(#[trigger] t[j]).srgb) by {
            assert(forall|j: int| 0 <= j < i - 1 ==> t[j] == s[j + 1]);
        }
        lemma_selected_format_first_srgb(t, i - 1);
    }
}

/// When no reported format is sRGB-encoded, the first entry is selected.
pub proof fn lemma_selected_format_no_srgb(s: Seq<SurfaceFormat>)
    requires
        s.len() > 0,
        !has_srgb(s),
    ensures
        spec_selected_format(s) == s[0],
{
    assert(!s[0].srgb);
    if has_srgb(s.skip(1)) {
        let i = choose|i: int| 0 <= i < s.skip(1).len() && s.skip(1)[i].srgb;
        assert(s.skip(1)[i] == s[i + 1]);
        assert(has_srgb(s));
    }
}

/// Picks the swapchain pixel format from the reported list: the first
/// sRGB-capable entry in list order, else the first entry.
pub fn select_format(formats: &Vec<SurfaceFormat>) -> (r: SurfaceFormat)
    requires
        formats@.len() > 0,
    ensures
        r == spec_selected_format(formats@),
        has_srgb(formats@) ==> r.srgb,
        !has_srgb(formats@) ==> r == formats@[0],
{
    let n = formats.len();
    let mut i: usize = 0;
    while i < n
        invariant
            n == formats@.len(),
            0 <= i <= n,
            forall|j: int| 0 <= j < i ==> !(#[trigger] formats@[j]).srgb,
        decreases n - i,
    {
        if formats[i].srgb {
            proof {
                lemma_selected_format_first_srgb(formats@, i as int);
            }
            return formats[i];
        }
        i += 1;
    }
    proof {
        lemma_selected_format_no_srgb(formats@);
    }
    formats[0]
}

/// What the surface reports as supported against the chosen adapter:
/// pixel formats, present modes and alpha modes, each in the order the
/// platform reported them. Present and alpha modes are carried as opaque
/// numeric codes assigned by the host when it translates the report.
pub struct SurfaceCaps {
    pub formats: Vec<SurfaceFormat>,
    pub present_modes: Vec<u32>,
    pub alpha_modes: Vec<u32>,
}

impl SurfaceCaps {
    /// A capability report is usable only when every list is non-empty.
    pub open spec fn wf(&self) -> bool {
        self.formats@.len() > 0 && self.present_modes@.len() > 0 && self.alpha_modes@.len() > 0
    }
}

/// The swapchain configuration: pixel format, drawable size in physical
/// pixels, present mode and alpha mode (the latter two as the host's codes).
#[derive(Clone, Copy, PartialEq, Eq, Structural, Debug)]
pub struct SurfaceConfig {
    pub format: SurfaceFormat,
    pub width: u32,
    pub height: u32,
    pub present_mode: u32,
    pub alpha_mode: u32,
}

/// The negotiated GPU context as the frame driver sees it: the swapchain
/// configuration and the last known drawable size. Format, present mode and
/// alpha mode are fixed at construction; only the size changes afterwards.
#[derive(Clone, Copy, PartialEq, Eq, Structural, Debug)]
pub struct GraphicsContext {
    pub config: SurfaceConfig,
    /// Last known drawable width in physical pixels.
    pub current_width: u32,
    /// Last known drawable height in physical pixels.
    pub current_height: u32,
}

/// The context after a resize request: a request with both dimensions
/// positive becomes the configured and recorded size; a request with a zero
/// dimension (as windowing systems report during minimization) leaves the
/// context unchanged.
pub open spec fn spec_reconfigure(c: GraphicsContext, width: u32, height: u32) -> GraphicsContext {
    if width > 0 && height > 0 {
        GraphicsContext {
            config: SurfaceConfig { width, height, ..c.config },
            current_width: width,
            current_height: height,
        }
    } else {
        c
    }
}

impl GraphicsContext {
    /// The recorded size and the configured size always agree.
    pub open spec fn wf(&self) -> bool {
        self.current_width == self.config.width && self.current_height == self.config.height
    }

    /// Whether the surface is configured: configuration is applied only once
    /// both dimensions are positive; a zero size is permitted transiently at
    /// construction.
    pub open spec fn configured(&self) -> bool {
        self.config.width > 0 && self.config.height > 0
    }

    /// Builds the context from the translated capability report and the
    /// window's current drawable size, selecting the pixel format (first
    /// sRGB entry, else the first), the first reported present mode and the
    /// first reported alpha mode.
    pub fn new(caps: &SurfaceCaps, width: u32, height: u32) -> (c: GraphicsContext)
        requires
            caps.wf(),
        ensures
            c.wf(),
            c.config.format == spec_selected_format(caps.formats@),
            c.config.present_mode == caps.present_modes@[0],
            c.config.alpha_mode == caps.alpha_modes@[0],
            c.config.width == width,
            c.config.height == height,
            c.configured() <==> (width > 0 && height > 0),
    {
        let format = select_format(&caps.formats);
        GraphicsContext {
            config: SurfaceConfig {
                format,
                width,
                height,
                present_mode: caps.present_modes[0],
                alpha_mode: caps.alpha_modes[0],
            },
            current_width: width,
            current_height: height,
        }
    }

    /// Applies a resize request. Returns whether the surface must be
    /// reconfigured: true exactly when both dimensions are positive; a
    /// zero-sized request is a no-op that preserves the previous
    /// configuration.
    pub fn reconfigure(&mut self, width: u32, height: u32) -> (apply: bool)
        ensures
            *final(self) == spec_reconfigure(*old(self), width, height),
            apply <==> (width > 0 && height > 0),
            apply ==> final(self).config.width == width && final(self).config.height == height
                && final(self).configured(),
            !apply ==> *final(self) == *old(self),
            final(self).config.format == old(self).config.format,
            final(self).config.present_mode == old(self).config.present_mode,
            final(self).config.alpha_mode == old(self).config.alpha_mode,
            old(self).wf() ==> final(self).wf(),
    {
        if width > 0 && height > 0 {
            self.config.width = width;
            self.config.height = height;
            self.current_width = width;
            self.current_height = height;
            true
        } else {
            false
        }
    }

    /// Whether the surface is configured and may be rendered to.
    pub fn is_configured(&self) -> (b: bool)
        ensures
            b == self.configured(),
    {
        self.config.width > 0 && self.config.height > 0
    }
}

/// Law: a resize to a positive size configures exactly that size and records
/// it as the current size, leaving format, present mode and alpha mode
/// unchanged; a request with a zero dimension changes nothing.
pub proof fn lemma_reconfigure_size(c: GraphicsContext, width: u32, height: u32)
    ensures
        width > 0 && height > 0 ==> spec_reconfigure(c, width, height).config.width == width,
        width > 0 && height > 0 ==> spec_reconfigure(c, width, height).config.height == height,
        width > 0 && height > 0 ==> spec_reconfigure(c, width, height).current_width == width,
        width > 0 && height > 0 ==> spec_reconfigure(c, width, height).current_height == height,
        width > 0 && height > 0 ==> spec_reconfigure(c, width, height).wf(),
        spec_reconfigure(c, width, height).config.format == c.config.format,
        spec_reconfigure(c, width, height).config.present_mode == c.config.present_mode,
        spec_reconfigure(c, width, height).config.alpha_mode == c.config.alpha_mode,
        !(width > 0 && height > 0) ==> spec_reconfigure(c, width, height) == c,
{
}

/// Law: resizing is idempotent — repeating a resize request any number of
/// times leaves the context exactly as the first application did, whether
/// the request was positive or a zero-sized no-op.
pub proof fn lemma_reconfigure_idempotent(c: GraphicsContext, width: u32, height: u32)
    ensures
        spec_reconfigure(spec_reconfigure(c, width, height), width, height) == spec_reconfigure(
            c,
            width,
            height,
        ),
{
}

} // verus!
