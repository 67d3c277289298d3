//! The drawing surface as the engine sees it: which pixel format it gets,
//! how large it may be, and what to do when a frame cannot be had.
//!
//! Everything here is a decision on values that the host has read from the
//! device. Creating, configuring and releasing the GPU objects is the host's
//! part; it does what these functions return.

use vstd::prelude::*;

verus! {

/// A pixel format that a surface can be configured with. The four named
/// formats are the ones the engine prefers; any other format is carried by
/// the code the host gave it, with whether it is an sRGB format.
#[derive(Clone, Copy, Debug, PartialEq, Eq, Structural)]
pub enum PixelFormat {
    Rgba8UnormSrgb,
    Bgra8UnormSrgb,
    Bgra8Unorm,
    Rgba8Unorm,
    Other { code: u32, srgb: bool },
}

/// How finished frames are queued for display.
#[derive(Clone, Copy, Debug, PartialEq, Eq, Structural)]
pub enum PresentMode {
    Fifo,
    AutoVsync,
}

/// The kind of host that embeds the engine.
#[derive(Clone, Copy, Debug, PartialEq, Eq, Structural)]
pub enum Platform {
    /// A native window or a mobile activity.
    Native,
    /// A browser canvas.
    Web,
}

/// A graphics backend that a browser host can try.
#[derive(Clone, Copy, Debug, PartialEq, Eq, Structural)]
pub enum Backend {
    BrowserWebGpu,
    Gl,
}

/// Which device limits to request with a backend.
#[derive(Clone, Copy, Debug, PartialEq, Eq, Structural)]
pub enum LimitsPolicy {
    /// Request exactly what the adapter reports.
    AdapterLimits,
    /// Request the conservative downlevel limits, with the texture dimension
    /// raised to what the adapter reports.
    DownlevelWithAdapterTextureSize,
}

/// Why a surface could not be set up.
#[derive(Clone, Copy, Debug, PartialEq, Eq, Structural)]
pub enum InitError {
    SurfaceCreation,
    AdapterSelection,
    DeviceCreation,
    /// The device reported no pixel format at all where one was needed.
    NoSurfaceFormat,
}

/// Why the next frame target could not be acquired.
#[derive(Clone, Copy, Debug, PartialEq, Eq, Structural)]
pub enum AcquireError {
    Timeout,
    Outdated,
    Lost,
    OutOfMemory,
    Other,
}

/// What to do about a frame target that could not be acquired.
#[derive(Clone, Copy, Debug, PartialEq, Eq, Structural)]
pub enum Recovery {
    /// The surface is gone for good: drop all surface state.
    ReleaseSurface,
    /// Configure the surface again and try on the next call.
    Reconfigure,
    /// Do nothing but leave this frame out.
    SkipFrame,
}

/// What the host has read from the device it created.
#[derive(Debug)]
pub struct DeviceCaps {
    /// The pixel formats the surface supports, in the order reported.
    pub formats: Vec<PixelFormat>,
    /// The largest width and height of a 2D texture.
    pub max_dimension: u32,
}

/// The surface's configuration. Width and height never exceed
/// `max_dimension`, the largest texture dimension the device reported.
#[derive(Clone, Copy, Debug, PartialEq, Eq, Structural)]
pub struct SurfaceConfig {
    pub width: u32,
    pub height: u32,
    pub format: PixelFormat,
    pub present_mode: PresentMode,
    pub max_dimension: u32,
}

/// The number of formats in the engine's preference order.
pub const PREFERRED_FORMATS: usize = 4;

impl PixelFormat {
    /// Whether the format stores colour in the sRGB transfer curve.
    pub open spec fn spec_is_srgb(self) -> bool {
        match self {
            PixelFormat::Rgba8UnormSrgb => true,
            PixelFormat::Bgra8UnormSrgb => true,
            PixelFormat::Bgra8Unorm => false,
            PixelFormat::Rgba8Unorm => false,
            PixelFormat::Other { code, srgb } => srgb,
        }
    }

    /// Whether the format stores colour in the sRGB transfer curve.
    pub fn is_srgb(self) -> (b: bool)
        ensures
            b == self.spec_is_srgb(),
    {
        match self {
            PixelFormat::Rgba8UnormSrgb => true,
            PixelFormat::Bgra8UnormSrgb => true,
            PixelFormat::Bgra8Unorm => false,
            PixelFormat::Rgba8Unorm => false,
            PixelFormat::Other { code: _, srgb } => srgb,
        }
    }

    /// The format at a rank of the preference order: the two sRGB 8-bit
    /// formats first, then their linear counterparts.
    pub open spec fn spec_preferred(rank: int) -> PixelFormat {
        if rank == 0 {
            PixelFormat::Rgba8UnormSrgb
        } else if rank == 1 {
            PixelFormat::Bgra8UnormSrgb
        } else if rank == 2 {
            PixelFormat::Bgra8Unorm
        } else {
            PixelFormat::Rgba8Unorm
        }
    }

    /// The format at a rank of the preference order, if the order has that
    /// many ranks.
    pub fn preferred(rank: usize) -> (f: Option<PixelFormat>)
        ensures
            f.is_some() == (rank < PREFERRED_FORMATS),
            f matches Some(format) ==> format == Self::spec_preferred(rank as int),
    {
        if rank == 0 {
            Some(PixelFormat::Rgba8UnormSrgb)
        } else if rank == 1 {
            Some(PixelFormat::Bgra8UnormSrgb)
        } else if rank == 2 {
            Some(PixelFormat::Bgra8Unorm)
        } else if rank == 3 {
            Some(PixelFormat::Rgba8Unorm)
        } else {
            None
        }
    }
}

/// Whether `formats` holds `wanted`.
pub fn supports(formats: &Vec<PixelFormat>, wanted: PixelFormat) -> (found: bool)
    ensures
        found == formats@.contains(wanted),
{
    let mut i: usize = 0;
    while i < formats.len()
        invariant
            i <= formats.len(),
            forall|j: int| 0 <= j < i ==> formats@[j] != wanted,
        decreases formats.len() - i,
    {
        if formats[i] == wanted {
            return true;
        }
        i += 1;
    }
    false
}

/// The lowest rank of the preference order whose format `formats` holds, or
/// `PREFERRED_FORMATS` if it holds none of them.
pub open spec fn best_rank(formats: Seq<PixelFormat>) -> int {
    if formats.contains(PixelFormat::spec_preferred(0)) {
        0
    } else if formats.contains(PixelFormat::spec_preferred(1)) {
        1
    } else if formats.contains(PixelFormat::spec_preferred(2)) {
        2
    } else if formats.contains(PixelFormat::spec_preferred(3)) {
        3
    } else {
        PREFERRED_FORMATS as int
    }
}

/// The format a native host configures: the most preferred format that the
/// surface supports; if it supports none of the preferred ones, the first
/// format it reported; if it reported none, `Rgba8UnormSrgb`.
pub open spec fn chosen_format(formats: Seq<PixelFormat>) -> PixelFormat {
    if best_rank(formats) < PREFERRED_FORMATS {
        PixelFormat::spec_preferred(best_rank(formats))
    } else if formats.len() > 0 {
        formats[0]
    } else {
        PixelFormat::Rgba8UnormSrgb
    }
}

/// Picks the pixel format for a native surface from the formats it reported.
pub fn choose_format(formats: &Vec<PixelFormat>) -> (format: PixelFormat)
    ensures
        format == chosen_format(formats@),
{
    let mut rank: usize = 0;
    while rank < PREFERRED_FORMATS
        invariant
            rank <= PREFERRED_FORMATS,
            forall|r: int| 0 <= r < rank ==> !formats@.contains(PixelFormat::spec_preferred(r)),
        decreases PREFERRED_FORMATS - rank,
    {
        match PixelFormat::preferred(rank) {
            Some(candidate) => {
                if supports(formats, candidate) {
                    return candidate;
                }
            },
            None => {},
        }
        rank += 1;
    }
    if formats.len() > 0 {
        formats[0]
    } else {
        PixelFormat::Rgba8UnormSrgb
    }
}

/// The position of the first sRGB format in `formats`, or its length if it
/// holds none.
pub open spec fn first_srgb(formats: Seq<PixelFormat>) -> int
    decreases formats.len(),
{
    if formats.len() == 0 {
        0
    } else if formats[0].spec_is_srgb() {
        0
    } else {
        1 + first_srgb(formats.subrange(1, formats.len() as int))
    }
}

/// The format a browser host configures: the first sRGB format reported; if
/// there is none, the first format reported; nothing if none was reported.
pub open spec fn chosen_srgb_format(formats: Seq<PixelFormat>) -> Option<PixelFormat> {
    if formats.len() == 0 {
        None
    } else if first_srgb(formats) < formats.len() {
        Some(formats[first_srgb(formats)])
    } else {
        Some(formats[0])
    }
}

/// `first_srgb` is the least position of an sRGB format: everything before
/// it is not sRGB, and what stands at it is, where it is a position at all.
pub proof fn lemma_first_srgb(formats: Seq<PixelFormat>)
    ensures
        0 <= first_srgb(formats) <= formats.len(),
        forall|j: int| 0 <= j < first_srgb(formats) ==> !(#[trigger] formats[j]).spec_is_srgb(),
        first_srgb(formats) < formats.len() ==> formats[first_srgb(formats)].spec_is_srgb(),
    decreases formats.len(),
{
    if formats.len() > 0 && !formats[0].spec_is_srgb() {
        let rest = formats.subrange(1, formats.len() as int);
        lemma_first_srgb(rest);
        assert forall|j: int| 0 <= j < first_srgb(formats) implies !(#[trigger] formats[j]).spec_is_srgb() by {
            if j > 0 {
                assert(formats[j] == rest[j - 1]);
            }
        }
        if first_srgb(formats) < formats.len() {
            assert(formats[first_srgb(formats)] == rest[first_srgb(rest)]);
        }
    }
}

/// A position `at` that holds an sRGB format, with none before it, is
/// `first_srgb`; and if no position holds one, `first_srgb` is the length.
proof fn lemma_first_srgb_is(formats: Seq<PixelFormat>, at: int)
    requires
        0 <= at <= formats.len(),
        forall|j: int| 0 <= j < at ==> !(#[trigger] formats[j]).spec_is_srgb(),
        at < formats.len() ==> formats[at].spec_is_srgb(),
    ensures
        first_srgb(formats) == at,
{
    lemma_first_srgb(formats);
    let f = first_srgb(formats);
    if f < at {
        assert(!formats[f].spec_is_srgb());
    } else if at < f {
        assert(!formats[at].spec_is_srgb());
    }
}

/// Picks the pixel format for a browser surface from the formats it reported.
pub fn choose_srgb_format(formats: &Vec<PixelFormat>) -> (format: Option<PixelFormat>)
    ensures
        format == chosen_srgb_format(formats@),
{
    if formats.len() == 0 {
        return None;
    }
    let mut i: usize = 0;
    while i < formats.len()
        invariant
            i <= formats.len(),
            forall|j: int| 0 <= j < i ==> !(#[trigger] formats@[j]).spec_is_srgb(),
        decreases formats.len() - i,
    {
        if formats[i].is_srgb() {
            proof {
                lemma_first_srgb_is(formats@, i as int);
            }
            return Some(formats[i]);
        }
        i += 1;
    }
    proof {
        lemma_first_srgb_is(formats@, formats@.len() as int);
    }
    Some(formats[0])
}

/// The backend to try after `failed` did not come up: WebGPU first, then GL
/// on a fresh canvas, then nothing.
pub open spec fn spec_next_backend(failed: Option<Backend>) -> Option<Backend> {
    match failed {
        None => Some(Backend::BrowserWebGpu),
        Some(Backend::BrowserWebGpu) => Some(Backend::Gl),
        Some(Backend::Gl) => None,
    }
}

/// The backend a browser host tries next. `failed` is the backend that was
/// tried last and did not come up, or nothing before the first attempt.
pub fn next_backend(failed: Option<Backend>) -> (next: Option<Backend>)
    ensures
        next == spec_next_backend(failed),
{
    match failed {
        None => Some(Backend::BrowserWebGpu),
        Some(Backend::BrowserWebGpu) => Some(Backend::Gl),
        Some(Backend::Gl) => None,
    }
}

/// The fallback chain is WebGPU, GL, end: it never tries a backend twice.
pub proof fn lemma_backend_chain()
    ensures
        spec_next_backend(None) == Some(Backend::BrowserWebGpu),
        spec_next_backend(spec_next_backend(None)) == Some(Backend::Gl),
        spec_next_backend(spec_next_backend(spec_next_backend(None))) == None::<Backend>,
{
}

/// The limits to request with a backend.
pub open spec fn spec_limits_policy(backend: Backend) -> LimitsPolicy {
    match backend {
        Backend::BrowserWebGpu => LimitsPolicy::AdapterLimits,
        Backend::Gl => LimitsPolicy::DownlevelWithAdapterTextureSize,
    }
}

/// The limits to request with a backend: WebGPU takes what the adapter
/// reports, GL the downlevel defaults with the adapter's texture dimension.
pub fn limits_policy(backend: Backend) -> (policy: LimitsPolicy)
    ensures
        policy == spec_limits_policy(backend),
{
    match backend {
        Backend::BrowserWebGpu => LimitsPolicy::AdapterLimits,
        Backend::Gl => LimitsPolicy::DownlevelWithAdapterTextureSize,
    }
}

/// A requested dimension, cut down to the device's maximum.
pub open spec fn clamped(requested: u32, max_dimension: u32) -> u32 {
    if requested <= max_dimension {
        requested
    } else {
        max_dimension
    }
}

/// Cuts a requested dimension down to the device's maximum.
pub fn clamp_dimension(requested: u32, max_dimension: u32) -> (d: u32)
    ensures
        d == clamped(requested, max_dimension),
{
    if requested <= max_dimension {
        requested
    } else {
        max_dimension
    }
}

/// What to do about an acquisition failure: a lost surface or exhausted
/// memory is final, a timeout calls for a new configuration, and anything
/// else costs one frame.
pub open spec fn recovery_for(error: AcquireError) -> Recovery {
    match error {
        AcquireError::Lost => Recovery::ReleaseSurface,
        AcquireError::OutOfMemory => Recovery::ReleaseSurface,
        AcquireError::Timeout => Recovery::Reconfigure,
        AcquireError::Outdated => Recovery::SkipFrame,
        AcquireError::Other => Recovery::SkipFrame,
    }
}

/// Classifies a failure to acquire the next frame target.
pub fn classify(error: AcquireError) -> (recovery: Recovery)
    ensures
        recovery == recovery_for(error),
{
    match error {
        AcquireError::Lost => Recovery::ReleaseSurface,
        AcquireError::OutOfMemory => Recovery::ReleaseSurface,
        AcquireError::Timeout => Recovery::Reconfigure,
        AcquireError::Outdated => Recovery::SkipFrame,
        AcquireError::Other => Recovery::SkipFrame,
    }
}

impl Platform {
    /// The present mode a host of this kind configures.
    pub open spec fn spec_present_mode(self) -> PresentMode {
        match self {
            Platform::Native => PresentMode::Fifo,
            Platform::Web => PresentMode::AutoVsync,
        }
    }

    /// The pixel format a host of this kind configures, if there is one.
    pub open spec fn spec_format(self, formats: Seq<PixelFormat>) -> Option<PixelFormat> {
        match self {
            Platform::Native => Some(chosen_format(formats)),
            Platform::Web => chosen_srgb_format(formats),
        }
    }
}

impl SurfaceConfig {
    /// The invariant: neither side exceeds the device's maximum.
    pub open spec fn wf(self) -> bool {
        self.width <= self.max_dimension && self.height <= self.max_dimension
    }

    /// The configuration for a surface with the given formats and maximum
    /// dimension, asked to be `width` by `height`: the format and present
    /// mode that the platform's rule picks, and the size cut down to the
    /// maximum. There is none where the platform's rule finds no format.
    pub open spec fn negotiated(
        platform: Platform,
        formats: Seq<PixelFormat>,
        max_dimension: u32,
        width: u32,
        height: u32,
    ) -> Option<SurfaceConfig> {
        match platform.spec_format(formats) {
            Some(format) => Some(
                SurfaceConfig {
                    width: clamped(width, max_dimension),
                    height: clamped(height, max_dimension),
                    format,
                    present_mode: platform.spec_present_mode(),
                    max_dimension,
                },
            ),
            None => None,
        }
    }

    /// Settles the configuration of a new surface from what the device
    /// reported and the size the host asked for.
    pub fn negotiate(platform: Platform, caps: &DeviceCaps, width: u32, height: u32) -> (config:
        Option<SurfaceConfig>)
        ensures
            config == Self::negotiated(platform, caps.formats@, caps.max_dimension, width, height),
            config matches Some(c) ==> c.wf(),
            platform == Platform::Native ==> config.is_some(),
    {
        let format = match platform {
            Platform::Native => Some(choose_format(&caps.formats)),
            Platform::Web => choose_srgb_format(&caps.formats),
        };
        let present_mode = match platform {
            Platform::Native => PresentMode::Fifo,
            Platform::Web => PresentMode::AutoVsync,
        };
        match format {
            Some(format) => Some(
                SurfaceConfig {
                    width: clamp_dimension(width, caps.max_dimension),
                    height: clamp_dimension(height, caps.max_dimension),
                    format,
                    present_mode,
                    max_dimension: caps.max_dimension,
                },
            ),
            None => None,
        }
    }

    /// Whether a resize to `width` by `height` is carried out: one with a
    /// zero side is ignored.
    pub open spec fn accepts_resize(width: u32, height: u32) -> bool {
        width > 0 && height > 0
    }

    /// The configuration after a resize to `width` by `height`: unchanged if
    /// either is zero, else with both cut down to the device's maximum.
    pub open spec fn resized(self, width: u32, height: u32) -> SurfaceConfig {
        if Self::accepts_resize(width, height) {
            SurfaceConfig {
                width: clamped(width, self.max_dimension),
                height: clamped(height, self.max_dimension),
                ..self
            }
        } else {
            self
        }
    }

    /// Resizes in place. Returns whether the surface has to be configured
    /// again, which is whenever neither side asked for is zero.
    pub fn resize(&mut self, width: u32, height: u32) -> (reconfigure: bool)
        ensures
            *final(self) == old(self).resized(width, height),
            reconfigure == Self::accepts_resize(width, height),
            reconfigure || old(self).wf() ==> final(self).wf(),
    {
        if width > 0 && height > 0 {
            self.width = clamp_dimension(width, self.max_dimension);
            self.height = clamp_dimension(height, self.max_dimension);
            true
        } else {
            false
        }
    }
}

/// A resize never leaves a side above the device's maximum, and a side that
/// was asked to be larger ends up exactly at the maximum.
pub proof fn lemma_resize_clamps(config: SurfaceConfig, width: u32, height: u32)
    requires
        width > 0,
        height > 0,
    ensures
        config.resized(width, height).wf(),
        config.resized(width, height).max_dimension == config.max_dimension,
        width > config.max_dimension ==> config.resized(width, height).width
            == config.max_dimension,
        height > config.max_dimension ==> config.resized(width, height).height
            == config.max_dimension,
        width <= config.max_dimension ==> config.resized(width, height).width == width,
        height <= config.max_dimension ==> config.resized(width, height).height == height,
{
}

} // verus!
