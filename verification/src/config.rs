//! Window and renderer options.

use vstd::prelude::*;

verus! {

/// The smallest width or height that a window or a surface is given.
pub const MIN_WINDOW_SIZE: u32 = 1;

/// A window size, either in device pixels or in DPI-scaled units.
#[derive(Copy, Clone, Debug, PartialEq, Eq, Structural)]
pub enum ResolutionConfig {
    /// Width and height in device pixels.
    Physical(u32, u32),
    /// Width and height in DPI-scaled units.
    Logical(u32, u32),
}

impl ResolutionConfig {
    pub open spec fn spec_width(&self) -> u32 {
        match *self {
            ResolutionConfig::Physical(w, _) => w,
            ResolutionConfig::Logical(w, _) => w,
        }
    }

    pub open spec fn spec_height(&self) -> u32 {
        match *self {
            ResolutionConfig::Physical(_, h) => h,
            ResolutionConfig::Logical(_, h) => h,
        }
    }

    /// Both dimensions are at least `MIN_WINDOW_SIZE`.
    pub open spec fn is_non_zero(&self) -> bool {
        self.spec_width() >= MIN_WINDOW_SIZE && self.spec_height() >= MIN_WINDOW_SIZE
    }

    /// The same kind of size with the given dimensions.
    pub open spec fn with_dimensions(&self, width: u32, height: u32) -> ResolutionConfig {
        match *self {
            ResolutionConfig::Physical(_, _) => ResolutionConfig::Physical(width, height),
            ResolutionConfig::Logical(_, _) => ResolutionConfig::Logical(width, height),
        }
    }

    /// The size that stands in for this one: the size itself when it is
    /// usable, the smallest size of the same kind when a dimension is zero.
    pub open spec fn non_zero(&self) -> ResolutionConfig {
        if self.spec_width() == 0 || self.spec_height() == 0 {
            self.with_dimensions(MIN_WINDOW_SIZE, MIN_WINDOW_SIZE)
        } else {
            *self
        }
    }

    #[verifier::when_used_as_spec(spec_width)]
    pub fn width(&self) -> (w: u32)
        ensures
            w == self.spec_width(),
    {
        match self {
            ResolutionConfig::Physical(w, _) => *w,
            ResolutionConfig::Logical(w, _) => *w,
        }
    }

    #[verifier::when_used_as_spec(spec_height)]
    pub fn height(&self) -> (h: u32)
        ensures
            h == self.spec_height(),
    {
        match self {
            ResolutionConfig::Physical(_, h) => *h,
            ResolutionConfig::Logical(_, h) => *h,
        }
    }

    /// Replaces an unusable size by the smallest one and returns the size
    /// now held. A size with a zero dimension becomes 1 by 1 of the same
    /// kind: the caller reads that as "fallback applied". A size with two
    /// positive dimensions is left as it is.
    pub fn ensure_non_zero(&mut self) -> (r: ResolutionConfig)
        ensures
            *final(self) == old(self).non_zero(),
            r == *final(self),
            r.is_non_zero(),
            *old(self) is Physical <==> r is Physical,
            old(self).spec_width() == 0 || old(self).spec_height() == 0 ==> r.spec_width() == 1
                && r.spec_height() == 1,
            old(self).spec_width() > 0 && old(self).spec_height() > 0 ==> r == *old(self),
    {
        match *self {
            ResolutionConfig::Physical(w, h) => {
                if w == 0 || h == 0 {
                    *self = ResolutionConfig::Physical(MIN_WINDOW_SIZE, MIN_WINDOW_SIZE);
                }
            },
            ResolutionConfig::Logical(w, h) => {
                if w == 0 || h == 0 {
                    *self = ResolutionConfig::Logical(MIN_WINDOW_SIZE, MIN_WINDOW_SIZE);
                }
            },
        }
        *self
    }
}

/// Clamping is idempotent: a size that has been through `non_zero` is
/// usable, and a second pass leaves it as it is.
pub proof fn lemma_non_zero_idempotent(r: ResolutionConfig)
    ensures
        r.non_zero().is_non_zero(),
        r.non_zero().non_zero() == r.non_zero(),
{
}

/// How frames are queued for the display.
#[derive(Copy, Clone, Debug, PartialEq, Eq, Structural)]
pub enum PresentMode {
    /// FifoRelaxed where the platform has it, else Fifo.
    AutoVsync,
    /// Immediate where the platform has it, else Mailbox, else Fifo.
    AutoNoVsync,
    /// Frames wait in a queue of about three and one is shown per vertical
    /// blank. No tearing; acquiring a frame blocks while the queue is full.
    /// Supported everywhere. Traditionally "Vsync On".
    Fifo,
    /// As Fifo, but a frame that arrives late is shown at once, which may
    /// tear. Traditionally "Adaptive Vsync".
    FifoRelaxed,
    /// Frames are not queued: each is shown as soon as it is presented.
    /// Tearing can be observed. Traditionally "Vsync Off".
    Immediate,
    /// A queue of one frame, replaced by each newer frame; one is shown per
    /// vertical blank. No tearing. Traditionally "Fast Vsync".
    Mailbox,
}

impl Default for PresentMode {
    fn default() -> (mode: PresentMode)
        ensures
            mode == PresentMode::Fifo,
    {
        PresentMode::Fifo
    }
}

/// Which adapter to prefer when the machine has several.
#[derive(Copy, Clone, Debug, PartialEq, Eq, Structural)]
pub enum PowerPreference {
    /// Power usage is not considered.
    NoPreference,
    /// The adapter that uses the least power, often an integrated GPU.
    LowPower,
    /// The adapter with the highest performance, often a discrete GPU.
    HighPerformance,
}

impl Default for PowerPreference {
    fn default() -> (preference: PowerPreference)
        ensures
            preference == PowerPreference::NoPreference,
    {
        PowerPreference::NoPreference
    }
}

/// Multisampling: the number of samples per pixel.
#[derive(Copy, Clone, Debug, PartialEq, Eq, Structural)]
pub enum Msaa {
    Off,
    Sample2,
    Sample4,
    Sample8,
}

impl Msaa {
    /// The number of samples per pixel: 1, 2, 4 or 8.
    pub open spec fn spec_samples(&self) -> u32 {
        match *self {
            Msaa::Off => 1,
            Msaa::Sample2 => 2,
            Msaa::Sample4 => 4,
            Msaa::Sample8 => 8,
        }
    }

    #[verifier::when_used_as_spec(spec_samples)]
    pub fn samples(&self) -> (n: u32)
        ensures
            n == self.spec_samples(),
    {
        match self {
            Msaa::Off => 1,
            Msaa::Sample2 => 2,
            Msaa::Sample4 => 4,
            Msaa::Sample8 => 8,
        }
    }
}

impl Default for Msaa {
    fn default() -> (msaa: Msaa)
        ensures
            msaa == Msaa::Sample4,
    {
        Msaa::Sample4
    }
}

impl From<Msaa> for u32 {
    fn from(msaa: Msaa) -> (n: u32) {
        msaa.samples()
    }
}

impl vstd::std_specs::convert::FromSpecImpl<Msaa> for u32 {
    open spec fn obeys_from_spec() -> bool {
        true
    }

    open spec fn from_spec(msaa: Msaa) -> u32 {
        msaa.spec_samples()
    }
}

/// A colour with four 8-bit channels.
#[derive(Copy, Clone, Debug, PartialEq, Eq, Structural)]
pub struct Color {
    pub r: u8,
    pub g: u8,
    pub b: u8,
    pub a: u8,
}

impl Color {
    /// Opaque blue, the background of a window that asks for no other.
    pub open spec fn spec_blue() -> Color {
        Color { r: 0, g: 0, b: 255, a: 255 }
    }

    #[verifier::when_used_as_spec(spec_blue)]
    pub fn blue() -> (color: Color)
        ensures
            color == Color::spec_blue(),
    {
        Color { r: 0, g: 0, b: 255, a: 255 }
    }
}

/// The options that a window and its renderer are started with.
#[derive(Debug)]
pub struct WindowConfig {
    pub title_name: String,
    pub version: &'static str,
    pub fullscreen: bool,
    pub resolution: ResolutionConfig,
    pub min_resolution: ResolutionConfig,
    pub sample_count: Msaa,
    pub vsync_mode: PresentMode,
    pub power_preference: PowerPreference,
    pub clear_color: Color,
}

impl Clone for WindowConfig {
    fn clone(&self) -> (config: WindowConfig)
        ensures
            config == *self,
    {
        WindowConfig {
            title_name: self.title_name.clone(),
            version: self.version,
            fullscreen: self.fullscreen,
            resolution: self.resolution,
            min_resolution: self.min_resolution,
            sample_count: self.sample_count,
            vsync_mode: self.vsync_mode,
            power_preference: self.power_preference,
            clear_color: self.clear_color,
        }
    }
}

impl Default for WindowConfig {
    /// A 1280 by 720 window in device pixels, no smaller than 100 by 100,
    /// not fullscreen, four samples per pixel, Fifo presentation, no power
    /// preference, on blue.
    fn default() -> (config: WindowConfig)
        ensures
            config.title_name@ == "New Game"@,
            config.version@ == "New Version"@,
            !config.fullscreen,
            config.resolution == ResolutionConfig::Physical(1280, 720),
            config.min_resolution == ResolutionConfig::Physical(100, 100),
            config.sample_count == Msaa::Sample4,
            config.vsync_mode == PresentMode::Fifo,
            config.power_preference == PowerPreference::NoPreference,
            config.clear_color == Color::blue(),
    {
        WindowConfig {
            title_name: "New Game".to_owned(),
            version: "New Version",
            fullscreen: false,
            resolution: ResolutionConfig::Physical(1280, 720),
            min_resolution: ResolutionConfig::Physical(100, 100),
            sample_count: Msaa::default(),
            vsync_mode: PresentMode::default(),
            power_preference: PowerPreference::default(),
            clear_color: Color::blue(),
        }
    }
}

} // verus!
