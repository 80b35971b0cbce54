use vstd::prelude::*;

verus! {

pub const DEFAULT_WIDTH: usize = 960;

pub const DEFAULT_HEIGHT: usize = 480;

pub const DEFAULT_SAMPLES: usize = 10;

/// The size of the image to render and the number of samples averaged for each pixel.
pub struct RenderConfig {
    pub width: usize,
    pub height: usize,
    pub samples: usize,
}

impl RenderConfig {
    /// Every count is positive and the image's pixel count fits in `usize`.
    pub open spec fn valid(&self) -> bool {
        &&& self.width > 0
        &&& self.height > 0
        &&& self.samples > 0
        &&& self.width * self.height <= usize::MAX
    }

    /// Tells whether `width`, `height` and `samples` make a valid configuration.
    pub fn accepts(width: usize, height: usize, samples: usize) -> (ok: bool)
        ensures
            ok == (RenderConfig { width, height, samples }).valid(),
    {
        if width == 0 || height == 0 || samples == 0 {
            false
        } else {
            width.checked_mul(height).is_some()
        }
    }

    pub fn new(width: usize, height: usize, samples: usize) -> (c: RenderConfig)
        requires
            (RenderConfig { width, height, samples }).valid(),
        ensures
            c.width == width,
            c.height == height,
            c.samples == samples,
            c.valid(),
    {
        RenderConfig { width, height, samples }
    }
}

impl Default for RenderConfig {
    fn default() -> (c: RenderConfig)
        ensures
            c.width == DEFAULT_WIDTH,
            c.height == DEFAULT_HEIGHT,
            c.samples == DEFAULT_SAMPLES,
            c.valid(),
    {
        RenderConfig { width: DEFAULT_WIDTH, height: DEFAULT_HEIGHT, samples: DEFAULT_SAMPLES }
    }
}

} // verus!
