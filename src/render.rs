use vstd::prelude::*;

verus! {

/// Why a set of render settings was turned down.
#[derive(Clone, Copy, Debug, PartialEq, Eq, Structural)]
pub enum SettingsError {
    /// The width or the height is zero or negative.
    BadDimensions,
    /// Fewer than one sample per pixel.
    NoSamples,
}

/// Checked settings of a render: image size, samples per pixel and the
/// recursion budget handed to the path integrator.
#[derive(Clone, Copy, Debug, PartialEq, Eq, Structural)]
pub struct RenderSettings {
    pub width: u32,
    pub height: u32,
    pub samples_per_pixel: u32,
    pub max_depth: i32,
}

impl RenderSettings {
    /// Settings that a render can start from.
    pub open spec fn valid(self) -> bool {
        self.width > 0 && self.height > 0 && self.samples_per_pixel > 0
    }

    /// Checks the settings before any rendering starts. A depth budget of zero
    /// or less is allowed: every ray then comes back black.
    pub fn new(width: i32, height: i32, samples_per_pixel: i32, max_depth: i32) -> (r: Result<
        RenderSettings,
        SettingsError,
    >)
        ensures
            (width <= 0 || height <= 0) ==> r == Err::<RenderSettings, SettingsError>(
                SettingsError::BadDimensions,
            ),
            (width > 0 && height > 0 && samples_per_pixel <= 0) ==> r == Err::<
                RenderSettings,
                SettingsError,
            >(SettingsError::NoSamples),
            (width > 0 && height > 0 && samples_per_pixel > 0) ==> r == Ok::<
                RenderSettings,
                SettingsError,
            >(
                (RenderSettings {
                    width: width as u32,
                    height: height as u32,
                    samples_per_pixel: samples_per_pixel as u32,
                    max_depth,
                }),
            ),
            r matches Ok(s) ==> s.valid(),
    {
        if width <= 0 || height <= 0 {
            Err(SettingsError::BadDimensions)
        } else if samples_per_pixel <= 0 {
            Err(SettingsError::NoSamples)
        } else {
            Ok(
                RenderSettings {
                    width: width as u32,
                    height: height as u32,
                    samples_per_pixel: samples_per_pixel as u32,
                    max_depth,
                },
            )
        }
    }

    /// Number of pixels of the image.
    pub fn pixel_count(&self) -> (r: u64)
        ensures
            r == self.width as nat * self.height as nat,
    {
        proof {
            vstd::arithmetic::mul::lemma_mul_upper_bound(
                self.width as int,
                0xffff_ffff,
                self.height as int,
                0xffff_ffff,
            );
        }
        self.width as u64 * self.height as u64
    }
}

/// Column and row of the `k`-th pixel written out. Rows go from the top of
/// the image (row `height - 1`) down to row 0, each from left to right.
pub fn scan_position(width: u32, height: u32, k: u64) -> (r: (u32, u32))
    requires
        k < width as nat * height as nat,
    ensures
        r.0 as int == k as int % (width as int),
        r.1 as int == height as int - 1 - k as int / (width as int),
{
    assert(width > 0) by (nonlinear_arith)
        requires
            k < width as nat * height as nat,
    ;
    let w = width as u64;
    assert(k / w < height as nat) by (nonlinear_arith)
        requires
            k < w * height as nat,
            w > 0,
    ;
    ((k % w) as u32, height - 1 - (k / w) as u32)
}

} // verus!
