//! Texture-conversion helpers that are plain arithmetic; the image
//! decoding and encoding lives in the surrounding application.

use vstd::prelude::*;

verus! {

/// Options of the texture conversion.
#[derive(Debug, Clone)]
pub struct PaaOptions {
    /// Whether the image is cropped to a power-of-two size.
    pub crop_to_power_of_two: bool,
    /// A fixed target size; the nearest power of two when absent.
    pub target_size: Option<u32>,
    /// Whether cropping keeps the image's center.
    pub center_crop: bool,
}

impl Default for PaaOptions {
    /// Crop to a power of two, keep the center, pick the size
    /// automatically.
    fn default() -> (r: Self)
        ensures
            r.crop_to_power_of_two,
            r.target_size is None,
            r.center_crop,
    {
        PaaOptions { crop_to_power_of_two: true, target_size: None, center_crop: true }
    }
}

/// Whether a value is a power of two.
pub open spec fn spec_is_pow2(x: int) -> bool
    decreases x,
{
    if x <= 0 {
        false
    } else if x == 1 {
        true
    } else {
        x % 2 == 0 && spec_is_pow2(x / 2)
    }
}

/// The texture converter.
pub struct PaaConverter;

impl PaaConverter {
    /// The smallest power of two at or above `n`; one for zero and one.
    pub fn next_power_of_two(n: u32) -> (r: u32)
        requires
            n <= 0x8000_0000,
        ensures
            spec_is_pow2(r as int),
            r >= n,
            n <= 1 ==> r == 1,
            n > 1 ==> r < 2 * (n as int),
    {
        if n <= 1 {
            return 1;
        }
        let big: u64 = n as u64;
        let mut power: u64 = 1;
        while power < big
            invariant
                big == n as u64,
                n <= 0x8000_0000,
                n > 1,
                spec_is_pow2(power as int),
                power < 2 * (n as int),
            decreases 2 * big - power,
        {
            power = power * 2;
        }
        proof {
            assert(power <= u32::MAX as u64);
        }
        power as u32
    }
}

} // verus!
