use vstd::prelude::*;

verus! {

/// The position of pixel `(x, y)` in a row-major buffer of `width * height`
/// colors, or `None` when the pixel lies outside the image.
pub fn pixel_index(width: usize, height: usize, x: usize, y: usize) -> (r: Option<usize>)
    requires
        width * height <= usize::MAX,
    ensures
        r == (if x < width && y < height {
            Some((y * width + x) as usize)
        } else {
            None
        }),
        r matches Some(i) ==> i < width * height,
{
    if x < width && y < height {
        proof {
            assert(y * width + x < width * height) by (nonlinear_arith)
                requires
                    x < width,
                    y < height,
            ;
        }
        Some(y * width + x)
    } else {
        None
    }
}

} // verus!
