use vstd::prelude::*;

verus! {

/// The order key of the float `1.0`.
pub const ONE_KEY: i64 = 0x3f80_0000;

/// The order key of the float `1.0e-8`, below which a component counts as zero.
pub const NEAR_ZERO_KEY: i64 = 0x322b_cc77;

/// A vector component whose order key is `k` is negligible.
pub open spec fn negligible(k: i64) -> bool {
    -NEAR_ZERO_KEY < k < NEAR_ZERO_KEY
}

/// Where a Lambertian surface sends the scattered ray.
#[derive(PartialEq, Eq, Structural, Clone, Copy, Debug)]
pub enum Diffuse {
    /// Along the normal plus the random point on the unit sphere.
    Sampled,
    /// Along the normal alone, the sampled direction being degenerate.
    Normal,
}

/// Chooses the Lambertian scatter direction from the order keys of the
/// components of `normal + random unit-sphere point`: it falls back to the
/// normal exactly when every component is below `1e-8` in magnitude.
pub fn diffuse_direction(x: i64, y: i64, z: i64) -> (d: Diffuse)
    ensures
        d == (if negligible(x) && negligible(y) && negligible(z) {
            Diffuse::Normal
        } else {
            Diffuse::Sampled
        }),
{
    let small = |k: i64| -> (r: bool)
        ensures
            r == negligible(k),
        { -NEAR_ZERO_KEY < k && k < NEAR_ZERO_KEY };
    if small(x) && small(y) && small(z) {
        Diffuse::Normal
    } else {
        Diffuse::Sampled
    }
}

/// Whether a metal surface scatters, from the order key of the dot product of
/// the mirror direction and the normal: it does when the mirror direction
/// leaves on the normal's side, and absorbs the ray otherwise.
pub fn metal_scatters(alignment: i64) -> (r: bool)
    ensures
        r == (alignment > 0),
{
    alignment > 0
}

/// What a dielectric surface does with a ray.
#[derive(PartialEq, Eq, Structural, Clone, Copy, Debug)]
pub enum Bend {
    /// Total internal reflection.
    Reflect,
    /// Refraction by Snell's law.
    Refract,
}

/// Chooses between reflection and refraction at a dielectric surface from the
/// order key of `ratio * sin(theta)`: reflection exactly when it exceeds 1.
/// The choice is geometric; there is no random Fresnel term.
pub fn dielectric_bend(ratio_sin: i64) -> (b: Bend)
    ensures
        b == (if ratio_sin > ONE_KEY {
            Bend::Reflect
        } else {
            Bend::Refract
        }),
{
    if ratio_sin > ONE_KEY {
        Bend::Reflect
    } else {
        Bend::Refract
    }
}

} // verus!
