//! Verified core of a Monte Carlo path tracer: how image rows are dealt out to
//! render workers and how their results are joined, how pixels are addressed,
//! and the decisions of the path-tracing recursion (nearest hit, root choice,
//! face orientation, material scattering, bounce cap). The floating-point
//! geometry that feeds these decisions lives with the caller, which hands each
//! float over as the order key of its bits.

mod error;
mod hit;
mod image;
mod material;
mod tiles;
mod trace;

pub use error::{failures_of, join_outcome, RenderError, SubprocessError};
pub use hit::{
    any_hit, face_of, is_nearest, lemma_flipped_normal, lemma_negated_key, nearest_hit,
    negated_bits, order_key, order_key_of, sphere_root, stored_alignment, within, Face, Root,
};
pub use image::pixel_index;
pub use material::{
    dielectric_bend, diffuse_direction, metal_scatters, negligible, Bend, Diffuse, NEAR_ZERO_KEY,
    ONE_KEY,
};
pub use tiles::{
    lemma_owned_rows_members, lemma_rows_partition, owned_rows, row_owner, row_seed, worker_rows,
};
pub use trace::{
    after_bounces, lemma_trace_capped, next_state, path_ok, trace, trace_events, PathModel,
    PathState, Surface, Terminal,
};
