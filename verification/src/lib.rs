//! Structural core of the SSIMULACRA2 perceptual image-quality metric.
//!
//! The metric compares a reference image with a distorted variant of the same
//! size and reduces the pair to a single score.  This crate verifies the
//! discrete skeleton that the floating-point pipeline is built on: input
//! validation and the error protocol, the geometry of the six-scale 2x
//! pyramid, the index schedule of the recursive-Gaussian blur (taps, priming
//! and emission, SIMD column chunking), and the planar data movement
//! (transposition and de-interleaving) shared by the blur backends.

mod blur;
mod error;
mod geometry;
mod layout;

pub use blur::BlurImpl;
pub use blur::LibblurBackend;
pub use blur::RADIUS;
pub use blur::ScanPhase;
pub use blur::column_chunks;
pub use blur::emit_index;
pub use blur::left_tap;
pub use blur::lemma_scan_emits_each_sample_once;
pub use blur::right_tap;
pub use blur::scan_phase;
pub use blur::scan_steps;
pub use blur::spec_chunk_size;
pub use blur::spec_emit_index;
pub use blur::spec_left_tap;
pub use blur::spec_right_tap;
pub use blur::spec_scan_pos;

pub use error::Ssimulacra2Error;
pub use error::check_data_len;
pub use error::check_image_size;
pub use error::check_matching_dimensions;
pub use error::validate_pair;

pub use geometry::NUM_SCALES;
pub use geometry::downscale_block_axis;
pub use geometry::downscaled_dim;
pub use geometry::lemma_downscaled_covers;
pub use geometry::lemma_pyramid_stops_exactly;
pub use geometry::lemma_scale_count_bounds;
pub use geometry::num_scales;
pub use geometry::scale_dims;
pub use geometry::spec_downscaled;
pub use geometry::spec_scale_count;
pub use geometry::spec_extra_scales;
pub use geometry::spec_scale_dims;

pub use layout::deinterleave3;
pub use layout::grid_index;
pub use layout::lemma_grid_index_in_range;
pub use layout::transpose_plane;
