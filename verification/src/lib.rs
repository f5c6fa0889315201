//! Verified arithmetic engine for packed binary tower fields.
//!
//! The crate models 256-bit machine words as pairs of 128-bit limbs and
//! builds, on top of them, the byte-sliced Galois-field arithmetic that
//! dedicated affine-transform instructions provide in hardware: basis
//! changes between the tower basis and the AES-native basis, 8-bit field
//! multiplication and inversion, and block-decomposed affine
//! transformations for wider scalars.

pub mod bits;
pub mod m256;
pub mod gfni;
pub mod packed;
pub mod transform;
