//! A verified 1D-array texture sampler library.
//!
//! A [`texture::Texture1DArray`] is a multi-level, multi-layer grid of texels;
//! a [`sampler1d_array::FSampler1DArray`] is a lightweight handle that binds a
//! wrap mode, two filter modes and a border color to one such texture and
//! issues reads, writes, clears, mipmap regeneration and filtered samples
//! against it.
//!
//! Texel components are carried as raw 32-bit patterns and normalized sample
//! coordinates as fixed-point units, so every operation is exact and fully
//! specified; widening a component to a floating-point value is left to the
//! caller at the edge of the library.

pub mod extent;
pub mod sampler;
pub mod sampler1d_array;
pub mod texel;
pub mod texture;
