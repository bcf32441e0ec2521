//! Pixel-matching engine for bitmaps: colours, geometry, pixel buffers and
//! tolerant searches for colours and sub-images in deterministic scan order.

pub mod bitmap;
pub mod buffer;
pub mod codec;
pub mod color;
pub mod error;
pub mod export;
pub mod format;
pub mod geometry;
pub mod input;
pub mod lemmas;
pub mod search;
