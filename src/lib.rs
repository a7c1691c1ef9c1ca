//! A container format that bundles images, each stored as a reversible
//! pipeline of transforms: text encoding, optional compression and optional
//! authenticated encryption, recorded in the image's metadata.
mod bytes;
pub mod codec;
pub mod compression;
pub mod encryption;
pub mod error;
pub mod file;
pub mod image;
pub mod meta;
pub mod util;
