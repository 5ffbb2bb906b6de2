//! SHA-1 (FIPS 180-4): a streaming engine over 64-byte blocks, with the
//! compression transform and the padding scheme stated as spec functions and
//! the executable code proved against them.

pub mod buffer;
pub mod compress;
pub mod engine;
pub mod message;
pub mod model;
pub mod word;

pub use compress::compress;
pub use engine::Sha1;
pub use message::{BLOCK_SIZE, OUTPUT_SIZE};
