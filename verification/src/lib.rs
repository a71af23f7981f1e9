//! Keyed HighwayHash fingerprints of byte streams, 64, 128 and 256 bits wide.
//!
//! [`model`] defines the hash as a mathematical function of a key and a byte
//! sequence. Every hasher of this crate is proved to compute that function,
//! however its input was cut into chunks: [`PortableHash`], which works lane
//! by lane, [`SseHash`] and [`AvxHash`], which work on registers of two and
//! of four lanes, and [`HighwayBuilder`], which picks one of the three when
//! it is made. [`HighwayHash`] is the contract they share, and [`laws`]
//! holds what follows from it for every hasher.
//!
//! The hash is not cryptographic.
pub mod adapters;
pub mod avx;
pub mod builder;
pub mod capability;
pub mod key;
pub mod laws;
mod mixer;
pub mod model;
pub mod packet;
pub mod portable;
pub mod scalar;
pub mod sse;
pub mod stream;
pub mod traits;
pub mod vector;

pub use crate::avx::AvxHash;
pub use crate::builder::{Backend, HighwayBuilder};
pub use crate::capability::Capabilities;
pub use crate::key::Key;
pub use crate::portable::PortableHash;
pub use crate::sse::SseHash;
pub use crate::traits::HighwayHash;
