//! A verified core for bridging a blocking H.264 decode routine into a
//! backpressured streaming pipeline.
//!
//! The library holds the logic that deserves proof: the timestamp
//! reassociation heap that re-attaches per-input metadata to per-output
//! decoded pictures, the decode worker's per-unit state machine, the bounded
//! single-producer/single-consumer queue model that gives the bridge its
//! backpressure, and the construction of finished frames from raw decoder
//! output. The blocking codec itself is an opaque collaborator reached
//! through a thin trusted adapter; the asynchronous plumbing around the
//! worker lives outside the verified core.

pub mod channel;
pub mod codec;
pub mod error;
pub mod frame;
pub mod heap;
pub mod worker;

pub use channel::{BoundedQueue, SendRefused};
pub use codec::CodecAdapter;
pub use error::{Error, Void};
pub use frame::{DecodedFrame, DecodedImage, EncodedUnit, FrameFlags, PendingEntry};
pub use heap::ReassocHeap;
pub use worker::{ChunkOutcome, DecodeWorker};
