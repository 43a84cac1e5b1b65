//! Resource- and execution-lifecycle core of a graphics-device abstraction
//! layer: span arithmetic for sub-range addressing, GPU-visible buffers with
//! optional host-mapped views, buffer regions and region-to-region copies,
//! a command-buffer record/submit/wait state machine gated by fences, and a
//! device-context lifecycle with typed errors.
//!
//! The device itself is out of scope: windowing, instance and device
//! bring-up, shader compilation and image resources are external
//! collaborators.  This crate holds the logic worth proving — bounds rules,
//! lifecycle invariants, copy semantics — over an explicit model of device
//! memory, so every public operation carries a verified contract.

pub mod buffer;
pub mod command_buffer;
pub mod context;
pub mod error;
pub mod extent;
pub mod region;
pub mod span;
pub mod sync;

pub use buffer::Buffer;
pub use buffer::BufferBuilder;
pub use buffer::BufferCopyRange;
pub use buffer::BufferElement;
pub use buffer::BufferRegion;
pub use buffer::BufferUsage;
pub use buffer::CopyRecording;
pub use buffer::MemoryUsage;
pub use buffer::SubmittedCopy;
pub use command_buffer::CommandBuffer;
pub use command_buffer::CommandBufferUses;
pub use command_buffer::Recording;
pub use command_buffer::SubmittedRecording;
pub use context::ApiVersion;
pub use context::Context;
pub use context::ContextInfo;
pub use error::Error;
pub use error::Violation;
pub use extent::Extent2D;
pub use region::Region;
pub use region::ToRegion;
pub use span::AnyRange;
pub use span::Span;
pub use span::ToSpan;
pub use sync::Fence;
pub use sync::Semaphore;
