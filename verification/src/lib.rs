//! A verified model of a reference-counted native-handle graphics layer:
//! smart handles over reference-counted native objects, fence-based CPU/GPU
//! synchronization, command-allocator pooling, bump-allocated descriptor
//! heaps, resource-state transition tracking, and the per-frame render
//! pipeline that ties them together.
//!
//! The native graphics API itself (device, queue, swapchain creation and the
//! actual GPU execution) is an external collaborator: its observable effects
//! are modelled as plain values (addresses, counters, status codes) that the
//! surrounding program hands in, and every decision taken on those values is
//! verified here.

pub mod adapter;
pub mod buffer;
pub mod com;
pub mod descriptor;
pub mod context;
pub mod memory;
pub mod params;
pub mod pipeline;
pub mod pool;
pub mod queue;
pub mod resource;
pub mod swapchain;
pub mod timer;
pub mod game;
pub mod sync;

pub use com::ComPtr;
pub use game::{GameApp, GameCore};
pub use params::{InitFlags, InitParams};
pub use pipeline::GraphicsCore;
pub use timer::{GameTimer, Timer};
