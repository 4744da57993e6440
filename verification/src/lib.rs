//! A tiled rendering pipeline: a virtual image is split into square tiles,
//! rendered by a pool of workers, and merged into a shared frame buffer.
//! This crate holds the verified core: configuration and tile geometry,
//! tile pixel generation, frame-buffer merging, and the control-plane
//! logic (scheduling, reliable sends, shutdown coordination).

pub mod channel;
pub mod config;
pub mod coordinator;
pub mod framebuffer;
pub mod merger;
pub mod messages;
pub mod pipeline;
pub mod render;
pub mod scheduler;
pub mod tile;
pub mod worker;
