//! Kappa: the resource lifecycle and draw-submission path of a small
//! real-time renderer, with every decision stated as a contract.
//!
//! The library never talks to a GPU or a window itself. It decides which
//! surface configuration to use, which pipeline to build, which buffers a
//! frame needs and in which order the commands of a frame are issued, and it
//! hands those decisions out as plain values.

pub mod app;
pub mod error;
pub mod log;
pub mod pipeline;
pub mod render;
pub mod renderer;
pub mod surface;
pub mod bytes;
pub mod cache;
pub mod command;
pub mod device;
pub mod vertex;
