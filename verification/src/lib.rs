//! Core of a multi-pass forward renderer: resource descriptions, pipeline
//! caching, dirty-flag bookkeeping and the per-frame command stream, all as
//! plain values that a graphics backend carries out.

pub mod app;
pub mod block;
pub mod camera;
pub mod camera_controller;
pub mod command;
pub mod compositor;
pub mod device;
pub mod event;
pub mod gpu_state;
pub mod keyed;
pub mod light;
pub mod material;
pub mod model;
pub mod pipeline_state;
pub mod render_pipeline;
pub mod scene;
pub mod texture;
pub mod util;
pub mod vertex;
