//! A minimal real-time rendering shell: frame pacing, surface configuration,
//! texture preparation, sprite geometry and per-frame draw planning.
//!
//! Everything that touches the GPU or the window system is an outside service:
//! the library decides, the host performs.

pub mod game_loop;
pub mod grafx;
pub mod registry;
pub mod scheduler;
pub mod sprite;
pub mod surface;
pub mod texture;

pub use scheduler::{Decision, FrameScheduler, NANOS_PER_SEC};
pub use surface::{
    create_surface_configuration, AcquireAction, AcquireStatus, SurfaceConfig, SurfaceError,
    SurfaceState, FRAME_LATENCY, MAX_SURFACE_RETRIES,
};
pub use texture::{load_texture, texture_from_decoded, AssetError, TextureUpload};
pub use sprite::{QuadGeometry, QuadVertex, Sprite};
pub use registry::Registry;
pub use grafx::{FrameCommand, FramePlan, Grafx, RenderError};
pub use game_loop::{GameLoop, LoopActions, LoopEvent};
