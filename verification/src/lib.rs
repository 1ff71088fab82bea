//! A minimal real-time application shell: the frame-lifecycle state machine
//! that binds a platform window and its event source to a GPU-backed
//! renderer and to the simulation hooks of the embedding program.
//!
//! The crate holds the decisions. The platform layer creates the window,
//! talks to the GPU and pumps events; it hands this crate plain values and
//! carries out the commands that the renderer queues.

pub mod config;
pub mod entry;
pub mod graphics;
pub mod time;
pub mod gameloop;
pub mod lifecycle;
pub mod app;

pub use crate::app::App;
pub use crate::app::Fullscreen;
pub use crate::app::LoopRequest;
pub use crate::app::WindowAttributes;
pub use crate::app::WindowEvent;
pub use crate::config::Color;
pub use crate::config::Msaa;
pub use crate::config::PowerPreference;
pub use crate::config::PresentMode;
pub use crate::config::ResolutionConfig;
pub use crate::config::WindowConfig;
pub use crate::gameloop::EngineContext;
pub use crate::gameloop::GameLoop;
pub use crate::graphics::GpuCommand;
pub use crate::graphics::GraphicsContext;
pub use crate::graphics::PhysicalSize;
pub use crate::graphics::Surface;
pub use crate::graphics::SurfaceConfiguration;
pub use crate::graphics::WgpuRenderer;
pub use crate::lifecycle::Phase;
pub use crate::time::Time;
