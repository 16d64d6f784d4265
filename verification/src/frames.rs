//! Test frames: their wire image, their construction and their validation.

pub mod builder;
pub mod handler;
pub mod laws;
pub mod speed_measurer;
pub mod statistics;
pub mod wire;

pub use builder::FrameBuilder;
pub use handler::FrameHandler;
pub use speed_measurer::SpeedMeasurer;
pub use statistics::FrameStatistics;
pub use wire::{inspect, Reading};
