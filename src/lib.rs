//! Identity-document photo composition: standard frame sizes, face-centred
//! cropping, an elliptical silhouette mask and compositing onto white.
pub mod codec;
pub mod compose;
pub mod engine;
pub mod error;
pub mod format;
pub mod geometry;
pub mod mask;
pub mod raster;
pub mod standards;

pub use engine::PassportEngine;
pub use error::ProcessError;
pub use geometry::FaceCenter;
pub use raster::Raster;
pub use standards::{CropConfig, PassportStandard};
