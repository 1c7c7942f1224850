//! Batch watermarking: planning, per-job decisions and result bookkeeping for
//! stamping an overlay image onto many input images.

pub mod format;
pub mod resize;
pub mod raster;
pub mod job;
pub mod batch;
pub mod laws;
