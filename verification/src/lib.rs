//! A verified core for a thumbnail-transcoding relay: payloads arriving on a
//! message channel are classified by their signature bytes, decoded, resized
//! to fit a square bounding box, stripped of any alpha channel, and re-encoded
//! as baseline JPEG at a configured quality.

pub mod fit;
pub mod format;
pub mod raster;
pub mod transcode;
