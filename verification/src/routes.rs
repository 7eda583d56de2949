//! What each route of the service decides.

pub mod serve;
pub mod upload;
pub mod preview;
pub mod preview_image;
