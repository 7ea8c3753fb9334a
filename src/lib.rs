// Sizes, placements and the rounding arithmetic they share.
pub mod geometry;
// A candidate arrangement and how candidates are scored and chosen.
pub mod layout;
// The arrangements of two, three and four images.
pub mod twos;
pub mod threes;
pub mod fours;
// Input checks and the arrangement chosen for a list of image sizes.
pub mod plan;
// Drawing the chosen arrangement with the image crate.
pub mod render;
// Small decisions of the HTTP front end.
pub mod service;

pub use geometry::{ImageOffset, Size};
pub use layout::MosaicImageDims;
pub use plan::MosaicError;
pub use render::mosaic;
pub use service::ImageType;
