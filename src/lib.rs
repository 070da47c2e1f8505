//! Repairs the original-capture date of photos from a social-media data
//! export: the photo records, the choice of each photo's canonical time, the
//! EXIF date text written for it, the fixed layout of the export, and the
//! order in which a run visits the photos.

pub mod error;
pub mod timestamp;
pub mod layout;
pub mod record;
pub mod stamp;
pub mod driver;
