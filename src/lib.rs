//! Background processing core of a photo library: the catalog repository,
//! the preview-generation run, the progress monitor and what the properties
//! panel of an item shows.

pub mod generate_previews;
pub mod media;
pub mod photo_info;
pub mod progress_monitor;
pub mod repository;
