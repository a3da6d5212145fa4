//! Resolves the featured media of a picture-of-the-day page into a thumbnail
//! URL suitable for link previews, with a time-boxed single-flight cache.

pub mod cache;
pub mod cats;
pub mod page;
pub mod parser;
pub mod video_id;
