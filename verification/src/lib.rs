pub mod api;
pub mod image;

pub use api::Image;
