//! Search-driven wallpaper selection: reading result pages of an image search,
//! the accept/reject browsing loop over them, and the decisions that turn an
//! accepted image into a wallpaper file and into desktop commands.

pub mod answer;
pub mod category;
pub mod desktop;
pub mod environ;
pub mod error;
pub mod json;
pub mod output;
pub mod page;
pub mod reply;
pub mod selector;
pub mod text;
