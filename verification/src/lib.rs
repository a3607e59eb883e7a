//! The decisions that turn an HTML page load into a document tree and into
//! requests for the style sheets and scripts that the page names.
pub mod builder;
pub mod dom;
pub mod listeners;
pub mod messages;
pub mod tags;
