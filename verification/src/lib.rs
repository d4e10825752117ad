//! Core of an unattended slideshow display client: the document model, the
//! attachment reclaimer, the single-flight media cache and the decisions of
//! the playback loop.

pub mod config;
pub mod couchdb_client;
pub mod errors;
pub mod json;
pub mod media_pipeline;
pub mod model;
pub mod reclaim;
pub mod slideshow;
pub mod state_manager;
pub mod sweep;
pub mod text;
pub mod text_renderer;
pub mod video;
