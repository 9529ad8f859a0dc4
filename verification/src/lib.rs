//! Verified core of a home-router device helper: it models the persisted
//! configuration (credentials plus display-name overrides), decodes the
//! router's attached-device response, applies the overrides, and renders the
//! result for the command line and for an HTTP surface.

mod probe;
pub mod client;
pub mod conffile;
pub mod config;
pub mod device;
pub mod devicejson;
pub mod devicelaws;
pub mod error;
pub mod json;
pub mod overrides;
pub mod paths;
pub mod pipeline;
pub mod quoted;
pub mod render;
pub mod table;
pub mod text;

pub use client::get_client;
pub use config::Config;
pub use device::AttachedDevices;
pub use device::Device;
pub use error::Error;
pub use paths::find_config_path;
