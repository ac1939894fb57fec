//! Florust: a telemetry server's runtime for typed data sources.
//!
//! Data sources register with a data source manager, upload raw payloads,
//! and are read back. A manager decodes payloads into readings of one kind;
//! the runtime around it keeps, for every source, its place in the lifecycle
//! and a bounded history of its readings.
//!
//! - [`circular_vec`]: the bounded history.
//! - [`source_state`]: the lifecycle of a source and the registry of a
//!   manager as mathematical values, with the laws that hold of them.
//! - [`server_plugin`]: what a data source manager has to offer.
//! - [`manager_and_data`]: a manager with the registry of its sources.
//! - [`data_type`]: managers of every kind of reading behind one interface.
//! - [`state`]: the managers of a server, by manager identifier.
//! - [`default_plugins`]: the built-in managers.
//! - [`plugin_config`], [`toml_table`], [`loader`]: plugin declarations and
//!   what the loader keeps of the plugins it tried.
//! - [`data_source`]: how failures are answered over HTTP.

pub mod circular_vec;
pub mod data_source;
pub mod data_type;
pub mod default_plugins;
pub mod id_table;
pub mod loader;
pub mod manager_and_data;
pub mod plugin_config;
pub mod server_plugin;
pub mod source_state;
pub mod state;
pub mod text;
pub mod toml_table;

use vstd::prelude::*;

verus! {

/// The body of an upload: the raw bytes a data source sent.
pub struct UploadedData {
    pub data: Vec<u8>,
}

} // verus!
