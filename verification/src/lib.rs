//! Configuration resolution for a command-line image conversion tool.
//!
//! The raw options of a command line are turned into one validated [`Config`], and the
//! stages of the image pipeline are sequenced around it.

pub mod cli;
pub mod config;
pub mod decimal;
pub mod licenses;
pub mod options;
pub mod pipeline;
pub mod resolve;

pub use cli::{cli_arguments, get_app_skeleton, Argument};
pub use config::{
    Config, ConfigItem, FormatEncodingSettings, JPEGEncodingSettings, PNMEncodingSettings,
};
pub use licenses::{resolve_licenses, SelectedLicenses};
pub use options::{read_options, RawOptions};
pub use pipeline::{advance, plan_import, start, ImportPlan, PipelineState, Stage};
pub use resolve::{first_present, get_default_config, resolve_config, resolve_encoding_settings};
