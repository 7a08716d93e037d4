//! Data exploration logic: column types, plot configuration and validation,
//! CSV line handling, data transformation requests and duplicate detection
//! dialogs.

pub mod data_type;
pub mod text;
pub mod query;
pub mod plots;
pub mod gpu_renderer;
pub mod plot_window;
pub mod data_transformation;
pub mod duplicate_detection;
pub mod file_config;
pub mod export_dialog;
pub mod csv_import;
pub mod multi_csv_import;
