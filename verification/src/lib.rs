//! A launcher for local development services: it resolves the packages it
//! knows to download locations, plans their installation, and keeps the
//! records of the services it has started.

pub mod config;
pub mod decimal;
pub mod downloader;
pub mod extractor;
pub mod launch;
pub mod locale;
pub mod locator;
pub mod ports;
pub mod process;
pub mod process_table;
pub mod registry;
pub mod settings;
pub mod text;
