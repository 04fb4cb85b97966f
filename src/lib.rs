//! Uploads files to file-hosting services through a uniform provider
//! contract, with a per-run session cache shared by the providers.
pub mod client;
pub mod hosts;
pub mod maps;
pub mod structs;
pub mod template;
pub mod text;
pub mod utils;
