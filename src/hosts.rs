//! The hosting services, their size ceilings, errors and shared accessors.
pub mod enums;
pub mod dispatch;
pub mod errors;
pub mod fileio;
pub mod gofile;
pub mod pixeldrain;
pub mod sizes;
pub mod utils;
