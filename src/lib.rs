//! Turns a VLESS link into a typed connection descriptor and maps that
//! descriptor onto a proxy-client runtime configuration.

pub mod params;
pub mod url_parts;
pub mod descriptor;
pub mod config;
pub mod persist;
pub mod laws;
