pub mod archive;
pub mod install;
pub mod json;
pub mod laws;
pub mod manifest;
