//! System information display model: turns captured diagnostic-tool output and
//! OS-release metadata into ordered label/value rows, and tracks which page of
//! the navigation is active.

pub mod nav;
pub mod os_release;
pub mod parse;
pub mod text;
pub mod tool;
