//! The configuration files that the templates write, embedded in the library.
pub mod prettier;
pub mod pure_js;
pub mod react;
pub mod typescript;
