//! Scaffolds lint and formatter configuration files into a project.
//!
//! The library holds the decisions: which templates a selection stands
//! for, what a template holds and where it goes, and how a target
//! directory is resolved. The program around it performs the file system
//! work and the installer run that those decisions ask for.
pub mod catalog;
pub mod flow;
pub mod selection;
pub mod target;
pub mod template;
