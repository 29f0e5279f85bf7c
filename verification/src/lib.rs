//! Provisioning of Linux distributions on the Windows Subsystem for Linux:
//! naming of images, the packaging pipeline, the user provisioning
//! transaction and the installation flow as verified state machines, and the
//! plain-value side of the host binding.

pub mod binding;
pub mod commands;
pub mod config;
pub mod error;
pub mod install;
pub mod names;
pub mod packaging;
pub mod provision;
pub mod text;
