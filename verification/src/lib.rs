//! A desktop-shell layer modelled as plain data: the native menu bar of the
//! Chops application, the startup plan that registers the host shell's
//! plugins, and the event bridge that forwards menu clicks to the frontend.

pub mod bootstrap;
pub mod menu;
