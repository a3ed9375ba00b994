//! Zero-RPM fan control for NVIDIA GPUs whose driver does not stop the fans by itself.
//!
//! The library holds the decisions of the daemon: how the configuration file is read,
//! how the reports of `nvidia-settings` are checked, when the fans are handed to the
//! vBIOS or stopped, and when the failsafes notify the user or shut the machine down.
//! The program around it runs the commands, sleeps, and talks to the desktop.

pub mod text;
pub mod config;
pub mod manager;
