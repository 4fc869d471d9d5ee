//! Rearranges the windows of a Hyprland compositor between numbered
//! workspaces: swap the windows of two workspaces, move (dump) all windows of
//! one workspace onto another, or close all windows of a workspace.
//!
//! The library holds the decisions: reading the command line
//! ([`command`]), choosing the windows an operation acts on ([`client`]),
//! and the order of listings and commands ([`session`]), with the laws of
//! whole runs in [`runs`]. The caller holds the connection to the
//! compositor and runs the steps that a [`session::Session`] asks for.
pub mod client;
pub mod command;
pub mod error;
pub mod runs;
pub mod session;
pub mod workspace;
