//! A peer-to-peer chat and file exchange node.
//!
//! The library decides everything that the node does: what a typed line means ([`command`],
//! [`input`]), what an event of the network means ([`events`]), and what the user sees ([`app`],
//! [`screen`]).
//! It performs nothing itself. Where the network or the file system is needed it returns an
//! [`action`], and the program that performs it reports the outcome as the next event.
//!
//! Each operation is stated over a model: text is a sequence of characters, the state is an
//! [`app::AppView`], the known peers are a [`peers::DirectoryView`]. What holds between peers and
//! across several steps stands in [`laws`], and what single commands and events do in
//! [`command_laws`] and [`event_laws`].

pub mod action;
pub mod app;
pub mod command;
pub mod command_laws;
pub mod event_laws;
pub mod events;
pub mod files;
pub mod input;
pub mod laws;
pub mod messages;
pub mod names;
pub mod peers;
pub mod screen;
pub mod settings;
pub mod text;
pub mod text_map;
