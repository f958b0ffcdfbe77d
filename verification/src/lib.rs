//! Verified core of a Raspberry Pi dashboard: widget switching, remote
//! control decisions, and the data shaping done for each widget.

pub mod config;
pub mod dailyverse;
pub mod directory;
pub mod homeassistant;
pub mod quotes;
pub mod remote;
pub mod snapcast;
pub mod text;
pub mod weather;
pub mod widget;
