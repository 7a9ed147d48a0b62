//! A single-window shell for one web page: the window and content-surface
//! setup, the page-to-native command bridge and the event-loop decisions,
//! stated as verified functions over plain values.

pub mod bridge;
pub mod config;
pub mod event_loop;
pub mod icon;
pub mod menu;
pub mod startup;
pub mod surface;
pub mod window;
