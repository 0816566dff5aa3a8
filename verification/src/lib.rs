//! The decisions of a tabbed terminal application, apart from its windows, its shells and its GPU.
pub mod actions;
pub mod application;
pub mod atlas;
pub mod capture;
pub mod clipboard;
pub mod drawing;
pub mod formats;
pub mod frame;
pub mod geometry;
pub mod history;
pub mod host;
pub mod input;
pub mod keyboard;
pub mod keys;
pub mod labels;
pub mod laws;
pub mod lifecycle;
pub mod mouse;
pub mod pane;
pub mod panes;
pub mod prepare;
pub mod presentation;
pub mod runs;
pub mod scene;
pub mod schedule;
pub mod screen;
pub mod search;
pub mod shaping;
pub mod smoke;
pub mod text;
pub mod time;
pub mod viewport;
pub mod workspace;
