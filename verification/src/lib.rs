//! Core of a GTK image viewer: geometry, zoom arithmetic, view-state
//! decisions and the render request queue, each with a checked contract.

pub mod text;
pub mod cmdline;
pub mod conf;
pub mod geometry;
pub mod zoom;
pub mod image_view;
pub mod draw;
pub mod render_queue;
pub mod chooser;
