//! What the operations are for, stated over their inputs and results: properties that do not lean
//! on how a result is put together.
pub mod checking;
pub mod data;
pub mod drawing;
pub mod finding;
pub mod keyboard;
pub mod layout;
pub mod marks;
pub mod painting;
pub mod panes;
pub mod pointer;
pub mod results;
pub mod tabs;
pub mod text;
pub mod timing;
pub mod windows;
