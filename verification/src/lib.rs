//! The decision-making core of a Linux clipboard-history manager: what the
//! history and the emoji picker list, where the window opens and when it
//! hides, how a paste reaches the previously focused window, how the desktop
//! theme is detected, and what a second launch asks of the running instance.

pub mod text;
pub mod decimal;

pub mod clips;
pub mod emoji;
pub mod image;

pub mod simulator;
pub mod paste;
pub mod placement;
pub mod focus_watch;

pub mod theme;
pub mod schedule;
pub mod ipc;
pub mod ocr;
pub mod shortcuts;
