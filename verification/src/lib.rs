//! Myrmex: the state and rules behind the ant-colony universe simulator.
//!
//! The crate holds what the game decides: which universe is created and under
//! which file name it is stored, what a loaded save file does to the home
//! screen, how the height view moves between the layers of the universe, which
//! menu windows are open, which tiles make up a map and where the camera goes.
//! Rendering and files stay with the caller; the UTC clock is read through
//! std's system time and written out by chrono, and a reading that fails is
//! reported rather than a panic.

pub mod clock;
pub mod decimal;
pub mod save;
pub mod height;
pub mod menu;
pub mod home;
pub mod load;
pub mod tilemap;
pub mod camera;
pub mod state;
pub mod panel;
