pub mod state;
pub mod laws;
pub mod camera;
pub mod camera_observer;
pub mod layout;
pub mod application;
