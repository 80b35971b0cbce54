pub mod camera;
pub mod config;
pub mod frame;
pub mod pixel;
pub mod render;
