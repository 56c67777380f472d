pub mod winit;
