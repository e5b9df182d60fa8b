//! Register-level models of two I/O peripherals of a game console: the external
//! interface (EXI), whose channels route serial transfers to devices, and the
//! video interface (VI), whose raster timing drives the scan-out of a packed YUV
//! framebuffer to RGB.

pub mod exi;
pub mod video_interface;
