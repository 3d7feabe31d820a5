//! Generated art for a seven-colour e-paper panel: palette quantization with error diffusion,
//! per-layer raster filters, content-addressed naming, the QR overlay, and the panel's
//! refresh state machine.
pub mod catalog;
pub mod controller;
pub mod dither;
pub mod filter;
pub mod naming;
pub mod palette;
pub mod qr;
pub mod raster;
