//! A live-reloading shader viewer's core logic: reconciling an ordered set of
//! windows against the image descriptors produced from a script, folding
//! per-frame input events into per-window state, deciding when a snapshot is
//! taken and how its file is named, and choosing the uniforms a draw binds.

pub mod frame;
pub mod images;
pub mod options;
pub mod save;
pub mod uniforms;
pub mod windows;
