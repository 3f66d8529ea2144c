//! Verified core of the WebGL globe viewer: the playback state that the
//! buttons, the slider and the render loop drive, the colour gradient that
//! is uploaded as a texture, and the index arithmetic of the height grid.

pub mod playback;
pub mod gradient;
pub mod grid;
