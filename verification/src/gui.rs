//! Value types of the native framework's drawing layer, as the host side
//! holds them.

pub mod qpoint;
pub mod qpolygon;
pub mod qrect;
