//! Safe, verified core of a bridge to an externally compiled mahjong engine:
//! the piece and event encodings, the observed-state snapshot decoder, the
//! controller registry and the ownership rules of engine state handles.

pub mod ffi;
pub mod observe;
pub mod settings;
