//! The verified logic of a GStreamer source element that captures the screen
//! through ScreenCaptureKit: pixel format codes and their video formats, the
//! test pattern, the element's state and decisions, and its buffer metas.

use vstd::prelude::*;

pub mod fourcc;
pub mod format;
pub mod pattern;
pub mod source;
pub mod meta;
pub mod element;

verus! {

} // verus!
