//! The canvas-resolution decision ladder.
//!
//! Binding a window to a drawable target resolves, in order: the platform
//! window, its document, the element under the requested identifier, and the
//! element's conversion to a canvas. The first missing step is the fault, and
//! a fault is fatal for that one creation only — it never touches other
//! registered windows. The platform lookups themselves happen outside the
//! library; this function is the decision they feed.

use vstd::prelude::*;

verus! {

/// Why a drawable target could not be resolved at builder-construction time.
#[derive(Clone, Copy, PartialEq, Eq, Structural, Debug)]
pub enum CanvasFault {
    /// The platform window object is missing.
    WindowMissing,
    /// The window has no document.
    DocumentMissing,
    /// No element exists under the requested identifier.
    ElementMissing,
    /// The element exists but is not a canvas.
    NotACanvas,
}

/// What resolving a canvas target yields, given which lookup steps succeeded.
pub open spec fn spec_resolve_canvas_target(
    window_present: bool,
    document_present: bool,
    element_present: bool,
    is_canvas: bool,
) -> Result<(), CanvasFault> {
    if !window_present {
        Err(CanvasFault::WindowMissing)
    } else if !document_present {
        Err(CanvasFault::DocumentMissing)
    } else if !element_present {
        Err(CanvasFault::ElementMissing)
    } else if !is_canvas {
        Err(CanvasFault::NotACanvas)
    } else {
        Ok(())
    }
}

/// Decides whether a drawable target resolved, reporting the first failed
/// lookup step as the fault.
pub fn resolve_canvas_target(
    window_present: bool,
    document_present: bool,
    element_present: bool,
    is_canvas: bool,
) -> (r: Result<(), CanvasFault>)
    ensures
        r == spec_resolve_canvas_target(
            window_present,
            document_present,
            element_present,
            is_canvas,
        ),
{
    if !window_present {
        Err(CanvasFault::WindowMissing)
    } else if !document_present {
        Err(CanvasFault::DocumentMissing)
    } else if !element_present {
        Err(CanvasFault::ElementMissing)
    } else if !is_canvas {
        Err(CanvasFault::NotACanvas)
    } else {
        Ok(())
    }
}

} // verus!
