//! A small mutable cell of shared rendering parameters.
//!
//! Handlers interpret broadcast payloads as updates to values like these; the
//! cell itself is plain state with exact get/set contracts.

use vstd::prelude::*;

verus! {

/// A shared rendering parameter cell (a single signed channel value).
pub struct RenderingParams {
    pub red: i32,
}

impl RenderingParams {
    /// Creates a cell holding `val`.
    pub fn new(val: i32) -> (r: RenderingParams)
        ensures
            r.red == val,
    {
        RenderingParams { red: val }
    }

    /// Reads the current value.
    pub fn get(&self) -> (r: i32)
        ensures
            r == self.red,
    {
        self.red
    }

    /// Replaces the value with `val`.
    pub fn set(&mut self, val: i32)
        ensures
            final(self).red == val,
    {
        self.red = val;
    }
}

} // verus!
