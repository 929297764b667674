//! The routes of the style sheet and of its source.
use vstd::prelude::*;

verus! {

/// The compiled style sheet.
pub struct Style;

/// The style sheet's source.
pub struct StyleSource;

} // verus!
