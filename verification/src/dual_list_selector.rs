//! Trait for rendering an item in a dual list selector.

use crate::markup::Node;
use core::fmt::Debug;
use vstd::prelude::*;

verus! {

/// What can stand as an item of a dual list selector: a value that turns into
/// markup and can be copied, compared and printed.
pub trait DualListSelectorItemRenderer: Debug + Clone + PartialEq + Into<Node> + 'static {

}

impl<T: Into<Node> + Debug + Clone + PartialEq + 'static> DualListSelectorItemRenderer for T {

}

} // verus!
