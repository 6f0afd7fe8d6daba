//! Toolbar

use crate::markup::{no_nodes, no_props, push_prop, tag_view, text_prop, Node, NodeView, Prop};
use vstd::prelude::*;

verus! {

/// The markup of a toolbar divider: a vertical rule.
pub open spec fn divider_markup() -> NodeView {
    tag_view("hr"@, seq![text_prop("class"@, "pf-v6-c-divider pf-m-vertical"@)], Seq::empty())
}

/// A divider used in toolbars.
pub fn divider() -> (node: Node)
    ensures
        node@ == divider_markup(),
{
    let mut attributes = no_props();
    push_prop(&mut attributes, Prop::text("class", "pf-v6-c-divider pf-m-vertical"));
    Node::tag("hr", attributes, no_nodes())
}

} // verus!
