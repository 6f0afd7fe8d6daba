//! Wrapping a node in an element.

use crate::markup::{
    duplicate_props, key_of, no_nodes, props_view, push_node, Element, ElementKind, ElementView,
    Node, NodeView, Prop, PropView,
};
use vstd::prelude::*;

verus! {

/// `child` inside an element `element_name` that carries `attributes` and the
/// key of `child`.
pub open spec fn wrapped(child: NodeView, element_name: Seq<char>, attributes: Seq<PropView>) -> NodeView {
    NodeView::Element(
        ElementView {
            kind: ElementKind::Tag,
            name: element_name,
            key: key_of(child),
            props: attributes,
            children: seq![child],
        },
    )
}

/// Wraps a node in another element with the given attributes, preserving the
/// wrapped node's key.
pub fn wrapper_elt_with_attributes(child: Node, element_name: &'static str, attributes: &Vec<Prop>) -> (node: Node)
    ensures
        node@ == wrapped(child@, element_name@, props_view(attributes@)),
{
    let key = child.key();
    let mut children = no_nodes();
    push_node(&mut children, child);
    Node::Element(
        Element {
            kind: ElementKind::Tag,
            name: element_name,
            key,
            props: duplicate_props(attributes),
            children,
        },
    )
}

/// Wraps a node in a `div` with the given attributes, preserving the wrapped
/// node's key.
pub fn wrapper_div_with_attributes(child: Node, attributes: &Vec<Prop>) -> (node: Node)
    ensures
        node@ == wrapped(child@, "div"@, props_view(attributes@)),
{
    wrapper_elt_with_attributes(child, "div", attributes)
}

} // verus!
