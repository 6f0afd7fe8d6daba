//! A declarative description of rendered markup: element kind, properties,
//! children and keys.
//!
//! The widgets build such a description; a host turns it into the nodes of its
//! rendering framework, attaches a listener for each [`Interaction`] and a
//! node reference for each [`Anchor`], and puts the content it owns where an
//! [`Node::Outside`] stands.

use crate::styles::style_entries;
use popper_rs::state::StylesMap;
use vstd::prelude::*;

verus! {

/// Whether an element is a plain tag or a component of the host.
#[derive(Clone, Copy, Debug, PartialEq, Eq)]
pub enum ElementKind {
    Tag,
    Component,
}

/// What a listener reports to the widget that rendered it.
#[derive(Clone, Copy, Debug, PartialEq, Eq)]
pub enum Interaction {
    /// The toggle of an accordion item was clicked.
    ToggleAccordionItem,
    /// The input of a switch changed.
    ChangeSwitch,
    /// The content of a clickable label was clicked.
    ClickLabel,
    /// The close button of a label was clicked.
    CloseLabel,
    /// The toggle of a dropdown was clicked.
    ToggleDropdown,
    /// An item below a dropdown asked for the menu to close.
    CloseDropdown,
    /// The positioning collaborator computed new styles.
    PopperStateChanged,
    /// The positioning collaborator is about to write styles.
    WidthModifier,
}

/// A rendered node that a widget needs to find again.
#[derive(Clone, Copy, Debug, PartialEq, Eq)]
pub enum Anchor {
    /// The checkbox of a switch.
    SwitchInput,
    /// The element around a dropdown's toggle and menu: what counts as inside.
    DropdownInside,
    /// The toggle of a dropdown, the reference for positioning the menu.
    DropdownToggle,
    /// The menu of a dropdown.
    DropdownMenu,
}

/// Where a floating panel is placed relative to its reference.
#[derive(Clone, Copy, Debug, PartialEq, Eq)]
pub enum Placement {
    BottomStart,
    BottomEnd,
    TopStart,
}

/// A custom step in the positioning collaborator's pipeline.
#[derive(Clone, Copy, Debug, PartialEq, Eq)]
pub struct Modifier {
    pub name: &'static str,
    pub phase: Option<&'static str>,
    pub enabled: Option<bool>,
    pub handler: Option<Interaction>,
}

/// The value of a property.
#[derive(Debug, PartialEq, Eq)]
pub enum PropValue {
    Text(String),
    Flag(bool),
    Handler(Interaction),
    Anchor(Anchor),
    Markup(Box<Node>),
    Placement(Placement),
    Styles(StylesMap),
    Modifiers(Vec<Modifier>),
}

/// A named property of an element: an attribute, a listener, a node reference
/// or a component property.
#[derive(Debug, PartialEq, Eq)]
pub struct Prop {
    pub name: &'static str,
    pub value: PropValue,
}

#[derive(Debug, PartialEq, Eq)]
pub struct Element {
    pub kind: ElementKind,
    pub name: &'static str,
    pub key: Option<String>,
    pub props: Vec<Prop>,
    pub children: Vec<Node>,
}

#[derive(Debug, PartialEq, Eq)]
pub enum Node {
    Element(Element),
    Text(String),
    /// A list of nodes without an element around them; the empty fragment
    /// renders nothing.
    Fragment(Vec<Node>),
    /// Content that the host owns, by its position among the content handed
    /// to the widget, with the key it carries.
    Outside { slot: usize, key: Option<String> },
}

#[verifier::ext_equal]
pub struct ModifierView {
    pub name: Seq<char>,
    pub phase: Option<Seq<char>>,
    pub enabled: Option<bool>,
    pub handler: Option<Interaction>,
}

#[verifier::ext_equal]
pub enum PropValueView {
    Text(Seq<char>),
    Flag(bool),
    Handler(Interaction),
    Anchor(Anchor),
    Markup(Box<NodeView>),
    Placement(Placement),
    Styles(Map<Seq<char>, Seq<char>>),
    Modifiers(Seq<ModifierView>),
}

#[verifier::ext_equal]
pub struct PropView {
    pub name: Seq<char>,
    pub value: PropValueView,
}

#[verifier::ext_equal]
pub struct ElementView {
    pub kind: ElementKind,
    pub name: Seq<char>,
    pub key: Option<Seq<char>>,
    pub props: Seq<PropView>,
    pub children: Seq<NodeView>,
}

#[verifier::ext_equal]
pub enum NodeView {
    Element(ElementView),
    Text(Seq<char>),
    Fragment(Seq<NodeView>),
    Outside { slot: nat, key: Option<Seq<char>> },
}

pub open spec fn text_view(text: Option<String>) -> Option<Seq<char>> {
    match text {
        Some(t) => Some(t@),
        None => None,
    }
}

impl View for Modifier {
    type V = ModifierView;

    open spec fn view(&self) -> ModifierView {
        ModifierView {
            name: self.name@,
            phase: match self.phase {
                Some(phase) => Some(phase@),
                None => None,
            },
            enabled: self.enabled,
            handler: self.handler,
        }
    }
}

pub open spec fn modifiers_view(modifiers: Seq<Modifier>) -> Seq<ModifierView> {
    Seq::new(modifiers.len(), |i: int| modifiers[i]@)
}

pub open spec fn prop_view(prop: Prop) -> PropView
    decreases prop,
{
    PropView {
        name: prop.name@,
        value: match prop.value {
            PropValue::Text(text) => PropValueView::Text(text@),
            PropValue::Flag(flag) => PropValueView::Flag(flag),
            PropValue::Handler(interaction) => PropValueView::Handler(interaction),
            PropValue::Anchor(anchor) => PropValueView::Anchor(anchor),
            PropValue::Markup(node) => PropValueView::Markup(Box::new(node_view(*node))),
            PropValue::Placement(placement) => PropValueView::Placement(placement),
            PropValue::Styles(styles) => PropValueView::Styles(style_entries(styles)),
            PropValue::Modifiers(modifiers) => PropValueView::Modifiers(modifiers_view(modifiers@)),
        },
    }
}

pub open spec fn props_view(props: Seq<Prop>) -> Seq<PropView>
    decreases props,
{
    Seq::new(
        props.len(),
        |i: int|
            if 0 <= i < props.len() {
                prop_view(props[i])
            } else {
                arbitrary()
            },
    )
}

pub open spec fn nodes_view(nodes: Seq<Node>) -> Seq<NodeView>
    decreases nodes,
{
    Seq::new(
        nodes.len(),
        |i: int|
            if 0 <= i < nodes.len() {
                node_view(nodes[i])
            } else {
                arbitrary()
            },
    )
}

pub open spec fn node_view(node: Node) -> NodeView
    decreases node,
{
    match node {
        Node::Element(element) => NodeView::Element(
            ElementView {
                kind: element.kind,
                name: element.name@,
                key: text_view(element.key),
                props: props_view(element.props@),
                children: nodes_view(element.children@),
            },
        ),
        Node::Text(text) => NodeView::Text(text@),
        Node::Fragment(children) => NodeView::Fragment(nodes_view(children@)),
        Node::Outside { slot, key } => NodeView::Outside { slot: slot as nat, key: text_view(key) },
    }
}

impl View for Prop {
    type V = PropView;

    open spec fn view(&self) -> PropView {
        prop_view(*self)
    }
}

impl View for Node {
    type V = NodeView;

    open spec fn view(&self) -> NodeView {
        node_view(*self)
    }
}

/// The key of a node: that of an element or of outside content; text and
/// fragments have none.
pub open spec fn key_of(node: NodeView) -> Option<Seq<char>> {
    match node {
        NodeView::Element(element) => element.key,
        NodeView::Outside { slot, key } => key,
        _ => None,
    }
}

/// The description of a tag without a key.
pub open spec fn tag_view(name: Seq<char>, props: Seq<PropView>, children: Seq<NodeView>) -> NodeView {
    NodeView::Element(ElementView { kind: ElementKind::Tag, name, key: None, props, children })
}

/// The description of a component without a key.
pub open spec fn component_view(
    name: Seq<char>,
    props: Seq<PropView>,
    children: Seq<NodeView>,
) -> NodeView {
    NodeView::Element(ElementView { kind: ElementKind::Component, name, key: None, props, children })
}

pub open spec fn text_prop(name: Seq<char>, value: Seq<char>) -> PropView {
    PropView { name, value: PropValueView::Text(value) }
}

pub open spec fn flag_prop(name: Seq<char>, value: bool) -> PropView {
    PropView { name, value: PropValueView::Flag(value) }
}

pub open spec fn handler_prop(name: Seq<char>, interaction: Interaction) -> PropView {
    PropView { name, value: PropValueView::Handler(interaction) }
}

pub open spec fn anchor_prop(name: Seq<char>, anchor: Anchor) -> PropView {
    PropView { name, value: PropValueView::Anchor(anchor) }
}

pub open spec fn markup_prop(name: Seq<char>, node: NodeView) -> PropView {
    PropView { name, value: PropValueView::Markup(Box::new(node)) }
}

pub open spec fn placement_prop(name: Seq<char>, placement: Placement) -> PropView {
    PropView { name, value: PropValueView::Placement(placement) }
}

pub open spec fn styles_prop(name: Seq<char>, entries: Map<Seq<char>, Seq<char>>) -> PropView {
    PropView { name, value: PropValueView::Styles(entries) }
}

pub open spec fn modifiers_prop(name: Seq<char>, modifiers: Seq<ModifierView>) -> PropView {
    PropView { name, value: PropValueView::Modifiers(modifiers) }
}

/// `true` or `false`, as an attribute value.
pub open spec fn bool_text(value: bool) -> Seq<char> {
    if value {
        "true"@
    } else {
        "false"@
    }
}

/// The properties after an optional attribute was decided: an absent value
/// gives no attribute.
pub open spec fn with_optional_text(
    props: Seq<PropView>,
    name: Seq<char>,
    value: Option<Seq<char>>,
) -> Seq<PropView> {
    match value {
        Some(text) => props.push(text_prop(name, text)),
        None => props,
    }
}

/// The view of a node that may be absent.
pub open spec fn optional_view(node: Option<Node>) -> Option<NodeView> {
    match node {
        Some(present) => Some(node_view(present)),
        None => None,
    }
}

/// The properties after an optional markup property was decided: absent
/// markup gives no property.
pub open spec fn with_optional_markup(
    props: Seq<PropView>,
    name: Seq<char>,
    value: Option<NodeView>,
) -> Seq<PropView> {
    match value {
        Some(node) => props.push(markup_prop(name, node)),
        None => props,
    }
}

/// Appending a property appends its view.
pub proof fn lemma_props_push(props: Seq<Prop>, prop: Prop)
    ensures
        props_view(props.push(prop)) == props_view(props).push(prop_view(prop)),
{
    assert(props_view(props.push(prop)) =~= props_view(props).push(prop_view(prop)));
}

/// Appending a node appends its view.
pub proof fn lemma_nodes_push(nodes: Seq<Node>, node: Node)
    ensures
        nodes_view(nodes.push(node)) == nodes_view(nodes).push(node_view(node)),
{
    assert(nodes_view(nodes.push(node)) =~= nodes_view(nodes).push(node_view(node)));
}

/// A copy of a text that may be absent.
pub fn copy_text(text: &Option<String>) -> (copy: Option<String>)
    ensures
        text_view(copy) == text_view(*text),
{
    match text {
        Some(t) => Some(t.clone()),
        None => None,
    }
}

fn duplicate_modifiers(modifiers: &Vec<Modifier>) -> (copy: Vec<Modifier>)
    ensures
        modifiers_view(copy@) == modifiers_view(modifiers@),
{
    let mut copy: Vec<Modifier> = Vec::new();
    let mut i: usize = 0;
    while i < modifiers.len()
        invariant
            i <= modifiers.len(),
            copy.len() == i,
            forall|j: int| 0 <= j < i ==> copy[j]@ == modifiers[j]@,
        decreases modifiers.len() - i,
    {
        copy.push(modifiers[i]);
        i += 1;
    }
    proof {
        assert(modifiers_view(copy@) =~= modifiers_view(modifiers@));
    }
    copy
}

impl Prop {
    pub fn text(name: &'static str, value: &str) -> (prop: Prop)
        ensures
            prop@ == text_prop(name@, value@),
    {
        Prop { name, value: PropValue::Text(value.to_owned()) }
    }

    pub fn flag(name: &'static str, value: bool) -> (prop: Prop)
        ensures
            prop@ == flag_prop(name@, value),
    {
        Prop { name, value: PropValue::Flag(value) }
    }

    pub fn handler(name: &'static str, interaction: Interaction) -> (prop: Prop)
        ensures
            prop@ == handler_prop(name@, interaction),
    {
        Prop { name, value: PropValue::Handler(interaction) }
    }

    pub fn anchor(name: &'static str, anchor: Anchor) -> (prop: Prop)
        ensures
            prop@ == anchor_prop(name@, anchor),
    {
        Prop { name, value: PropValue::Anchor(anchor) }
    }

    pub fn markup(name: &'static str, node: Node) -> (prop: Prop)
        ensures
            prop@ == markup_prop(name@, node@),
    {
        Prop { name, value: PropValue::Markup(Box::new(node)) }
    }

    pub fn placement(name: &'static str, placement: Placement) -> (prop: Prop)
        ensures
            prop@ == placement_prop(name@, placement),
    {
        Prop { name, value: PropValue::Placement(placement) }
    }

    pub fn styles(name: &'static str, styles: StylesMap) -> (prop: Prop)
        ensures
            prop@ == styles_prop(name@, style_entries(styles)),
    {
        Prop { name, value: PropValue::Styles(styles) }
    }

    pub fn modifiers(name: &'static str, modifiers: Vec<Modifier>) -> (prop: Prop)
        ensures
            prop@ == modifiers_prop(name@, modifiers_view(modifiers@)),
    {
        Prop { name, value: PropValue::Modifiers(modifiers) }
    }

    /// A deep copy.
    pub fn duplicate(&self) -> (copy: Prop)
        ensures
            copy@ == self@,
        decreases self,
    {
        let value = match &self.value {
            PropValue::Text(text) => PropValue::Text(text.clone()),
            PropValue::Flag(flag) => PropValue::Flag(*flag),
            PropValue::Handler(interaction) => PropValue::Handler(*interaction),
            PropValue::Anchor(anchor) => PropValue::Anchor(*anchor),
            PropValue::Markup(node) => PropValue::Markup(Box::new(node.duplicate())),
            PropValue::Placement(placement) => PropValue::Placement(*placement),
            PropValue::Styles(styles) => PropValue::Styles(styles.clone()),
            PropValue::Modifiers(modifiers) => PropValue::Modifiers(duplicate_modifiers(modifiers)),
        };
        Prop { name: self.name, value }
    }
}

/// Deep copies of the properties, in order.
pub fn duplicate_props(props: &Vec<Prop>) -> (copy: Vec<Prop>)
    ensures
        props_view(copy@) == props_view(props@),
    decreases props,
{
    let mut copy: Vec<Prop> = Vec::new();
    let mut i: usize = 0;
    while i < props.len()
        invariant
            i <= props.len(),
            copy.len() == i,
            forall|j: int| 0 <= j < i ==> copy[j]@ == props[j]@,
        decreases props.len() - i,
    {
        copy.push(props[i].duplicate());
        i += 1;
    }
    proof {
        assert(props_view(copy@) =~= props_view(props@));
    }
    copy
}

/// Deep copies of the nodes, in order.
pub fn duplicate_nodes(nodes: &Vec<Node>) -> (copy: Vec<Node>)
    ensures
        nodes_view(copy@) == nodes_view(nodes@),
    decreases nodes,
{
    let mut copy: Vec<Node> = Vec::new();
    let mut i: usize = 0;
    while i < nodes.len()
        invariant
            i <= nodes.len(),
            copy.len() == i,
            forall|j: int| 0 <= j < i ==> copy[j]@ == nodes[j]@,
        decreases nodes.len() - i,
    {
        copy.push(nodes[i].duplicate());
        i += 1;
    }
    proof {
        assert(nodes_view(copy@) =~= nodes_view(nodes@));
    }
    copy
}

/// `true` or `false`, as an attribute value.
pub fn bool_attribute(value: bool) -> (text: &'static str)
    ensures
        text@ == bool_text(value),
{
    if value {
        "true"
    } else {
        "false"
    }
}

/// No properties.
pub fn no_props() -> (props: Vec<Prop>)
    ensures
        props_view(props@) == Seq::<PropView>::empty(),
{
    let props: Vec<Prop> = Vec::new();
    assert(props_view(props@) =~= Seq::<PropView>::empty());
    props
}

/// No nodes.
pub fn no_nodes() -> (nodes: Vec<Node>)
    ensures
        nodes_view(nodes@) == Seq::<NodeView>::empty(),
{
    let nodes: Vec<Node> = Vec::new();
    assert(nodes_view(nodes@) =~= Seq::<NodeView>::empty());
    nodes
}

/// Appends a property.
pub fn push_prop(props: &mut Vec<Prop>, prop: Prop)
    ensures
        props_view(final(props)@) == props_view(old(props)@).push(prop@),
{
    proof {
        lemma_props_push(props@, prop);
    }
    props.push(prop);
}

/// Appends an attribute if it has a value.
pub fn push_optional_text(props: &mut Vec<Prop>, name: &'static str, value: &Option<String>)
    ensures
        props_view(final(props)@) == with_optional_text(
            props_view(old(props)@),
            name@,
            text_view(*value),
        ),
{
    match value {
        Some(text) => {
            push_prop(props, Prop::text(name, text.as_str()));
        },
        None => {},
    }
}

/// Appends a markup property if there is markup.
pub fn push_optional_markup(props: &mut Vec<Prop>, name: &'static str, value: &Option<Node>)
    ensures
        props_view(final(props)@) == with_optional_markup(
            props_view(old(props)@),
            name@,
            optional_view(*value),
        ),
{
    match value {
        Some(node) => {
            push_prop(props, Prop::markup(name, node.duplicate()));
        },
        None => {},
    }
}

/// Appends a node.
pub fn push_node(nodes: &mut Vec<Node>, node: Node)
    ensures
        nodes_view(final(nodes)@) == nodes_view(old(nodes)@).push(node@),
{
    proof {
        lemma_nodes_push(nodes@, node);
    }
    nodes.push(node);
}

impl Node {
    pub fn text(value: &str) -> (node: Node)
        ensures
            node@ == NodeView::Text(value@),
    {
        Node::Text(value.to_owned())
    }

    /// A tag without a key.
    pub fn tag(name: &'static str, props: Vec<Prop>, children: Vec<Node>) -> (node: Node)
        ensures
            node@ == tag_view(name@, props_view(props@), nodes_view(children@)),
    {
        Node::Element(
            Element { kind: ElementKind::Tag, name, key: None, props, children },
        )
    }

    /// A component without a key.
    pub fn component(name: &'static str, props: Vec<Prop>, children: Vec<Node>) -> (node: Node)
        ensures
            node@ == component_view(name@, props_view(props@), nodes_view(children@)),
    {
        Node::Element(
            Element {
                kind: ElementKind::Component,
                name,
                key: None,
                props,
                children,
            },
        )
    }

    pub fn fragment(children: Vec<Node>) -> (node: Node)
        ensures
            node@ == NodeView::Fragment(nodes_view(children@)),
    {
        Node::Fragment(children)
    }

    /// The node that renders nothing.
    pub fn empty() -> (node: Node)
        ensures
            node@ == NodeView::Fragment(Seq::empty()),
    {
        Node::Fragment(no_nodes())
    }

    /// The key under which the host tells this node from its siblings.
    pub fn key(&self) -> (key: Option<String>)
        ensures
            text_view(key) == key_of(self@),
    {
        match self {
            Node::Element(element) => copy_text(&element.key),
            Node::Outside { slot, key } => copy_text(key),
            _ => None,
        }
    }

    /// A deep copy.
    pub fn duplicate(&self) -> (copy: Node)
        ensures
            copy@ == self@,
        decreases self,
    {
        match self {
            Node::Element(element) => Node::Element(
                Element {
                    kind: element.kind,
                    name: element.name,
                    key: copy_text(&element.key),
                    props: duplicate_props(&element.props),
                    children: duplicate_nodes(&element.children),
                },
            ),
            Node::Text(text) => Node::Text(text.clone()),
            Node::Fragment(children) => Node::Fragment(duplicate_nodes(children)),
            Node::Outside { slot, key } => Node::Outside { slot: *slot, key: copy_text(key) },
        }
    }
}

impl Clone for Node {
    fn clone(&self) -> (copy: Node)
        ensures
            copy@ == self@,
    {
        self.duplicate()
    }
}

impl Clone for Prop {
    fn clone(&self) -> (copy: Prop)
        ensures
            copy@ == self@,
    {
        self.duplicate()
    }
}

} // verus!
