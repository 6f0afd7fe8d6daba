//! Accordion

use crate::classes::{
    class_if, class_names, extend_by_class, is_class_token, joined, lemma_member_after,
    push_class_attribute, single_class,
};
use crate::markup::{
    bool_attribute, bool_text, duplicate_nodes, flag_prop, handler_prop, no_nodes, no_props,
    nodes_view, props_view, push_node, push_prop, tag_view, text_prop, Interaction, Node,
    NodeView, Prop, PropView,
};
use crate::state::{Controlled, Notice};
use crate::wrap::{wrapped, wrapper_div_with_attributes};
use vstd::prelude::*;
use yew::html::Classes;

verus! {

#[derive(Clone, Debug, PartialEq, Eq)]
pub struct AccordionProperties {
    pub bordered: bool,
    pub large: bool,
    pub children: Vec<Node>,
}

pub struct AccordionPropertiesView {
    pub bordered: bool,
    pub large: bool,
    pub children: Seq<NodeView>,
}

impl View for AccordionProperties {
    type V = AccordionPropertiesView;

    open spec fn view(&self) -> AccordionPropertiesView {
        AccordionPropertiesView {
            bordered: self.bordered,
            large: self.large,
            children: nodes_view(self.children@),
        }
    }
}

/// The classes of an accordion: the component class, then `pf-m-bordered` if
/// and only if it is bordered, then `pf-m-display-lg` if and only if it is
/// large.
pub open spec fn accordion_class_names(bordered: bool, large: bool) -> Seq<Seq<char>> {
    seq!["pf-v6-c-accordion"@] + class_if(bordered, "pf-m-bordered"@) + class_if(
        large,
        "pf-m-display-lg"@,
    )
}

/// The markup of an accordion: a `div` with its classes around the items.
pub open spec fn accordion_markup(props: AccordionPropertiesView) -> NodeView {
    tag_view(
        "div"@,
        seq![text_prop("class"@, joined(accordion_class_names(props.bordered, props.large)))],
        props.children,
    )
}

/// The classes of an accordion follow its flags: the component class is
/// always there, `pf-m-bordered` if and only if the accordion is bordered,
/// `pf-m-display-lg` if and only if it is large, and nothing else.
pub proof fn lemma_accordion_classes_follow_flags(bordered: bool, large: bool)
    ensures
        accordion_class_names(bordered, large).contains("pf-v6-c-accordion"@),
        accordion_class_names(bordered, large).contains("pf-m-bordered"@) <==> bordered,
        accordion_class_names(bordered, large).contains("pf-m-display-lg"@) <==> large,
        forall|name: Seq<char>| #[trigger]
            accordion_class_names(bordered, large).contains(name) ==> name == "pf-v6-c-accordion"@
                || name == "pf-m-bordered"@ || name == "pf-m-display-lg"@,
{
    reveal_strlit("pf-v6-c-accordion");
    reveal_strlit("pf-m-bordered");
    reveal_strlit("pf-m-display-lg");
    let base = seq!["pf-v6-c-accordion"@];
    let bordering = base + class_if(bordered, "pf-m-bordered"@);
    assert(base[0] == "pf-v6-c-accordion"@);
    assert("pf-v6-c-accordion"@.len() == 17);
    assert("pf-m-bordered"@.len() == 13);
    assert("pf-m-display-lg"@.len() == 15);
    assert forall|name: Seq<char>|
        accordion_class_names(bordered, large).contains(name) <==> (name == "pf-v6-c-accordion"@
            || (bordered && name == "pf-m-bordered"@) || (large && name
            == "pf-m-display-lg"@)) by {
        lemma_member_after(base, bordered, "pf-m-bordered"@, name);
        lemma_member_after(bordering, large, "pf-m-display-lg"@, name);
    }
    assert(accordion_class_names(bordered, large).contains("pf-v6-c-accordion"@));
    assert(accordion_class_names(bordered, large).contains("pf-m-bordered"@) <==> bordered);
    assert(accordion_class_names(bordered, large).contains("pf-m-display-lg"@) <==> large);
}

/// A component class with one modifier holds the component class always, and
/// the modifier if and only if its flag is set, and nothing else.
pub proof fn lemma_modifier_follows_flag(base: Seq<char>, modifier: Seq<char>, on: bool)
    requires
        base != modifier,
    ensures
        (seq![base] + class_if(on, modifier)).contains(base),
        (seq![base] + class_if(on, modifier)).contains(modifier) <==> on,
        forall|name: Seq<char>| #[trigger]
            (seq![base] + class_if(on, modifier)).contains(name) ==> name == base || name
                == modifier,
{
    assert(seq![base][0] == base);
    assert forall|name: Seq<char>|
        (seq![base] + class_if(on, modifier)).contains(name) <==> (name == base || (on && name
            == modifier)) by {
        lemma_member_after(seq![base], on, modifier, name);
    }
    assert((seq![base] + class_if(on, modifier)).contains(base));
    assert((seq![base] + class_if(on, modifier)).contains(modifier) <==> on);
}

/// The classes of an accordion item follow its state and flags:
/// `pf-m-expanded` is on the item and on its toggle if and only if the item is
/// expanded, and `pf-m-fixed` is on the content panel if and only if the item
/// is fixed.
pub proof fn lemma_item_classes_follow_flags(expanded: bool, fixed: bool)
    ensures
        item_class_names(expanded).contains("pf-v6-c-accordion__item"@),
        item_class_names(expanded).contains("pf-m-expanded"@) <==> expanded,
        toggle_class_names(expanded).contains("pf-v6-c-accordion__toggle"@),
        toggle_class_names(expanded).contains("pf-m-expanded"@) <==> expanded,
        content_class_names(fixed).contains("pf-v6-c-accordion__expandable-content"@),
        content_class_names(fixed).contains("pf-m-fixed"@) <==> fixed,
{
    reveal_strlit("pf-v6-c-accordion__item");
    reveal_strlit("pf-v6-c-accordion__toggle");
    reveal_strlit("pf-v6-c-accordion__expandable-content");
    reveal_strlit("pf-m-expanded");
    reveal_strlit("pf-m-fixed");
    assert("pf-v6-c-accordion__item"@.len() == 23);
    assert("pf-v6-c-accordion__toggle"@.len() == 25);
    assert("pf-v6-c-accordion__expandable-content"@.len() == 37);
    assert("pf-m-expanded"@.len() == 13);
    assert("pf-m-fixed"@.len() == 10);
    lemma_modifier_follows_flag("pf-v6-c-accordion__item"@, "pf-m-expanded"@, expanded);
    lemma_modifier_follows_flag("pf-v6-c-accordion__toggle"@, "pf-m-expanded"@, expanded);
    lemma_modifier_follows_flag("pf-v6-c-accordion__expandable-content"@, "pf-m-fixed"@, fixed);
}

/// Composes the classes of an accordion.
pub fn accordion_classes(bordered: bool, large: bool) -> (class: Classes)
    ensures
        class_names(class) == accordion_class_names(bordered, large),
{
    proof {
        reveal_strlit("pf-v6-c-accordion");
        reveal_strlit("pf-m-bordered");
        reveal_strlit("pf-m-display-lg");
        lemma_accordion_classes_follow_flags(bordered, false);
    }
    let mut class = single_class("pf-v6-c-accordion");
    if bordered {
        extend_by_class(&mut class, "pf-m-bordered");
    }
    assert(class_names(class) =~= accordion_class_names(bordered, false));
    if large {
        extend_by_class(&mut class, "pf-m-display-lg");
    }
    assert(class_names(class) =~= accordion_class_names(bordered, large));
    class
}

/// Accordion component
pub fn accordion(props: &AccordionProperties) -> (node: Node)
    ensures
        node@ == accordion_markup(props@),
{
    let class = accordion_classes(props.bordered, props.large);
    let mut attributes = no_props();
    push_class_attribute(&mut attributes, &class);
    Node::tag("div", attributes, duplicate_nodes(&props.children))
}

#[derive(Clone, Debug, PartialEq, Eq)]
pub struct AccordionItemProperties {
    pub title: String,
    /// The controlling value of the expanded state.
    pub expanded: bool,
    pub fixed: bool,
    pub children: Vec<Node>,
}

pub struct AccordionItemPropertiesView {
    pub title: Seq<char>,
    pub expanded: bool,
    pub fixed: bool,
    pub children: Seq<NodeView>,
}

impl View for AccordionItemProperties {
    type V = AccordionItemPropertiesView;

    open spec fn view(&self) -> AccordionItemPropertiesView {
        AccordionItemPropertiesView {
            title: self.title@,
            expanded: self.expanded,
            fixed: self.fixed,
            children: nodes_view(self.children@),
        }
    }
}

/// The classes of an item: `pf-m-expanded` if and only if it is expanded.
pub open spec fn item_class_names(expanded: bool) -> Seq<Seq<char>> {
    seq!["pf-v6-c-accordion__item"@] + class_if(expanded, "pf-m-expanded"@)
}

/// The classes of an item's toggle: `pf-m-expanded` if and only if the item
/// is expanded.
pub open spec fn toggle_class_names(expanded: bool) -> Seq<Seq<char>> {
    seq!["pf-v6-c-accordion__toggle"@] + class_if(expanded, "pf-m-expanded"@)
}

/// The classes of an item's content panel: `pf-m-fixed` if and only if the
/// item is fixed.
pub open spec fn content_class_names(fixed: bool) -> Seq<Seq<char>> {
    seq!["pf-v6-c-accordion__expandable-content"@] + class_if(fixed, "pf-m-fixed"@)
}

/// The attributes of the element around each child of an item.
pub open spec fn body_attributes() -> Seq<PropView> {
    seq![text_prop("class"@, "pf-v6-c-accordion__expandable-content-body"@)]
}

/// The children of an item, each in its body element, which takes the child's
/// key.
pub open spec fn item_bodies(children: Seq<NodeView>) -> Seq<NodeView> {
    Seq::new(children.len(), |i: int| wrapped(children[i], "div"@, body_attributes()))
}

/// The toggle of an item: a button that reports [`Interaction::ToggleAccordionItem`].
pub open spec fn item_toggle_markup(title: Seq<char>, expanded: bool) -> NodeView {
    tag_view(
        "button"@,
        Seq::empty()
            .push(text_prop("class"@, joined(toggle_class_names(expanded))))
            .push(handler_prop("onclick"@, Interaction::ToggleAccordionItem))
            .push(text_prop("type"@, "button"@))
            .push(text_prop("aria-expanded"@, bool_text(expanded))),
        Seq::empty()
            .push(
                tag_view(
                    "span"@,
                    seq![text_prop("class"@, "pf-v6-c-accordion__toggle-text"@)],
                    seq![NodeView::Text(title)],
                ),
            )
            .push(
                tag_view(
                    "span"@,
                    seq![text_prop("class"@, "pf-v6-c-accordion__toggle-icon"@)],
                    seq![
                        tag_view(
                            "i"@,
                            Seq::empty()
                                .push(text_prop("class"@, "fas fa-angle-right"@))
                                .push(text_prop("aria-hidden"@, "true"@)),
                            Seq::empty(),
                        ),
                    ],
                ),
            ),
    )
}

/// The markup of an item whose local expanded state is `expanded`.
///
/// The classes, `aria-expanded` and the `hidden` flag of the content panel
/// all follow the local state: the flag is set while the item is expanded, and
/// not set while it is collapsed.
pub open spec fn accordion_item_markup(props: AccordionItemPropertiesView, expanded: bool) -> NodeView {
    tag_view(
        "div"@,
        seq![text_prop("class"@, joined(item_class_names(expanded)))],
        Seq::empty()
            .push(tag_view("dt"@, Seq::empty(), seq![item_toggle_markup(props.title, expanded)]))
            .push(
                tag_view(
                    "dd"@,
                    Seq::empty()
                        .push(text_prop("class"@, joined(content_class_names(props.fixed))))
                        .push(flag_prop("hidden"@, expanded)),
                    item_bodies(props.children),
                ),
            ),
    )
}

/// A component class, followed by `modifier` if and only if `on`.
fn modified_class(base: &'static str, modifier: &'static str, on: bool) -> (class: Classes)
    requires
        is_class_token(base@),
        is_class_token(modifier@),
        base@ != modifier@,
    ensures
        class_names(class) == seq![base@] + class_if(on, modifier@),
{
    let mut class = single_class(base);
    if on {
        extend_by_class(&mut class, modifier);
    }
    assert(class_names(class) =~= seq![base@] + class_if(on, modifier@));
    class
}

/// Composes the classes of an item.
pub fn item_classes(expanded: bool) -> (class: Classes)
    ensures
        class_names(class) == item_class_names(expanded),
{
    proof {
        reveal_strlit("pf-v6-c-accordion__item");
        reveal_strlit("pf-m-expanded");
    }
    modified_class("pf-v6-c-accordion__item", "pf-m-expanded", expanded)
}

/// Composes the classes of an item's toggle.
pub fn toggle_classes(expanded: bool) -> (class: Classes)
    ensures
        class_names(class) == toggle_class_names(expanded),
{
    proof {
        reveal_strlit("pf-v6-c-accordion__toggle");
        reveal_strlit("pf-m-expanded");
    }
    modified_class("pf-v6-c-accordion__toggle", "pf-m-expanded", expanded)
}

/// Composes the classes of an item's content panel.
pub fn content_classes(fixed: bool) -> (class: Classes)
    ensures
        class_names(class) == content_class_names(fixed),
{
    proof {
        reveal_strlit("pf-v6-c-accordion__expandable-content");
        reveal_strlit("pf-m-fixed");
    }
    modified_class("pf-v6-c-accordion__expandable-content", "pf-m-fixed", fixed)
}

fn item_toggle(title: &String, expanded: bool) -> (node: Node)
    ensures
        node@ == item_toggle_markup(title@, expanded),
{
    let mut text_attributes = no_props();
    push_prop(&mut text_attributes, Prop::text("class", "pf-v6-c-accordion__toggle-text"));
    let mut text_children = no_nodes();
    push_node(&mut text_children, Node::Text(title.clone()));

    let mut angle_attributes = no_props();
    push_prop(&mut angle_attributes, Prop::text("class", "fas fa-angle-right"));
    push_prop(&mut angle_attributes, Prop::text("aria-hidden", "true"));
    let mut icon_attributes = no_props();
    push_prop(&mut icon_attributes, Prop::text("class", "pf-v6-c-accordion__toggle-icon"));
    let mut icon_children = no_nodes();
    push_node(&mut icon_children, Node::tag("i", angle_attributes, no_nodes()));

    let mut attributes = no_props();
    push_class_attribute(&mut attributes, &toggle_classes(expanded));
    push_prop(&mut attributes, Prop::handler("onclick", Interaction::ToggleAccordionItem));
    push_prop(&mut attributes, Prop::text("type", "button"));
    push_prop(&mut attributes, Prop::text("aria-expanded", bool_attribute(expanded)));
    let mut children = no_nodes();
    push_node(&mut children, Node::tag("span", text_attributes, text_children));
    push_node(&mut children, Node::tag("span", icon_attributes, icon_children));
    Node::tag("button", attributes, children)
}

fn wrap_bodies(children: &Vec<Node>) -> (bodies: Vec<Node>)
    ensures
        nodes_view(bodies@) == item_bodies(nodes_view(children@)),
{
    let mut attributes = no_props();
    push_prop(&mut attributes, Prop::text("class", "pf-v6-c-accordion__expandable-content-body"));
    let mut bodies: Vec<Node> = Vec::new();
    let mut i: usize = 0;
    while i < children.len()
        invariant
            i <= children.len(),
            bodies.len() == i,
            props_view(attributes@) == body_attributes(),
            forall|j: int| 0 <= j < i ==> bodies[j]@ == wrapped(children[j]@, "div"@, body_attributes()),
        decreases children.len() - i,
    {
        bodies.push(wrapper_div_with_attributes(children[i].duplicate(), &attributes));
        i += 1;
    }
    proof {
        assert(nodes_view(bodies@) =~= item_bodies(nodes_view(children@)));
    }
    bodies
}

/// Accordion item component: renders the item for the local state `state`.
pub fn accordion_item(props: &AccordionItemProperties, state: &Controlled) -> (node: Node)
    ensures
        node@ == accordion_item_markup(props@, state.local),
{
    let expanded = state.value();
    let mut term_children = no_nodes();
    push_node(&mut term_children, item_toggle(&props.title, expanded));

    let mut content_attributes = no_props();
    push_class_attribute(&mut content_attributes, &content_classes(props.fixed));
    push_prop(&mut content_attributes, Prop::flag("hidden", expanded));

    let mut attributes = no_props();
    push_class_attribute(&mut attributes, &item_classes(expanded));
    let mut children = no_nodes();
    push_node(&mut children, Node::tag("dt", no_props(), term_children));
    push_node(&mut children, Node::tag("dd", content_attributes, wrap_bodies(&props.children)));
    Node::tag("div", attributes, children)
}

/// Handles a click on the toggle of an item: the local state flips, and the
/// caller's click callback is owed one notification without a payload.
pub fn accordion_item_clicked(state: Controlled) -> (outcome: (Controlled, Notice))
    ensures
        outcome.0 == state.toggled(),
        outcome.1 == Notice::Signal,
{
    (state.toggle(), Notice::Signal)
}

/// The state of an item and the notifications owed to the caller's click
/// callback after `count` clicks on the toggle, oldest first.
pub open spec fn after_clicks(state: Controlled, count: nat) -> (Controlled, Seq<Notice>)
    decreases count,
{
    if count == 0 {
        (state, Seq::empty())
    } else {
        let before = after_clicks(state, (count - 1) as nat);
        (before.0.toggled(), before.1.push(Notice::Signal))
    }
}

/// Clicks between two updates flip the local state of an item once each and
/// leave the controlling value seen last alone; the click callback is owed
/// exactly one notification for each click.
pub proof fn lemma_each_click_notifies_once(state: Controlled, count: nat)
    ensures
        after_clicks(state, count).0 == state.after_toggles(count),
        after_clicks(state, count).0.observed == state.observed,
        after_clicks(state, count).0.local == (if count % 2 == 0 {
            state.local
        } else {
            !state.local
        }),
        after_clicks(state, count).1.len() == count,
        forall|i: int| 0 <= i < count ==> after_clicks(state, count).1[i] == Notice::Signal,
    decreases count,
{
    if count > 0 {
        lemma_each_click_notifies_once(state, (count - 1) as nat);
    }
}

/// Rendering an item twice from the same configuration and local state gives
/// the same markup.
pub proof fn lemma_item_render_is_idempotent(
    props: AccordionItemProperties,
    state: Controlled,
    first: Node,
    second: Node,
)
    requires
        first@ == accordion_item_markup(props@, state.local),
        second@ == accordion_item_markup(props@, state.local),
    ensures
        first@ == second@,
{
}

/// Rendering an accordion twice from the same configuration gives the same
/// markup.
pub proof fn lemma_accordion_render_is_idempotent(props: AccordionProperties, first: Node, second: Node)
    requires
        first@ == accordion_markup(props@),
        second@ == accordion_markup(props@),
    ensures
        first@ == second@,
{
}

} // verus!
