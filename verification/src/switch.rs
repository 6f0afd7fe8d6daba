//! Switch control

use crate::markup::{
    anchor_prop, bool_attribute, bool_text, component_view, flag_prop, handler_prop, no_nodes, no_props, push_node,
    push_optional_text, push_prop, tag_view, text_prop, text_view, with_optional_text, Anchor,
    Interaction, Node, NodeView, Prop,
};
use crate::state::{Controlled, Notice};
use vstd::prelude::*;

verus! {

/// Properties for the switch.
#[derive(Clone, Debug, PartialEq, Eq)]
pub struct SwitchProperties {
    pub id: Option<String>,
    /// The controlling value of the checked state.
    pub checked: bool,
    pub label: Option<String>,
    pub label_off: Option<String>,
    pub disabled: bool,
    pub aria_label: String,
    /// OUIA component id
    pub ouia_id: Option<String>,
    /// OUIA component type
    pub ouia_type: String,
    /// OUIA component safe
    pub ouia_safe: bool,
}

pub struct SwitchPropertiesView {
    pub id: Option<Seq<char>>,
    pub checked: bool,
    pub label: Option<Seq<char>>,
    pub label_off: Option<Seq<char>>,
    pub disabled: bool,
    pub aria_label: Seq<char>,
    pub ouia_id: Option<Seq<char>>,
    pub ouia_type: Seq<char>,
    pub ouia_safe: bool,
}

impl View for SwitchProperties {
    type V = SwitchPropertiesView;

    open spec fn view(&self) -> SwitchPropertiesView {
        SwitchPropertiesView {
            id: text_view(self.id),
            checked: self.checked,
            label: text_view(self.label),
            label_off: text_view(self.label_off),
            disabled: self.disabled,
            aria_label: self.aria_label@,
            ouia_id: text_view(self.ouia_id),
            ouia_type: self.ouia_type@,
            ouia_safe: self.ouia_safe,
        }
    }
}

/// The OUIA id that a switch carries: the configured one, else the one that the
/// host generated for it.
pub open spec fn resolved_ouia_id(configured: Option<Seq<char>>, generated: Seq<char>) -> Seq<char> {
    match configured {
        Some(id) => id,
        None => generated,
    }
}

/// The text beside the switch, if any: the label while checked; while not
/// checked, the label for the off state if there is one, else the label. A
/// switch without a label shows no text, whatever the label for the off state.
pub open spec fn switch_label_text(
    label: Option<Seq<char>>,
    label_off: Option<Seq<char>>,
    checked: bool,
) -> Option<Seq<char>> {
    match label {
        Some(on) => if checked {
            Some(on)
        } else {
            match label_off {
                Some(off) => Some(off),
                None => Some(on),
            }
        },
        None => None,
    }
}

/// The label element for a text.
pub open spec fn switch_label_markup(text: Seq<char>) -> NodeView {
    tag_view(
        "span"@,
        seq![text_prop("class"@, "pf-v6-c-switch__label"@)],
        seq![NodeView::Text(text)],
    )
}

/// The label of a switch, or nothing.
pub open spec fn switch_label_node(
    label: Option<Seq<char>>,
    label_off: Option<Seq<char>>,
    checked: bool,
) -> NodeView {
    match switch_label_text(label, label_off, checked) {
        Some(text) => switch_label_markup(text),
        None => NodeView::Fragment(Seq::empty()),
    }
}

/// The check mark that a switch without a label shows in its toggle.
pub open spec fn switch_toggle_icon() -> NodeView {
    tag_view(
        "span"@,
        seq![text_prop("class"@, "pf-v6-c-switch__toggle-icon"@)],
        seq![component_view("Icon"@, seq![text_prop("icon"@, "Check"@)], Seq::empty())],
    )
}

/// The checkbox of a switch. It follows the local state and reports
/// [`Interaction::ChangeSwitch`].
pub open spec fn switch_input_markup(props: SwitchPropertiesView, checked: bool) -> NodeView {
    tag_view(
        "input"@,
        with_optional_text(
            Seq::empty()
                .push(anchor_prop("ref"@, Anchor::SwitchInput))
                .push(text_prop("class"@, "pf-v6-c-switch__input"@))
                .push(text_prop("type"@, "checkbox"@)),
            "id"@,
            props.id,
        )
            .push(text_prop("aria-label"@, props.aria_label))
            .push(flag_prop("checked"@, checked))
            .push(flag_prop("disabled"@, props.disabled))
            .push(handler_prop("onchange"@, Interaction::ChangeSwitch)),
        Seq::empty(),
    )
}

/// The markup of a switch whose local state is `checked` and whose OUIA id
/// was resolved to `ouia_id`.
pub open spec fn switch_markup(props: SwitchPropertiesView, checked: bool, ouia_id: Seq<char>) -> NodeView {
    tag_view(
        "label"@,
        with_optional_text(seq![text_prop("class"@, "pf-v6-c-switch"@)], "for"@, props.id)
            .push(text_prop("data-ouia-component-id"@, ouia_id))
            .push(text_prop("data-ouia-component-type"@, props.ouia_type))
            .push(text_prop("data-ouia-safe"@, bool_text(props.ouia_safe))),
        Seq::empty()
            .push(switch_input_markup(props, checked))
            .push(
                tag_view(
                    "span"@,
                    seq![text_prop("class"@, "pf-v6-c-switch__toggle"@)],
                    seq![
                        if props.label is None {
                            switch_toggle_icon()
                        } else {
                            NodeView::Fragment(Seq::empty())
                        },
                    ],
                ),
            )
            .push(switch_label_node(props.label, props.label_off, checked)),
    )
}

/// Resolves the OUIA id of a switch from the configured id and the id that the
/// host generated.
pub fn resolve_ouia_id(configured: &Option<String>, generated: String) -> (id: String)
    ensures
        id@ == resolved_ouia_id(text_view(*configured), generated@),
{
    match configured {
        Some(id) => id.clone(),
        None => generated,
    }
}

fn switch_label(props: &SwitchProperties, checked: bool) -> (node: Node)
    ensures
        node@ == switch_label_node(props@.label, props@.label_off, checked),
{
    match &props.label {
        Some(on) => {
            let text = if checked {
                on
            } else {
                match &props.label_off {
                    Some(off) => off,
                    None => on,
                }
            };
            let mut attributes = no_props();
            push_prop(&mut attributes, Prop::text("class", "pf-v6-c-switch__label"));
            let mut children = no_nodes();
            push_node(&mut children, Node::Text(text.clone()));
            Node::tag("span", attributes, children)
        },
        None => Node::empty(),
    }
}

fn switch_input(props: &SwitchProperties, checked: bool) -> (node: Node)
    ensures
        node@ == switch_input_markup(props@, checked),
{
    let mut attributes = no_props();
    push_prop(&mut attributes, Prop::anchor("ref", Anchor::SwitchInput));
    push_prop(&mut attributes, Prop::text("class", "pf-v6-c-switch__input"));
    push_prop(&mut attributes, Prop::text("type", "checkbox"));
    push_optional_text(&mut attributes, "id", &props.id);
    push_prop(&mut attributes, Prop::text("aria-label", props.aria_label.as_str()));
    push_prop(&mut attributes, Prop::flag("checked", checked));
    push_prop(&mut attributes, Prop::flag("disabled", props.disabled));
    push_prop(&mut attributes, Prop::handler("onchange", Interaction::ChangeSwitch));
    Node::tag("input", attributes, no_nodes())
}

fn switch_toggle(props: &SwitchProperties) -> (node: Node)
    ensures
        node@ == tag_view(
            "span"@,
            seq![text_prop("class"@, "pf-v6-c-switch__toggle"@)],
            seq![
                if props@.label is None {
                    switch_toggle_icon()
                } else {
                    NodeView::Fragment(Seq::empty())
                },
            ],
        ),
{
    let icon = if props.label.is_none() {
        let mut check_props = no_props();
        push_prop(&mut check_props, Prop::text("icon", "Check"));
        let mut icon_children = no_nodes();
        push_node(&mut icon_children, Node::component("Icon", check_props, no_nodes()));
        let mut icon_attributes = no_props();
        push_prop(&mut icon_attributes, Prop::text("class", "pf-v6-c-switch__toggle-icon"));
        Node::tag("span", icon_attributes, icon_children)
    } else {
        Node::empty()
    };
    let mut attributes = no_props();
    push_prop(&mut attributes, Prop::text("class", "pf-v6-c-switch__toggle"));
    let mut children = no_nodes();
    push_node(&mut children, icon);
    Node::tag("span", attributes, children)
}

/// Switch component: renders the switch for the local state `state`, with the
/// OUIA id that [`resolve_ouia_id`] gave.
pub fn switch(props: &SwitchProperties, state: &Controlled, ouia_id: &str) -> (node: Node)
    ensures
        node@ == switch_markup(props@, state.local, ouia_id@),
{
    let checked = state.value();
    let mut attributes = no_props();
    push_prop(&mut attributes, Prop::text("class", "pf-v6-c-switch"));
    push_optional_text(&mut attributes, "for", &props.id);
    push_prop(&mut attributes, Prop::text("data-ouia-component-id", ouia_id));
    push_prop(&mut attributes, Prop::text("data-ouia-component-type", props.ouia_type.as_str()));
    push_prop(&mut attributes, Prop::text("data-ouia-safe", bool_attribute(props.ouia_safe)));
    let mut children = no_nodes();
    push_node(&mut children, switch_input(props, checked));
    push_node(&mut children, switch_toggle(props));
    push_node(&mut children, switch_label(props, checked));
    Node::tag("label", attributes, children)
}

/// Handles a change of the input: the local state takes the input's checked
/// state, and the caller's change callback is owed one notification that
/// carries that value.
pub fn switch_changed(state: Controlled, input_checked: bool) -> (outcome: (Controlled, Notice))
    ensures
        outcome.0 == state.replaced(input_checked),
        outcome.1 == Notice::Value(input_checked),
{
    (state.replace(input_checked), Notice::Value(input_checked))
}

/// The state of a switch and the notifications owed to the caller's change
/// callback after the input changed to each of `inputs` in turn, oldest first.
pub open spec fn after_changes(state: Controlled, inputs: Seq<bool>) -> (Controlled, Seq<Notice>)
    decreases inputs.len(),
{
    if inputs.len() == 0 {
        (state, Seq::empty())
    } else {
        let before = after_changes(state, inputs.drop_last());
        (before.0.replaced(inputs.last()), before.1.push(Notice::Value(inputs.last())))
    }
}

/// Changes between two updates set the local state of a switch and leave the
/// controlling value seen last alone; the change callback is owed exactly one
/// notification for each change, and it carries the local value that the
/// change left behind.
pub proof fn lemma_each_change_notifies_once(state: Controlled, inputs: Seq<bool>)
    ensures
        after_changes(state, inputs).0.observed == state.observed,
        after_changes(state, inputs).0.local == (if inputs.len() == 0 {
            state.local
        } else {
            inputs.last()
        }),
        after_changes(state, inputs).1.len() == inputs.len(),
        forall|i: int|
            0 <= i < inputs.len() ==> after_changes(state, inputs).1[i] == Notice::Value(
                after_changes(state, inputs.take(i + 1)).0.local,
            ),
    decreases inputs.len(),
{
    if inputs.len() > 0 {
        let earlier = inputs.drop_last();
        lemma_each_change_notifies_once(state, earlier);
        assert forall|i: int| 0 <= i < inputs.len() implies after_changes(state, inputs).1[i]
            == Notice::Value(after_changes(state, inputs.take(i + 1)).0.local) by {
            if i < earlier.len() {
                assert(inputs.take(i + 1) =~= earlier.take(i + 1));
            } else {
                assert(inputs.take(i + 1) =~= inputs);
            }
        }
    }
}

/// Rendering a switch twice from the same configuration, local state and OUIA
/// id gives the same markup.
pub proof fn lemma_switch_render_is_idempotent(
    props: SwitchProperties,
    state: Controlled,
    ouia_id: Seq<char>,
    first: Node,
    second: Node,
)
    requires
        first@ == switch_markup(props@, state.local, ouia_id),
        second@ == switch_markup(props@, state.local, ouia_id),
    ensures
        first@ == second@,
{
}

/// A switch without a label renders no label element and shows the check mark
/// in its toggle; a switch with a label renders no check mark.
pub proof fn lemma_switch_label_and_icon_exclude_each_other(
    props: SwitchPropertiesView,
    checked: bool,
)
    ensures
        props.label is None ==> switch_label_node(props.label, props.label_off, checked)
            == NodeView::Fragment(Seq::empty()),
        props.label is Some ==> switch_label_node(props.label, props.label_off, checked)
            != NodeView::Fragment(Seq::empty()),
{
}

} // verus!
