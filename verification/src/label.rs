//! Label

use crate::classes::{
    add_class, add_class_when, class_if, class_names, is_class_token, joined, lemma_member_after,
    lemma_with_one_class, push_class_attribute, single_class, with_classes,
};
use crate::markup::{
    component_view, flag_prop, handler_prop, no_nodes, no_props, optional_view, push_node, push_prop,
    tag_view, text_prop, Interaction, Node, NodeView, Prop,
};
use vstd::prelude::*;
use yew::html::Classes;

verus! {

#[derive(Copy, Clone, Debug, PartialEq, Eq)]
pub enum Color {
    Grey,
    Blue,
    Green,
    Orange,
    Red,
    Purple,
    Teal,
    Yellow,
}

impl Default for Color {
    fn default() -> (color: Color)
        ensures
            color == Color::Grey,
    {
        Color::Grey
    }
}

/// The class that a color adds: none for grey, which is the plain look.
pub open spec fn color_class_names(color: Color) -> Seq<Seq<char>> {
    match color {
        Color::Grey => Seq::empty(),
        Color::Blue => seq!["pf-m-blue"@],
        Color::Green => seq!["pf-m-green"@],
        Color::Orange => seq!["pf-m-orange"@],
        Color::Red => seq!["pf-m-red"@],
        Color::Purple => seq!["pf-m-purple"@],
        Color::Teal => seq!["pf-m-teal"@],
        Color::Yellow => seq!["pf-m-yellow"@],
    }
}

impl Color {
    /// Adds the class of this color to `classes`.
    #[verifier::rlimit(50)]
    pub fn extend_classes(&self, classes: &mut Classes)
        ensures
            class_names(*final(classes)) == with_classes(
                class_names(*old(classes)),
                color_class_names(*self),
            ),
    {
        proof {
            reveal_strlit("pf-m-blue");
            reveal_strlit("pf-m-green");
            reveal_strlit("pf-m-orange");
            reveal_strlit("pf-m-red");
            reveal_strlit("pf-m-purple");
            reveal_strlit("pf-m-teal");
            reveal_strlit("pf-m-yellow");
        }
        match self {
            Color::Grey => {
                proof {
                    lemma_with_one_class(class_names(*classes), Seq::empty());
                }
            },
            Color::Blue => push_one(classes, "pf-m-blue"),
            Color::Green => push_one(classes, "pf-m-green"),
            Color::Orange => push_one(classes, "pf-m-orange"),
            Color::Red => push_one(classes, "pf-m-red"),
            Color::Purple => push_one(classes, "pf-m-purple"),
            Color::Teal => push_one(classes, "pf-m-teal"),
            Color::Yellow => push_one(classes, "pf-m-yellow"),
        }
    }
}

/// Pushes one name, which is adding the set of that name.
fn push_one(classes: &mut Classes, name: &'static str)
    requires
        is_class_token(name@),
    ensures
        class_names(*final(classes)) == with_classes(class_names(*old(classes)), seq![name@]),
{
    proof {
        lemma_with_one_class(class_names(*classes), name@);
    }
    add_class(classes, name);
}

/// Properties for the label.
#[derive(Clone, Debug, PartialEq, Eq)]
pub struct LabelProperties {
    pub label: String,
    pub color: Color,
    pub outline: bool,
    pub overflow: bool,
    /// The markup of the icon before the text, if there is one.
    pub icon: Option<Node>,
    /// Whether the caller holds a callback for closing the label.
    pub closable: bool,
    /// Whether the caller holds a callback for clicking the label.
    pub clickable: bool,
    /// Disables the label if it is clickable or closable.
    pub disabled: bool,
    pub compact: bool,
}

pub struct LabelPropertiesView {
    pub label: Seq<char>,
    pub color: Color,
    pub outline: bool,
    pub overflow: bool,
    pub icon: Option<NodeView>,
    pub closable: bool,
    pub clickable: bool,
    pub disabled: bool,
    pub compact: bool,
}

impl View for LabelProperties {
    type V = LabelPropertiesView;

    open spec fn view(&self) -> LabelPropertiesView {
        LabelPropertiesView {
            label: self.label@,
            color: self.color,
            outline: self.outline,
            overflow: self.overflow,
            icon: optional_view(self.icon),
            closable: self.closable,
            clickable: self.clickable,
            disabled: self.disabled,
            compact: self.compact,
        }
    }
}

/// The classes of a label: the component class, the class of its color, and
/// one modifier for each of outline, overflow, compact, clickable and disabled
/// that holds, in this order. Neither the icon nor the close callback has a
/// part in them.
pub open spec fn label_class_names(props: LabelPropertiesView) -> Seq<Seq<char>> {
    seq!["pf-v6-c-label"@] + color_class_names(props.color) + class_if(props.outline, "pf-m-outline"@)
        + class_if(props.overflow, "pf-m-overflow"@) + class_if(props.compact, "pf-m-compact"@) + class_if(
        props.clickable,
        "pf-m-clickable"@,
    ) + class_if(props.disabled, "pf-m-disabled"@)
}

/// The icon of a label in its element, or nothing.
pub open spec fn label_icon_node(icon: Option<NodeView>) -> NodeView {
    match icon {
        Some(markup) => tag_view(
            "span"@,
            seq![text_prop("class"@, "pf-v6-c-label__icon"@)],
            seq![markup],
        ),
        None => NodeView::Fragment(Seq::empty()),
    }
}

/// The close button of a label in its element, or nothing. The button reports
/// [`Interaction::CloseLabel`].
pub open spec fn label_actions_node(closable: bool, disabled: bool) -> NodeView {
    if closable {
        tag_view(
            "span"@,
            seq![text_prop("class"@, "pf-v6-c-label__actions"@)],
            seq![
                component_view(
                    "Button"@,
                    Seq::empty()
                        .push(text_prop("class"@, "pf-m-no-padding"@))
                        .push(text_prop("variant"@, "Plain"@))
                        .push(text_prop("icon"@, "Times"@))
                        .push(handler_prop("onclick"@, Interaction::CloseLabel))
                        .push(flag_prop("disabled"@, disabled)),
                    Seq::empty(),
                ),
            ],
        )
    } else {
        NodeView::Fragment(Seq::empty())
    }
}

/// What a label shows: icon, text and close button.
pub open spec fn label_inner_markup(props: LabelPropertiesView) -> NodeView {
    NodeView::Fragment(
        Seq::empty()
            .push(label_icon_node(props.icon))
            .push(
                tag_view(
                    "span"@,
                    seq![text_prop("class"@, "pf-v6-c-label__text"@)],
                    seq![NodeView::Text(props.label)],
                ),
            )
            .push(label_actions_node(props.closable, props.disabled)),
    )
}

/// The content element of a label: a button that reports
/// [`Interaction::ClickLabel`] if the label is clickable, else a plain element.
pub open spec fn label_content_markup(props: LabelPropertiesView) -> NodeView {
    if props.clickable {
        tag_view(
            "button"@,
            Seq::empty()
                .push(text_prop("class"@, "pf-v6-c-label__content pf-m-clickable"@))
                .push(handler_prop("onclick"@, Interaction::ClickLabel))
                .push(flag_prop("disabled"@, props.disabled)),
            seq![label_inner_markup(props)],
        )
    } else {
        tag_view(
            "span"@,
            seq![text_prop("class"@, "pf-v6-c-label__content"@)],
            seq![label_inner_markup(props)],
        )
    }
}

/// The markup of a label.
pub open spec fn label_markup(props: LabelPropertiesView) -> NodeView {
    tag_view(
        "span"@,
        seq![text_prop("class"@, joined(label_class_names(props)))],
        seq![label_content_markup(props)],
    )
}

/// Whether `name` is a class that the configuration of a label asks for.
pub open spec fn is_label_class(props: LabelPropertiesView, name: Seq<char>) -> bool {
    ||| name == "pf-v6-c-label"@
    ||| color_class_names(props.color).contains(name)
    ||| (props.outline && name == "pf-m-outline"@)
    ||| (props.overflow && name == "pf-m-overflow"@)
    ||| (props.compact && name == "pf-m-compact"@)
    ||| (props.clickable && name == "pf-m-clickable"@)
    ||| (props.disabled && name == "pf-m-disabled"@)
}

/// The classes of a label are exactly those that its configuration asks for.
#[verifier::rlimit(50)]
pub proof fn lemma_label_classes_are_those_asked_for(props: LabelPropertiesView)
    ensures
        forall|name: Seq<char>| #[trigger]
            label_class_names(props).contains(name) <==> is_label_class(props, name),
{
    let base = seq!["pf-v6-c-label"@];
    let colored = base + color_class_names(props.color);
    let outlined = colored + class_if(props.outline, "pf-m-outline"@);
    let overflowed = outlined + class_if(props.overflow, "pf-m-overflow"@);
    let compacted = overflowed + class_if(props.compact, "pf-m-compact"@);
    let clicked = compacted + class_if(props.clickable, "pf-m-clickable"@);
    assert forall|name: Seq<char>| #[trigger]
        label_class_names(props).contains(name) <==> is_label_class(props, name) by {
        lemma_member_after(outlined, props.overflow, "pf-m-overflow"@, name);
        lemma_member_after(colored, props.outline, "pf-m-outline"@, name);
        lemma_member_after(overflowed, props.compact, "pf-m-compact"@, name);
        lemma_member_after(compacted, props.clickable, "pf-m-clickable"@, name);
        lemma_member_after(clicked, props.disabled, "pf-m-disabled"@, name);
        if color_class_names(props.color).len() == 1 {
            let color = color_class_names(props.color)[0];
            assert(color_class_names(props.color) =~= class_if(true, color));
            lemma_member_after(base, true, color, name);
            lemma_member_after(Seq::empty(), true, color, name);
            assert(Seq::<Seq<char>>::empty() + class_if(true, color) =~= class_if(true, color));
        } else {
            assert(colored =~= base);
        }
        assert(base.contains(name) <==> name == "pf-v6-c-label"@) by {
            assert(base[0] == "pf-v6-c-label"@);
        }
    }
}

/// Each class of a label stands for one thing: the component class is always
/// there, and each modifier is there if and only if its flag is set.
#[verifier::rlimit(50)]
pub proof fn lemma_label_modifiers_follow_flags(props: LabelPropertiesView)
    ensures
        label_class_names(props).contains("pf-v6-c-label"@),
        label_class_names(props).contains("pf-m-outline"@) <==> props.outline,
        label_class_names(props).contains("pf-m-overflow"@) <==> props.overflow,
        label_class_names(props).contains("pf-m-compact"@) <==> props.compact,
        label_class_names(props).contains("pf-m-clickable"@) <==> props.clickable,
        label_class_names(props).contains("pf-m-disabled"@) <==> props.disabled,
{
    lemma_modifiers_differ();
    lemma_label_classes_are_those_asked_for(props);
    lemma_modifier_is_no_color(props.color, "pf-m-outline"@);
    lemma_modifier_is_no_color(props.color, "pf-m-overflow"@);
    lemma_modifier_is_no_color(props.color, "pf-m-compact"@);
    lemma_modifier_is_no_color(props.color, "pf-m-clickable"@);
    lemma_modifier_is_no_color(props.color, "pf-m-disabled"@);
    assert(is_label_class(props, "pf-v6-c-label"@));
    assert(is_label_class(props, "pf-m-outline"@) <==> props.outline);
    assert(is_label_class(props, "pf-m-overflow"@) <==> props.overflow);
    assert(is_label_class(props, "pf-m-compact"@) <==> props.compact);
    assert(is_label_class(props, "pf-m-clickable"@) <==> props.clickable);
    assert(is_label_class(props, "pf-m-disabled"@) <==> props.disabled);
}

/// The class of a color is among the classes of a label if and only if the
/// label has that color; a grey label has the class of no color.
#[verifier::rlimit(50)]
pub proof fn lemma_label_color_follows_configuration(props: LabelPropertiesView, color: Color)
    requires
        color != Color::Grey,
    ensures
        label_class_names(props).contains(color_class_names(color)[0]) <==> props.color == color,
{
    reveal_strlit("pf-v6-c-label");
    reveal_strlit("pf-m-blue");
    reveal_strlit("pf-m-green");
    reveal_strlit("pf-m-orange");
    reveal_strlit("pf-m-red");
    reveal_strlit("pf-m-purple");
    reveal_strlit("pf-m-teal");
    reveal_strlit("pf-m-yellow");
    reveal_strlit("pf-m-outline");
    reveal_strlit("pf-m-overflow");
    reveal_strlit("pf-m-compact");
    reveal_strlit("pf-m-clickable");
    reveal_strlit("pf-m-disabled");
    assert("pf-m-blue"@[5] != "pf-m-teal"@[5]);
    assert("pf-m-orange"@[5] != "pf-m-purple"@[5]);
    assert("pf-m-orange"@[5] != "pf-m-yellow"@[5]);
    assert("pf-m-purple"@[5] != "pf-m-yellow"@[5]);
    let name = color_class_names(color)[0];
    lemma_label_classes_are_those_asked_for(props);
    assert(name.len() < 12);
    assert("pf-v6-c-label"@.len() == 13);
    assert("pf-m-outline"@.len() == 12);
    assert("pf-m-overflow"@.len() == 13);
    assert("pf-m-compact"@.len() == 12);
    assert("pf-m-clickable"@.len() == 14);
    assert("pf-m-disabled"@.len() == 13);
    assert(is_label_class(props, name) <==> color_class_names(props.color).contains(name));
    if props.color == color {
        assert(color_class_names(props.color)[0] == name);
    } else if color_class_names(props.color).len() == 1 {
        let other = color_class_names(props.color)[0];
        assert(other.len() != name.len() || other[5] != name[5]);
    }
}

/// Whether a label has an icon or a close callback has no part in its
/// classes.
pub proof fn lemma_label_classes_ignore_icon_and_close(
    props: LabelPropertiesView,
    icon: Option<NodeView>,
    closable: bool,
)
    ensures
        label_class_names(LabelPropertiesView { icon, closable, ..props }) == label_class_names(
            props,
        ),
{
}

/// A name of twelve characters or more is not the class of a color.
proof fn lemma_modifier_is_no_color(color: Color, modifier: Seq<char>)
    requires
        modifier.len() >= 12,
    ensures
        !color_class_names(color).contains(modifier),
{
    reveal_strlit("pf-m-blue");
    reveal_strlit("pf-m-green");
    reveal_strlit("pf-m-orange");
    reveal_strlit("pf-m-red");
    reveal_strlit("pf-m-purple");
    reveal_strlit("pf-m-teal");
    reveal_strlit("pf-m-yellow");
    let names = color_class_names(color);
    assert forall|i: int| 0 <= i < names.len() implies names[i] != modifier by {
        assert(names[i].len() < 12);
    }
}

/// The component class and the class of the color.
fn colored_label_classes(color: Color) -> (classes: Classes)
    ensures
        class_names(classes) == seq!["pf-v6-c-label"@] + color_class_names(color),
{
    proof {
        reveal_strlit("pf-v6-c-label");
        lemma_color_is_new(color);
    }
    let mut classes = single_class("pf-v6-c-label");
    color.extend_classes(&mut classes);
    classes
}

/// Composes the classes of a label.
#[verifier::rlimit(50)]
pub fn label_classes(props: &LabelProperties) -> (classes: Classes)
    ensures
        class_names(classes) == label_class_names(props@),
        class_names(classes).len() > 0,
{
    proof {
        lemma_modifiers_differ();
        lemma_modifier_is_new(props.color, "pf-m-outline"@);
        lemma_modifier_is_new(props.color, "pf-m-overflow"@);
        lemma_modifier_is_new(props.color, "pf-m-compact"@);
        lemma_modifier_is_new(props.color, "pf-m-clickable"@);
        lemma_modifier_is_new(props.color, "pf-m-disabled"@);
    }
    let mut classes = colored_label_classes(props.color);
    let ghost plain = class_names(classes);
    add_class_when(&mut classes, "pf-m-outline", props.outline);
    proof {
        lemma_member_after(plain, props.outline, "pf-m-outline"@, "pf-m-overflow"@);
        lemma_member_after(plain, props.outline, "pf-m-outline"@, "pf-m-compact"@);
        lemma_member_after(plain, props.outline, "pf-m-outline"@, "pf-m-clickable"@);
        lemma_member_after(plain, props.outline, "pf-m-outline"@, "pf-m-disabled"@);
    }
    let ghost outlined = class_names(classes);
    add_class_when(&mut classes, "pf-m-overflow", props.overflow);
    proof {
        lemma_member_after(outlined, props.overflow, "pf-m-overflow"@, "pf-m-compact"@);
        lemma_member_after(outlined, props.overflow, "pf-m-overflow"@, "pf-m-clickable"@);
        lemma_member_after(outlined, props.overflow, "pf-m-overflow"@, "pf-m-disabled"@);
    }
    let ghost overflowed = class_names(classes);
    add_class_when(&mut classes, "pf-m-compact", props.compact);
    proof {
        lemma_member_after(overflowed, props.compact, "pf-m-compact"@, "pf-m-clickable"@);
        lemma_member_after(overflowed, props.compact, "pf-m-compact"@, "pf-m-disabled"@);
    }
    let ghost compacted = class_names(classes);
    add_class_when(&mut classes, "pf-m-clickable", props.clickable);
    proof {
        lemma_member_after(compacted, props.clickable, "pf-m-clickable"@, "pf-m-disabled"@);
    }
    add_class_when(&mut classes, "pf-m-disabled", props.disabled);
    classes
}

/// The component class and the five modifiers of a label are class tokens,
/// each of twelve characters or more, and no two of them are the same.
proof fn lemma_modifiers_differ()
    ensures
        is_class_token("pf-m-outline"@),
        is_class_token("pf-m-overflow"@),
        is_class_token("pf-m-compact"@),
        is_class_token("pf-m-clickable"@),
        is_class_token("pf-m-disabled"@),
        "pf-m-outline"@.len() == 12,
        "pf-m-overflow"@.len() == 13,
        "pf-m-compact"@.len() == 12,
        "pf-m-clickable"@.len() == 14,
        "pf-m-disabled"@.len() == 13,
        "pf-v6-c-label"@.len() == 13,
        "pf-m-overflow"@ != "pf-v6-c-label"@,
        "pf-m-disabled"@ != "pf-v6-c-label"@,
        "pf-m-outline"@ != "pf-m-compact"@,
        "pf-m-overflow"@ != "pf-m-disabled"@,
{
    reveal_strlit("pf-v6-c-label");
    reveal_strlit("pf-m-outline");
    reveal_strlit("pf-m-overflow");
    reveal_strlit("pf-m-compact");
    reveal_strlit("pf-m-clickable");
    reveal_strlit("pf-m-disabled");
    assert("pf-m-overflow"@[3] != "pf-v6-c-label"@[3]);
    assert("pf-m-disabled"@[3] != "pf-v6-c-label"@[3]);
    assert("pf-m-outline"@[5] != "pf-m-compact"@[5]);
    assert("pf-m-overflow"@[5] != "pf-m-disabled"@[5]);
}

/// A name of twelve characters or more that is not the component class is
/// neither that class nor the class of a color.
proof fn lemma_modifier_is_new(color: Color, modifier: Seq<char>)
    requires
        modifier.len() >= 12,
        modifier != "pf-v6-c-label"@,
    ensures
        !(seq!["pf-v6-c-label"@] + color_class_names(color)).contains(modifier),
{
    reveal_strlit("pf-m-blue");
    reveal_strlit("pf-m-green");
    reveal_strlit("pf-m-orange");
    reveal_strlit("pf-m-red");
    reveal_strlit("pf-m-purple");
    reveal_strlit("pf-m-teal");
    reveal_strlit("pf-m-yellow");
    let names = seq!["pf-v6-c-label"@] + color_class_names(color);
    assert forall|i: int| 0 <= i < names.len() implies names[i] != modifier by {
        if i > 0 {
            assert(names[i] == color_class_names(color)[i - 1]);
            assert(names[i].len() < 12);
        }
    }
}

/// The class of a color is not the component class, so adding it appends it.
proof fn lemma_color_is_new(color: Color)
    ensures
        with_classes(seq!["pf-v6-c-label"@], color_class_names(color)) == seq!["pf-v6-c-label"@]
            + color_class_names(color),
{
    reveal_strlit("pf-v6-c-label");
    reveal_strlit("pf-m-blue");
    reveal_strlit("pf-m-green");
    reveal_strlit("pf-m-orange");
    reveal_strlit("pf-m-red");
    reveal_strlit("pf-m-purple");
    reveal_strlit("pf-m-teal");
    reveal_strlit("pf-m-yellow");
    let base = seq!["pf-v6-c-label"@];
    if color_class_names(color).len() == 1 {
        let name = color_class_names(color)[0];
        assert(color_class_names(color) =~= seq![name]);
        assert(base[0].len() != name.len());
        lemma_with_one_class(base, name);
        assert(with_classes(base, color_class_names(color)) =~= base + color_class_names(color));
    } else {
        lemma_with_one_class(base, Seq::empty());
        assert(with_classes(base, color_class_names(color)) =~= base + color_class_names(color));
    }
}

fn label_icon(icon: &Option<Node>) -> (node: Node)
    ensures
        node@ == label_icon_node(optional_view(*icon)),
{
    match icon {
        Some(markup) => {
            let mut attributes = no_props();
            push_prop(&mut attributes, Prop::text("class", "pf-v6-c-label__icon"));
            let mut children = no_nodes();
            push_node(&mut children, markup.duplicate());
            Node::tag("span", attributes, children)
        },
        None => Node::empty(),
    }
}

fn label_actions(closable: bool, disabled: bool) -> (node: Node)
    ensures
        node@ == label_actions_node(closable, disabled),
{
    if closable {
        let mut button = no_props();
        push_prop(&mut button, Prop::text("class", "pf-m-no-padding"));
        push_prop(&mut button, Prop::text("variant", "Plain"));
        push_prop(&mut button, Prop::text("icon", "Times"));
        push_prop(&mut button, Prop::handler("onclick", Interaction::CloseLabel));
        push_prop(&mut button, Prop::flag("disabled", disabled));
        let mut attributes = no_props();
        push_prop(&mut attributes, Prop::text("class", "pf-v6-c-label__actions"));
        let mut children = no_nodes();
        push_node(&mut children, Node::component("Button", button, no_nodes()));
        Node::tag("span", attributes, children)
    } else {
        Node::empty()
    }
}

fn label_inner(props: &LabelProperties) -> (node: Node)
    ensures
        node@ == label_inner_markup(props@),
{
    let mut text_attributes = no_props();
    push_prop(&mut text_attributes, Prop::text("class", "pf-v6-c-label__text"));
    let mut text_children = no_nodes();
    push_node(&mut text_children, Node::Text(props.label.clone()));
    let mut children = no_nodes();
    push_node(&mut children, label_icon(&props.icon));
    push_node(&mut children, Node::tag("span", text_attributes, text_children));
    push_node(&mut children, label_actions(props.closable, props.disabled));
    Node::fragment(children)
}

fn label_content(props: &LabelProperties) -> (node: Node)
    ensures
        node@ == label_content_markup(props@),
{
    let mut children = no_nodes();
    push_node(&mut children, label_inner(props));
    let mut attributes = no_props();
    if props.clickable {
        push_prop(&mut attributes, Prop::text("class", "pf-v6-c-label__content pf-m-clickable"));
        push_prop(&mut attributes, Prop::handler("onclick", Interaction::ClickLabel));
        push_prop(&mut attributes, Prop::flag("disabled", props.disabled));
        Node::tag("button", attributes, children)
    } else {
        push_prop(&mut attributes, Prop::text("class", "pf-v6-c-label__content"));
        Node::tag("span", attributes, children)
    }
}

/// Label component
pub fn label(props: &LabelProperties) -> (node: Node)
    ensures
        node@ == label_markup(props@),
{
    let classes = label_classes(props);
    let mut attributes = no_props();
    push_class_attribute(&mut attributes, &classes);
    let mut children = no_nodes();
    push_node(&mut children, label_content(props));
    Node::tag("span", attributes, children)
}

/// Rendering a label twice from the same configuration gives the same markup.
pub proof fn lemma_label_render_is_idempotent(props: LabelProperties, first: Node, second: Node)
    requires
        first@ == label_markup(props@),
        second@ == label_markup(props@),
    ensures
        first@ == second@,
{
}

} // verus!
