use pf_widgets::dropdown::{
    extend_menu_styles, placement, ClickTarget, Dropdown, DropdownProperties, DropdownState,
    Position,
};
use pf_widgets::markup::{
    Anchor, Element, ElementKind, Interaction, Modifier, Node, Placement, Prop, PropValue,
};
use pf_widgets::toolbar::divider;
use popper_rs::state::StylesMap;
use std::collections::HashMap;

fn styles(entries: &[(&str, &str)]) -> StylesMap {
    StylesMap(entries.iter().map(|(k, v)| (k.to_string(), v.to_string())).collect::<HashMap<_, _>>())
}

fn text_attr(name: &'static str, value: &str) -> Prop {
    Prop { name, value: PropValue::Text(value.to_string()) }
}

fn flag(name: &'static str, value: bool) -> Prop {
    Prop { name, value: PropValue::Flag(value) }
}

fn handler(name: &'static str, interaction: Interaction) -> Prop {
    Prop { name, value: PropValue::Handler(interaction) }
}

fn anchor(name: &'static str, anchor: Anchor) -> Prop {
    Prop { name, value: PropValue::Anchor(anchor) }
}

fn element(kind: ElementKind, name: &'static str, props: Vec<Prop>, children: Vec<Node>) -> Node {
    Node::Element(Element { kind, name, key: None, props, children })
}

fn component(name: &'static str, props: Vec<Prop>, children: Vec<Node>) -> Node {
    element(ElementKind::Component, name, props, children)
}

fn plain_props() -> DropdownProperties {
    DropdownProperties {
        children: vec![],
        text: None,
        icon: None,
        aria_label: String::new(),
        disabled: false,
        full_height: false,
        full_width: false,
        variant: "Default".to_string(),
        position: Position::Left,
    }
}

fn expected(toggle: Vec<Prop>, visible: bool, placement: Placement, style: StylesMap, items: Vec<Node>) -> Node {
    Node::Fragment(vec![element(
        ElementKind::Tag,
        "div",
        vec![text_attr("style", "display: inline;"), anchor("ref", Anchor::DropdownInside)],
        vec![
            component("MenuToggle", toggle, vec![]),
            component(
                "PortalPopper",
                vec![
                    flag("visible", visible),
                    anchor("target", Anchor::DropdownToggle),
                    anchor("content", Anchor::DropdownMenu),
                    Prop { name: "placement", value: PropValue::Placement(placement) },
                    Prop {
                        name: "modifiers",
                        value: PropValue::Modifiers(vec![Modifier {
                            name: "widthMods",
                            phase: Some("beforeWrite"),
                            enabled: Some(true),
                            handler: Some(Interaction::WidthModifier),
                        }]),
                    },
                    handler("onstatechange", Interaction::PopperStateChanged),
                ],
                vec![component(
                    "ContextProvider",
                    vec![handler("context", Interaction::CloseDropdown)],
                    vec![component(
                        "Menu",
                        vec![
                            anchor("ref", Anchor::DropdownMenu),
                            Prop { name: "style", value: PropValue::Styles(style) },
                        ],
                        items,
                    )],
                )],
            ),
        ],
    )])
}

fn popper_visible(node: &Node) -> bool {
    match node {
        Node::Fragment(children) => match &children[0] {
            Node::Element(inside) => match &inside.children[1] {
                Node::Element(popper) => {
                    assert_eq!(popper.name, "PortalPopper");
                    popper.props[0] == flag("visible", true)
                }
                other => panic!("no popper: {:?}", other),
            },
            other => panic!("no inside element: {:?}", other),
        },
        other => panic!("no fragment: {:?}", other),
    }
}

#[test]
fn divider_is_a_vertical_rule() {
    assert_eq!(
        divider(),
        element(ElementKind::Tag, "hr", vec![text_attr("class", "pf-v6-c-divider pf-m-vertical")], vec![])
    );
    assert_eq!(divider(), divider());
}

#[test]
fn dropdown_mounts_closed_without_styles() {
    let state = DropdownState::mount();
    assert_eq!(
        state,
        DropdownState { expanded: false, popper: StylesMap::default(), style: StylesMap::default() }
    );
    assert!(state.popper.is_empty());
    assert!(state.style.is_empty());
}

#[test]
fn placement_follows_position() {
    assert_eq!(placement(Position::Left), Placement::BottomStart);
    assert_eq!(placement(Position::Right), Placement::BottomEnd);
    assert_eq!(placement(Position::Top), Placement::TopStart);
}

#[test]
fn toggle_flips_an_enabled_dropdown() {
    let props = plain_props();
    let state = DropdownState::mount().popper_state_changed(styles(&[("top", "4px")]));
    let open = state.clone().toggle(&props);
    assert_eq!(open, DropdownState { expanded: true, ..state.clone() });
    assert_eq!(open.toggle(&props), state);
}

#[test]
fn toggle_leaves_a_disabled_dropdown_alone() {
    let mut props = plain_props();
    props.disabled = true;
    let state = DropdownState::mount();
    let clicked = state.clone().toggle(&props);
    assert_eq!(clicked, state);
    assert!(!clicked.expanded);
    assert!(!popper_visible(&Dropdown(&props, &clicked)));
    let clicked = clicked.toggle(&props).toggle(&props);
    assert_eq!(clicked, state);
    assert!(!popper_visible(&Dropdown(&props, &clicked)));
}

#[test]
fn disabling_an_open_dropdown_keeps_it_open_under_clicks() {
    let mut props = plain_props();
    let open = DropdownState::mount().toggle(&props);
    props.disabled = true;
    assert_eq!(open.clone().toggle(&props), open);
    assert!(popper_visible(&Dropdown(&props, &open)));
}

#[test]
fn click_away_closes_unless_inside_the_menu() {
    let props = plain_props();
    let open = DropdownState::mount().toggle(&props);
    assert!(!open.clone().click_away(true, ClickTarget::Outside).expanded);
    assert_eq!(open.clone().click_away(true, ClickTarget::Inside), open);
}

#[test]
fn click_away_with_unresolved_target_closes() {
    let props = plain_props();
    let open = DropdownState::mount().toggle(&props);
    assert_eq!(open.clone().click_away(true, ClickTarget::Unresolved), DropdownState::mount());
}

#[test]
fn click_away_is_passed_over_while_the_menu_is_not_attached() {
    let props = plain_props();
    let open = DropdownState::mount().toggle(&props);
    for target in [ClickTarget::Unresolved, ClickTarget::Inside, ClickTarget::Outside] {
        assert_eq!(open.clone().click_away(false, target), open);
    }
}

#[test]
fn click_away_leaves_a_closed_dropdown_closed() {
    let closed = DropdownState::mount();
    for attached in [false, true] {
        for target in [ClickTarget::Unresolved, ClickTarget::Inside, ClickTarget::Outside] {
            assert_eq!(closed.clone().click_away(attached, target), closed);
        }
    }
}

#[test]
fn click_away_keeps_the_styles() {
    let props = plain_props();
    let open = DropdownState::mount()
        .popper_state_changed(styles(&[("left", "1px")]))
        .width_modifier(&props, Some(10))
        .toggle(&props);
    let closed = open.clone().click_away(true, ClickTarget::Outside);
    assert_eq!(closed, DropdownState { expanded: false, ..open });
}

#[test]
fn close_closes() {
    let props = plain_props();
    let open = DropdownState::mount().toggle(&props);
    assert_eq!(open.close(), DropdownState::mount());
    assert_eq!(DropdownState::mount().close(), DropdownState::mount());
}

#[test]
fn popper_state_replaces_the_computed_styles_only() {
    let first = styles(&[("top", "1px")]);
    let second = styles(&[("left", "2px")]);
    let state = DropdownState::mount().popper_state_changed(first.clone());
    assert_eq!(state, DropdownState { expanded: false, popper: first, style: StylesMap::default() });
    let state = state.popper_state_changed(second.clone());
    assert_eq!(state, DropdownState { expanded: false, popper: second, style: StylesMap::default() });
}

#[test]
fn menu_styles_extend_the_computed_styles() {
    let base = styles(&[("position", "absolute"), ("opacity", "0")]);
    assert_eq!(
        extend_menu_styles(&base, false, 300),
        styles(&[
            ("position", "absolute"),
            ("z-index", "9999"),
            ("opacity", "1"),
            ("transition", "opacity cubic-bezier(0.54, 1.5, 0.38, 1.11)"),
        ])
    );
    assert_eq!(base, styles(&[("position", "absolute"), ("opacity", "0")]));
}

#[test]
fn menu_styles_take_the_full_width() {
    let base = styles(&[("width", "1px")]);
    assert_eq!(
        extend_menu_styles(&base, true, 120),
        styles(&[
            ("z-index", "9999"),
            ("opacity", "1"),
            ("transition", "opacity cubic-bezier(0.54, 1.5, 0.38, 1.11)"),
            ("width", "120px"),
        ])
    );
    assert_eq!(
        extend_menu_styles(&StylesMap::default(), true, 0),
        styles(&[
            ("z-index", "9999"),
            ("opacity", "1"),
            ("transition", "opacity cubic-bezier(0.54, 1.5, 0.38, 1.11)"),
            ("width", "0px"),
        ])
    );
    assert_eq!(
        extend_menu_styles(&base, false, 120),
        styles(&[
            ("z-index", "9999"),
            ("opacity", "1"),
            ("transition", "opacity cubic-bezier(0.54, 1.5, 0.38, 1.11)"),
            ("width", "1px"),
        ])
    );
}

#[test]
fn width_modifier_is_skipped_while_unattached() {
    let mut props = plain_props();
    props.full_width = true;
    let state = DropdownState::mount().popper_state_changed(styles(&[("top", "1px")]));
    assert_eq!(state.clone().width_modifier(&props, None), state);
}

#[test]
fn width_modifier_sets_the_menu_styles() {
    let mut props = plain_props();
    props.full_width = true;
    let computed = styles(&[("top", "1px")]);
    let state = DropdownState::mount().popper_state_changed(computed.clone()).width_modifier(&props, Some(64));
    assert_eq!(
        state,
        DropdownState {
            expanded: false,
            popper: computed.clone(),
            style: styles(&[
                ("top", "1px"),
                ("z-index", "9999"),
                ("opacity", "1"),
                ("transition", "opacity cubic-bezier(0.54, 1.5, 0.38, 1.11)"),
                ("width", "64px"),
            ]),
        }
    );
    props.full_width = false;
    let state = state.width_modifier(&props, Some(64));
    assert_eq!(state.style, extend_menu_styles(&computed, false, 64));
    assert!(!state.style.contains_key("width"));
}

#[test]
fn plain_dropdown_renders_closed() {
    let props = plain_props();
    let state = DropdownState::mount();
    assert_eq!(
        Dropdown(&props, &state),
        expected(
            vec![
                anchor("ref", Anchor::DropdownToggle),
                flag("disabled", false),
                flag("full_height", false),
                flag("full_width", false),
                text_attr("aria_label", ""),
                text_attr("variant", "Default"),
                flag("expanded", false),
                handler("ontoggle", Interaction::ToggleDropdown),
            ],
            false,
            Placement::BottomStart,
            StylesMap::default(),
            vec![],
        )
    );
}

#[test]
fn open_dropdown_renders_every_field() {
    let items = vec![Node::Outside { slot: 0, key: Some("first".to_string()) }, Node::text("second")];
    let text = Node::text("Actions");
    let icon = Node::Outside { slot: 2, key: None };
    let props = DropdownProperties {
        children: items.clone(),
        text: Some(text.clone()),
        icon: Some(icon.clone()),
        aria_label: "More actions".to_string(),
        disabled: false,
        full_height: true,
        full_width: true,
        variant: "Plain".to_string(),
        position: Position::Top,
    };
    let state = DropdownState::mount()
        .popper_state_changed(styles(&[("top", "8px")]))
        .width_modifier(&props, Some(200))
        .toggle(&props);
    assert!(state.expanded);
    let node = Dropdown(&props, &state);
    assert!(popper_visible(&node));
    assert_eq!(
        node,
        expected(
            vec![
                anchor("ref", Anchor::DropdownToggle),
                Prop { name: "text", value: PropValue::Markup(Box::new(text)) },
                Prop { name: "icon", value: PropValue::Markup(Box::new(icon)) },
                flag("disabled", false),
                flag("full_height", true),
                flag("full_width", true),
                text_attr("aria_label", "More actions"),
                text_attr("variant", "Plain"),
                flag("expanded", true),
                handler("ontoggle", Interaction::ToggleDropdown),
            ],
            true,
            Placement::TopStart,
            styles(&[
                ("top", "8px"),
                ("z-index", "9999"),
                ("opacity", "1"),
                ("transition", "opacity cubic-bezier(0.54, 1.5, 0.38, 1.11)"),
                ("width", "200px"),
            ]),
            items,
        )
    );
}

#[test]
fn dropdown_on_the_right_opens_at_the_bottom_end() {
    let mut props = plain_props();
    props.position = Position::Right;
    props.icon = Some(Node::text("i"));
    let state = DropdownState::mount();
    assert_eq!(
        Dropdown(&props, &state),
        expected(
            vec![
                anchor("ref", Anchor::DropdownToggle),
                Prop { name: "icon", value: PropValue::Markup(Box::new(Node::text("i"))) },
                flag("disabled", false),
                flag("full_height", false),
                flag("full_width", false),
                text_attr("aria_label", ""),
                text_attr("variant", "Default"),
                flag("expanded", false),
                handler("ontoggle", Interaction::ToggleDropdown),
            ],
            false,
            Placement::BottomEnd,
            StylesMap::default(),
            vec![],
        )
    );
}

#[test]
fn dropdown_renders_the_same_twice() {
    let mut props = plain_props();
    props.children = vec![Node::text("item")];
    props.full_width = true;
    let state = DropdownState::mount()
        .popper_state_changed(styles(&[("a", "b"), ("c", "d"), ("e", "f")]))
        .width_modifier(&props, Some(33))
        .toggle(&props);
    assert_eq!(Dropdown(&props, &state), Dropdown(&props, &state));
}
