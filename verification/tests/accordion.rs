use pf_widgets::accordion::{
    accordion, accordion_classes, accordion_item, accordion_item_clicked, content_classes,
    item_classes, toggle_classes, AccordionItemProperties, AccordionProperties,
};
use pf_widgets::markup::{Element, ElementKind, Interaction, Node, Prop, PropValue};
use pf_widgets::state::{Controlled, Notice};

fn text_attr(name: &'static str, value: &str) -> Prop {
    Prop { name, value: PropValue::Text(value.to_string()) }
}

fn tag(name: &'static str, props: Vec<Prop>, children: Vec<Node>) -> Node {
    Node::Element(Element {
        kind: ElementKind::Tag,
        name,
        key: None,
        props,
        children,
    })
}

fn keyed_tag(name: &'static str, key: Option<&str>, props: Vec<Prop>, children: Vec<Node>) -> Node {
    Node::Element(Element {
        kind: ElementKind::Tag,
        name,
        key: key.map(|k| k.to_string()),
        props,
        children,
    })
}

fn item_props(expanded: bool, fixed: bool, children: Vec<Node>) -> AccordionItemProperties {
    AccordionItemProperties { title: "Details".to_string(), expanded, fixed, children }
}

fn expected_item(title: &str, expanded: bool, fixed: bool, bodies: Vec<Node>) -> Node {
    let item_class = if expanded { "pf-v6-c-accordion__item pf-m-expanded" } else { "pf-v6-c-accordion__item" };
    let toggle_class =
        if expanded { "pf-v6-c-accordion__toggle pf-m-expanded" } else { "pf-v6-c-accordion__toggle" };
    let content_class = if fixed {
        "pf-v6-c-accordion__expandable-content pf-m-fixed"
    } else {
        "pf-v6-c-accordion__expandable-content"
    };
    tag(
        "div",
        vec![text_attr("class", item_class)],
        vec![
            tag(
                "dt",
                vec![],
                vec![tag(
                    "button",
                    vec![
                        text_attr("class", toggle_class),
                        Prop {
                            name: "onclick",
                            value: PropValue::Handler(Interaction::ToggleAccordionItem),
                        },
                        text_attr("type", "button"),
                        text_attr("aria-expanded", if expanded { "true" } else { "false" }),
                    ],
                    vec![
                        tag(
                            "span",
                            vec![text_attr("class", "pf-v6-c-accordion__toggle-text")],
                            vec![Node::Text(title.to_string())],
                        ),
                        tag(
                            "span",
                            vec![text_attr("class", "pf-v6-c-accordion__toggle-icon")],
                            vec![tag(
                                "i",
                                vec![text_attr("class", "fas fa-angle-right"), text_attr("aria-hidden", "true")],
                                vec![],
                            )],
                        ),
                    ],
                )],
            ),
            tag(
                "dd",
                vec![
                    text_attr("class", content_class),
                    Prop { name: "hidden", value: PropValue::Flag(expanded) },
                ],
                bodies,
            ),
        ],
    )
}

fn content_panel(item: &Node) -> &Element {
    match item {
        Node::Element(root) => match &root.children[1] {
            Node::Element(panel) => panel,
            other => panic!("no content panel: {:?}", other),
        },
        other => panic!("no item element: {:?}", other),
    }
}

fn hidden_flag(item: &Node) -> bool {
    let panel = content_panel(item);
    assert_eq!(panel.name, "dd");
    let flags: Vec<bool> = panel
        .props
        .iter()
        .filter(|prop| prop.name == "hidden")
        .map(|prop| match prop.value {
            PropValue::Flag(flag) => flag,
            _ => panic!("hidden is no flag"),
        })
        .collect();
    assert_eq!(flags.len(), 1);
    flags[0]
}

#[test]
fn accordion_classes_follow_the_flags() {
    assert_eq!(accordion_classes(false, false).to_string(), "pf-v6-c-accordion");
    assert_eq!(accordion_classes(true, false).to_string(), "pf-v6-c-accordion pf-m-bordered");
    assert_eq!(accordion_classes(false, true).to_string(), "pf-v6-c-accordion pf-m-display-lg");
    assert_eq!(
        accordion_classes(true, true).to_string(),
        "pf-v6-c-accordion pf-m-bordered pf-m-display-lg"
    );
}

#[test]
fn accordion_classes_hold_exactly_the_documented_names() {
    for bordered in [false, true] {
        for large in [false, true] {
            let class = accordion_classes(bordered, large);
            assert!(class.contains("pf-v6-c-accordion"));
            assert_eq!(class.contains("pf-m-bordered"), bordered);
            assert_eq!(class.contains("pf-m-display-lg"), large);
            let count = class.into_iter().count();
            assert_eq!(count, 1 + usize::from(bordered) + usize::from(large));
        }
    }
}

#[test]
fn item_classes_follow_state_and_flags() {
    assert_eq!(item_classes(false).to_string(), "pf-v6-c-accordion__item");
    assert_eq!(item_classes(true).to_string(), "pf-v6-c-accordion__item pf-m-expanded");
    assert_eq!(toggle_classes(false).to_string(), "pf-v6-c-accordion__toggle");
    assert_eq!(toggle_classes(true).to_string(), "pf-v6-c-accordion__toggle pf-m-expanded");
    assert_eq!(content_classes(false).to_string(), "pf-v6-c-accordion__expandable-content");
    assert_eq!(content_classes(true).to_string(), "pf-v6-c-accordion__expandable-content pf-m-fixed");
}

#[test]
fn accordion_renders_a_div_around_its_items() {
    let children = vec![Node::Outside { slot: 0, key: Some("a".to_string()) }, Node::Outside { slot: 1, key: None }];
    let props = AccordionProperties { bordered: true, large: false, children: children.clone() };
    assert_eq!(
        accordion(&props),
        tag("div", vec![text_attr("class", "pf-v6-c-accordion pf-m-bordered")], children)
    );
}

#[test]
fn accordion_without_flags_or_items() {
    let props = AccordionProperties { bordered: false, large: false, children: vec![] };
    assert_eq!(accordion(&props), tag("div", vec![text_attr("class", "pf-v6-c-accordion")], vec![]));
    let props = AccordionProperties { bordered: true, large: true, children: vec![] };
    assert_eq!(
        accordion(&props),
        tag("div", vec![text_attr("class", "pf-v6-c-accordion pf-m-bordered pf-m-display-lg")], vec![])
    );
}

#[test]
fn accordion_item_renders_collapsed() {
    let props = item_props(false, false, vec![]);
    let state = Controlled::mount(props.expanded);
    assert_eq!(accordion_item(&props, &state), expected_item("Details", false, false, vec![]));
}

#[test]
fn accordion_item_renders_expanded_and_fixed() {
    let props = item_props(true, true, vec![]);
    let state = Controlled::mount(props.expanded);
    assert_eq!(accordion_item(&props, &state), expected_item("Details", true, true, vec![]));
}

#[test]
fn accordion_item_follows_local_state_not_the_property() {
    let props = item_props(false, false, vec![]);
    let state = Controlled::mount(props.expanded).toggle();
    assert_eq!(accordion_item(&props, &state), expected_item("Details", true, false, vec![]));
}

#[test]
fn accordion_item_wraps_each_child_and_keeps_its_key() {
    let first = Node::Outside { slot: 0, key: Some("first".to_string()) };
    let second = Node::Text("plain".to_string());
    let props = item_props(true, false, vec![first.clone(), second.clone()]);
    let state = Controlled::mount(true);
    let body = vec![text_attr("class", "pf-v6-c-accordion__expandable-content-body")];
    assert_eq!(
        accordion_item(&props, &state),
        expected_item(
            "Details",
            true,
            false,
            vec![
                keyed_tag("div", Some("first"), body.clone(), vec![first]),
                keyed_tag("div", None, body, vec![second]),
            ],
        )
    );
}

#[test]
fn accordion_item_click_toggles_and_notifies_once() {
    let state = Controlled::mount(false);
    let (next, notice) = accordion_item_clicked(state);
    assert_eq!(next, Controlled { local: true, observed: false });
    assert_eq!(notice, Notice::Signal);
    let (back, notice) = accordion_item_clicked(next);
    assert_eq!(back, state);
    assert_eq!(notice, Notice::Signal);
}

#[test]
fn accordion_item_toggled_twice_returns_to_collapsed() {
    let props = item_props(false, true, vec![Node::Outside { slot: 0, key: None }]);
    let mut state = Controlled::mount(props.expanded);
    let mut notices = Vec::new();
    let mut hidden = vec![hidden_flag(&accordion_item(&props, &state))];
    for _ in 0..2 {
        state = state.update(props.expanded);
        let (next, notice) = accordion_item_clicked(state);
        state = next;
        notices.push(notice);
        hidden.push(hidden_flag(&accordion_item(&props, &state)));
    }
    assert!(!state.value());
    assert_eq!(hidden, vec![false, true, false]);
    assert_eq!(notices, vec![Notice::Signal, Notice::Signal]);
    let panel_class = content_panel(&accordion_item(&props, &state)).props[0].clone();
    assert_eq!(panel_class, text_attr("class", "pf-v6-c-accordion__expandable-content pf-m-fixed"));
}

#[test]
fn accordion_item_clicks_flip_once_each() {
    for start in [false, true] {
        let mut state = Controlled::mount(start);
        for count in 1..=5 {
            let (next, notice) = accordion_item_clicked(state);
            assert_eq!(notice, Notice::Signal);
            assert_eq!(next.observed, start);
            assert_eq!(next.local, if count % 2 == 0 { start } else { !start });
            state = next;
        }
    }
}

#[test]
fn accordion_item_renders_the_same_twice() {
    let props = item_props(true, true, vec![Node::Outside { slot: 0, key: Some("k".to_string()) }]);
    let state = Controlled::mount(true).toggle();
    assert_eq!(accordion_item(&props, &state), accordion_item(&props, &state));
    let list = AccordionProperties { bordered: true, large: true, children: vec![Node::text("x")] };
    assert_eq!(accordion(&list), accordion(&list));
}
