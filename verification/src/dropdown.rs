//! Dropdown menu

use crate::markup::{
    anchor_prop, component_view, duplicate_nodes, flag_prop, handler_prop, modifiers_prop,
    modifiers_view, no_nodes, no_props, nodes_view, optional_view, placement_prop, push_node,
    push_optional_markup, push_prop, styles_prop, tag_view, text_prop, with_optional_markup,
    Anchor, Interaction, Modifier, ModifierView, Node, NodeView, Placement, Prop,
};
use crate::styles::{no_entries, no_styles, px, px_text, style_entries, with_style};
use popper_rs::state::StylesMap;
use vstd::prelude::*;

verus! {

/// The side of the toggle at which the menu opens.
#[derive(Clone, Copy, Debug, PartialEq, Eq)]
pub enum Position {
    Left,
    Right,
    Top,
}

/// What a click away from the toggle and its surroundings hit, seen from the
/// menu.
#[derive(Clone, Copy, Debug, PartialEq, Eq)]
pub enum ClickTarget {
    /// The event has no target, or its target is no node.
    Unresolved,
    /// A node inside the menu.
    Inside,
    /// A node outside the menu.
    Outside,
}

#[derive(Clone, Debug, PartialEq, Eq)]
pub struct DropdownProperties {
    /// The items of the menu.
    pub children: Vec<Node>,
    pub text: Option<Node>,
    pub icon: Option<Node>,
    pub aria_label: String,
    pub disabled: bool,
    pub full_height: bool,
    pub full_width: bool,
    /// The variant of the toggle, handed to it as it is.
    pub variant: String,
    pub position: Position,
}

pub struct DropdownPropertiesView {
    pub children: Seq<NodeView>,
    pub text: Option<NodeView>,
    pub icon: Option<NodeView>,
    pub aria_label: Seq<char>,
    pub disabled: bool,
    pub full_height: bool,
    pub full_width: bool,
    pub variant: Seq<char>,
    pub position: Position,
}

impl View for DropdownProperties {
    type V = DropdownPropertiesView;

    open spec fn view(&self) -> DropdownPropertiesView {
        DropdownPropertiesView {
            children: nodes_view(self.children@),
            text: optional_view(self.text),
            icon: optional_view(self.icon),
            aria_label: self.aria_label@,
            disabled: self.disabled,
            full_height: self.full_height,
            full_width: self.full_width,
            variant: self.variant@,
            position: self.position,
        }
    }
}

/// The local state of a dropdown.
#[derive(Clone, Debug, PartialEq, Eq)]
pub struct DropdownState {
    /// Whether the menu is open.
    pub expanded: bool,
    /// The styles that the positioning collaborator computed last.
    pub popper: StylesMap,
    /// The styles of the menu.
    pub style: StylesMap,
}

#[verifier::ext_equal]
pub struct DropdownStateView {
    pub expanded: bool,
    pub popper: Map<Seq<char>, Seq<char>>,
    pub style: Map<Seq<char>, Seq<char>>,
}

impl View for DropdownState {
    type V = DropdownStateView;

    open spec fn view(&self) -> DropdownStateView {
        DropdownStateView {
            expanded: self.expanded,
            popper: style_entries(self.popper),
            style: style_entries(self.style),
        }
    }
}

/// The state of a dropdown that was just mounted: closed, without styles.
pub open spec fn dropdown_mounted() -> DropdownStateView {
    DropdownStateView { expanded: false, popper: no_entries(), style: no_entries() }
}

/// Where the menu is placed for a position of the dropdown.
pub open spec fn placement_of(position: Position) -> Placement {
    match position {
        Position::Left => Placement::BottomStart,
        Position::Right => Placement::BottomEnd,
        Position::Top => Placement::TopStart,
    }
}

/// The state after a click on the toggle: a disabled dropdown stays as it is,
/// any other flips between open and closed.
pub open spec fn after_toggle(disabled: bool, state: DropdownStateView) -> DropdownStateView {
    if disabled {
        state
    } else {
        DropdownStateView { expanded: !state.expanded, ..state }
    }
}

/// The state after a click away from the toggle and its surroundings.
///
/// While the menu is not attached the click is passed over. Else the menu
/// closes unless the click hit a node inside it: a target that cannot be
/// resolved counts as away from the menu.
pub open spec fn after_click_away(
    state: DropdownStateView,
    menu_attached: bool,
    target: ClickTarget,
) -> DropdownStateView {
    if menu_attached && target != ClickTarget::Inside {
        DropdownStateView { expanded: false, ..state }
    } else {
        state
    }
}

/// The state after an item asked for the menu to close.
pub open spec fn after_close(state: DropdownStateView) -> DropdownStateView {
    DropdownStateView { expanded: false, ..state }
}

/// The state after the positioning collaborator computed `styles`.
pub open spec fn after_popper_state(
    state: DropdownStateView,
    styles: Map<Seq<char>, Seq<char>>,
) -> DropdownStateView {
    DropdownStateView { popper: styles, ..state }
}

/// The styles of the menu: those of the positioning collaborator, brought to
/// the front and faded in, and as wide as the area around the toggle if the
/// dropdown takes the full width.
pub open spec fn menu_styles(
    popper: Map<Seq<char>, Seq<char>>,
    full_width: bool,
    inside_width: int,
) -> Map<Seq<char>, Seq<char>> {
    let styles = popper.insert("z-index"@, "9999"@).insert("opacity"@, "1"@).insert(
        "transition"@,
        "opacity cubic-bezier(0.54, 1.5, 0.38, 1.11)"@,
    );
    if full_width {
        styles.insert("width"@, px_text(inside_width))
    } else {
        styles
    }
}

/// The state after the width modifier ran. `inside_width` is the width of the
/// element around the toggle, `None` while that element is not attached, in
/// which case nothing changes.
pub open spec fn after_width_modifier(
    full_width: bool,
    state: DropdownStateView,
    inside_width: Option<i32>,
) -> DropdownStateView {
    match inside_width {
        Some(width) => DropdownStateView {
            style: menu_styles(state.popper, full_width, width as int),
            ..state
        },
        None => state,
    }
}

/// The custom modifier of a dropdown: before styles are written, it reports
/// [`Interaction::WidthModifier`].
pub open spec fn width_modifier() -> ModifierView {
    ModifierView {
        name: "widthMods"@,
        phase: Some("beforeWrite"@),
        enabled: Some(true),
        handler: Some(Interaction::WidthModifier),
    }
}

/// The toggle of a dropdown.
pub open spec fn dropdown_toggle_markup(props: DropdownPropertiesView, expanded: bool) -> NodeView {
    component_view(
        "MenuToggle"@,
        with_optional_markup(
            with_optional_markup(
                seq![anchor_prop("ref"@, Anchor::DropdownToggle)],
                "text"@,
                props.text,
            ),
            "icon"@,
            props.icon,
        )
            .push(flag_prop("disabled"@, props.disabled))
            .push(flag_prop("full_height"@, props.full_height))
            .push(flag_prop("full_width"@, props.full_width))
            .push(text_prop("aria_label"@, props.aria_label))
            .push(text_prop("variant"@, props.variant))
            .push(flag_prop("expanded"@, expanded))
            .push(handler_prop("ontoggle"@, Interaction::ToggleDropdown)),
        Seq::empty(),
    )
}

/// The menu of a dropdown, with the handle by which its items close it.
pub open spec fn dropdown_menu_markup(
    children: Seq<NodeView>,
    style: Map<Seq<char>, Seq<char>>,
) -> NodeView {
    component_view(
        "ContextProvider"@,
        seq![handler_prop("context"@, Interaction::CloseDropdown)],
        seq![
            component_view(
                "Menu"@,
                Seq::empty()
                    .push(anchor_prop("ref"@, Anchor::DropdownMenu))
                    .push(styles_prop("style"@, style)),
                children,
            ),
        ],
    )
}

/// The floating panel of a dropdown. It is visible if and only if the
/// dropdown is open.
pub open spec fn dropdown_popper_markup(props: DropdownPropertiesView, state: DropdownStateView) -> NodeView {
    component_view(
        "PortalPopper"@,
        Seq::empty()
            .push(flag_prop("visible"@, state.expanded))
            .push(anchor_prop("target"@, Anchor::DropdownToggle))
            .push(anchor_prop("content"@, Anchor::DropdownMenu))
            .push(placement_prop("placement"@, placement_of(props.position)))
            .push(modifiers_prop("modifiers"@, seq![width_modifier()]))
            .push(handler_prop("onstatechange"@, Interaction::PopperStateChanged)),
        seq![dropdown_menu_markup(props.children, state.style)],
    )
}

/// The markup of a dropdown in the state `state`.
pub open spec fn dropdown_markup(props: DropdownPropertiesView, state: DropdownStateView) -> NodeView {
    NodeView::Fragment(
        seq![
            tag_view(
                "div"@,
                Seq::empty()
                    .push(text_prop("style"@, "display: inline;"@))
                    .push(anchor_prop("ref"@, Anchor::DropdownInside)),
                Seq::empty()
                    .push(dropdown_toggle_markup(props, state.expanded))
                    .push(dropdown_popper_markup(props, state)),
            ),
        ],
    )
}

impl DropdownState {
    /// The state of a dropdown at its first render.
    pub fn mount() -> (state: DropdownState)
        ensures
            state@ == dropdown_mounted(),
    {
        DropdownState { expanded: false, popper: no_styles(), style: no_styles() }
    }

    /// Handles a click on the toggle.
    pub fn toggle(self, props: &DropdownProperties) -> (state: DropdownState)
        ensures
            state@ == after_toggle(props.disabled, self@),
    {
        if props.disabled {
            self
        } else {
            DropdownState { expanded: !self.expanded, popper: self.popper, style: self.style }
        }
    }

    /// Handles a click away from the toggle and its surroundings.
    pub fn click_away(self, menu_attached: bool, target: ClickTarget) -> (state: DropdownState)
        ensures
            state@ == after_click_away(self@, menu_attached, target),
    {
        let inside = match target {
            ClickTarget::Inside => true,
            _ => false,
        };
        if menu_attached && !inside {
            DropdownState { expanded: false, popper: self.popper, style: self.style }
        } else {
            self
        }
    }

    /// Handles the request of an item to close the menu.
    pub fn close(self) -> (state: DropdownState)
        ensures
            state@ == after_close(self@),
    {
        DropdownState { expanded: false, popper: self.popper, style: self.style }
    }

    /// Takes in the styles that the positioning collaborator computed.
    pub fn popper_state_changed(self, styles: StylesMap) -> (state: DropdownState)
        ensures
            state@ == after_popper_state(self@, style_entries(styles)),
    {
        DropdownState { expanded: self.expanded, popper: styles, style: self.style }
    }

    /// Runs the width modifier.
    pub fn width_modifier(self, props: &DropdownProperties, inside_width: Option<i32>) -> (state:
        DropdownState)
        ensures
            state@ == after_width_modifier(props.full_width, self@, inside_width),
    {
        match inside_width {
            Some(width) => {
                let style = extend_menu_styles(&self.popper, props.full_width, width);
                DropdownState { expanded: self.expanded, popper: self.popper, style }
            },
            None => self,
        }
    }
}

/// Computes the styles of the menu from those of the positioning collaborator.
pub fn extend_menu_styles(popper: &StylesMap, full_width: bool, inside_width: i32) -> (styles: StylesMap)
    ensures
        style_entries(styles) == menu_styles(style_entries(*popper), full_width, inside_width as int),
{
    let front = with_style(popper, "z-index", "9999");
    let opaque = with_style(&front, "opacity", "1");
    let faded = with_style(&opaque, "transition", "opacity cubic-bezier(0.54, 1.5, 0.38, 1.11)");
    if full_width {
        let width = px(inside_width);
        with_style(&faded, "width", width.as_str())
    } else {
        faded
    }
}

/// Maps the position of a dropdown to the placement of its menu.
pub fn placement(position: Position) -> (placement: Placement)
    ensures
        placement == placement_of(position),
{
    match position {
        Position::Left => Placement::BottomStart,
        Position::Right => Placement::BottomEnd,
        Position::Top => Placement::TopStart,
    }
}

fn dropdown_toggle(props: &DropdownProperties, expanded: bool) -> (node: Node)
    ensures
        node@ == dropdown_toggle_markup(props@, expanded),
{
    let mut toggle = no_props();
    push_prop(&mut toggle, Prop::anchor("ref", Anchor::DropdownToggle));
    push_optional_markup(&mut toggle, "text", &props.text);
    push_optional_markup(&mut toggle, "icon", &props.icon);
    push_prop(&mut toggle, Prop::flag("disabled", props.disabled));
    push_prop(&mut toggle, Prop::flag("full_height", props.full_height));
    push_prop(&mut toggle, Prop::flag("full_width", props.full_width));
    push_prop(&mut toggle, Prop::text("aria_label", props.aria_label.as_str()));
    push_prop(&mut toggle, Prop::text("variant", props.variant.as_str()));
    push_prop(&mut toggle, Prop::flag("expanded", expanded));
    push_prop(&mut toggle, Prop::handler("ontoggle", Interaction::ToggleDropdown));
    Node::component("MenuToggle", toggle, no_nodes())
}

fn dropdown_menu(children: &Vec<Node>, style: &StylesMap) -> (node: Node)
    ensures
        node@ == dropdown_menu_markup(nodes_view(children@), style_entries(*style)),
{
    let mut menu = no_props();
    push_prop(&mut menu, Prop::anchor("ref", Anchor::DropdownMenu));
    push_prop(&mut menu, Prop::styles("style", style.clone()));
    let mut provided = no_nodes();
    push_node(&mut provided, Node::component("Menu", menu, duplicate_nodes(children)));
    let mut provider = no_props();
    push_prop(&mut provider, Prop::handler("context", Interaction::CloseDropdown));
    Node::component("ContextProvider", provider, provided)
}

fn dropdown_popper(props: &DropdownProperties, state: &DropdownState) -> (node: Node)
    ensures
        node@ == dropdown_popper_markup(props@, state@),
{
    let mut modifiers: Vec<Modifier> = Vec::new();
    modifiers.push(
        Modifier {
            name: "widthMods",
            phase: Some("beforeWrite"),
            enabled: Some(true),
            handler: Some(Interaction::WidthModifier),
        },
    );
    proof {
        assert(modifiers_view(modifiers@) =~= seq![width_modifier()]);
    }
    let mut popper = no_props();
    push_prop(&mut popper, Prop::flag("visible", state.expanded));
    push_prop(&mut popper, Prop::anchor("target", Anchor::DropdownToggle));
    push_prop(&mut popper, Prop::anchor("content", Anchor::DropdownMenu));
    push_prop(&mut popper, Prop::placement("placement", placement(props.position)));
    push_prop(&mut popper, Prop::modifiers("modifiers", modifiers));
    push_prop(&mut popper, Prop::handler("onstatechange", Interaction::PopperStateChanged));
    let mut children = no_nodes();
    push_node(&mut children, dropdown_menu(&props.children, &state.style));
    Node::component("PortalPopper", popper, children)
}

/// Dropdown menu component: renders the dropdown in the state `state`.
#[allow(non_snake_case)]
pub fn Dropdown(props: &DropdownProperties, state: &DropdownState) -> (node: Node)
    ensures
        node@ == dropdown_markup(props@, state@),
{
    let mut attributes = no_props();
    push_prop(&mut attributes, Prop::text("style", "display: inline;"));
    push_prop(&mut attributes, Prop::anchor("ref", Anchor::DropdownInside));
    let mut children = no_nodes();
    push_node(&mut children, dropdown_toggle(props, state.expanded));
    push_node(&mut children, dropdown_popper(props, state));
    let mut inside = no_nodes();
    push_node(&mut inside, Node::tag("div", attributes, children));
    Node::fragment(inside)
}

/// A click on the toggle of a disabled dropdown changes nothing, so a
/// disabled dropdown that is closed stays closed however often it is clicked.
pub proof fn lemma_disabled_toggle_changes_nothing(state: DropdownStateView)
    ensures
        after_toggle(true, state) == state,
{
}

/// Rendering a dropdown twice from the same configuration and state gives the
/// same markup.
pub proof fn lemma_dropdown_render_is_idempotent(
    props: DropdownProperties,
    state: DropdownState,
    first: Node,
    second: Node,
)
    requires
        first@ == dropdown_markup(props@, state@),
        second@ == dropdown_markup(props@, state@),
    ensures
        first@ == second@,
{
}

} // verus!
