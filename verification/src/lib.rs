//! Verified view logic for a small set of PatternFly-style widgets: accordion,
//! dropdown menu, label, switch and toolbar divider.
//!
//! A widget here is three things, each a function with a proved contract:
//!
//! * its local state, seeded from a controlling value and kept in step with it
//!   ([`state`]);
//! * what an interaction does to that state, and the notification that the
//!   caller's callback is owed for it;
//! * its markup, as a description ([`markup`]) that is a function of the
//!   configuration and the local state alone.
//!
//! A host renders the description, keeps the state between renders, feeds the
//! interactions back and delivers the notifications. Classes are composed in
//! `yew`'s class set ([`classes`]) and inline styles in `popper_rs`'s style
//! map ([`styles`]); what is assumed of the two is stated there.

pub mod accordion;
pub mod classes;
pub mod dropdown;
pub mod dual_list_selector;
pub mod label;
pub mod markup;
pub mod state;
pub mod styles;
pub mod switch;
pub mod toolbar;
pub mod wrap;
