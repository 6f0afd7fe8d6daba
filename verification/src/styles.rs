//! Inline styles: the boundary to `popper_rs`'s style map, and pixel lengths.

use popper_rs::state::StylesMap;
use vstd::prelude::*;
use vstd::string::StringExecFns;

verus! {

/// `popper_rs::state::StylesMap`, a map from style properties to values.
/// Nothing of its inside is known here but what [`style_entries`] and the
/// functions below say.
#[verifier::external_type_specification]
#[verifier::external_body]
pub struct ExStylesMap(popper_rs::state::StylesMap);

/// The declarations that a style map holds: property name to value.
pub uninterp spec fn style_entries(styles: StylesMap) -> Map<Seq<char>, Seq<char>>;

/// No declarations at all.
pub open spec fn no_entries() -> Map<Seq<char>, Seq<char>> {
    Map::empty()
}

/// `StylesMap::default`: a style map without declarations.
#[verifier::external_body]
pub(crate) fn no_styles() -> (styles: StylesMap)
    ensures
        style_entries(styles) == no_entries(),
{
    StylesMap::default()
}

/// `StylesMap::extend_with`: a copy of the map in which `key` is set to
/// `value`, replacing an earlier value of `key`; the other declarations are
/// kept.
#[verifier::external_body]
pub(crate) fn with_style(styles: &StylesMap, key: &str, value: &str) -> (extended: StylesMap)
    ensures
        style_entries(extended) == style_entries(*styles).insert(key@, value@),
{
    styles.extend_with(key, value)
}

/// `StylesMap::clone`: a map with the same declarations.
pub assume_specification[ <StylesMap as Clone>::clone ](styles: &StylesMap) -> (copy: StylesMap)
    ensures
        style_entries(copy) == style_entries(*styles),
;

/// The decimal digit `d`, for `0 <= d <= 9`.
pub open spec fn digit_text(d: int) -> Seq<char> {
    if d == 0 {
        "0"@
    } else if d == 1 {
        "1"@
    } else if d == 2 {
        "2"@
    } else if d == 3 {
        "3"@
    } else if d == 4 {
        "4"@
    } else if d == 5 {
        "5"@
    } else if d == 6 {
        "6"@
    } else if d == 7 {
        "7"@
    } else if d == 8 {
        "8"@
    } else {
        "9"@
    }
}

/// A natural number in decimal, without leading zeros.
pub open spec fn natural_text(n: nat) -> Seq<char>
    decreases n,
{
    if n < 10 {
        digit_text(n as int)
    } else {
        natural_text(n / 10) + digit_text((n % 10) as int)
    }
}

/// An integer in decimal, with a leading minus sign when negative.
pub open spec fn decimal_text(i: int) -> Seq<char> {
    if i < 0 {
        "-"@ + natural_text((-i) as nat)
    } else {
        natural_text(i as nat)
    }
}

/// A length in CSS pixels, such as `120px`.
pub open spec fn px_text(length: int) -> Seq<char> {
    decimal_text(length) + "px"@
}

fn digit(d: u32) -> (text: &'static str)
    requires
        d < 10,
    ensures
        text@ == digit_text(d as int),
{
    if d == 0 {
        "0"
    } else if d == 1 {
        "1"
    } else if d == 2 {
        "2"
    } else if d == 3 {
        "3"
    } else if d == 4 {
        "4"
    } else if d == 5 {
        "5"
    } else if d == 6 {
        "6"
    } else if d == 7 {
        "7"
    } else if d == 8 {
        "8"
    } else {
        "9"
    }
}

fn natural(n: u32) -> (text: String)
    ensures
        text@ == natural_text(n as nat),
    decreases n,
{
    if n < 10 {
        String::from_str(digit(n))
    } else {
        let mut text = natural(n / 10);
        text.append(digit(n % 10));
        text
    }
}

/// Renders a length as CSS pixels.
pub fn px(length: i32) -> (text: String)
    ensures
        text@ == px_text(length as int),
{
    let mut text = if length < 0 {
        let magnitude: u32 = (-(length as i64)) as u32;
        let mut signed = String::from_str("-");
        let digits = natural(magnitude);
        signed.append(digits.as_str());
        signed
    } else {
        natural(length as u32)
    };
    text.append("px");
    text
}

} // verus!
