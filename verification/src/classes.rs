//! Class composition: the boundary to `yew`'s class set.

use crate::markup::{props_view, push_prop, text_prop, Prop, PropValue};
use vstd::prelude::*;
use yew::html::Classes;
use yew::html::IntoPropValue;
use yew::virtual_dom::AttrValue;

verus! {

/// `yew::html::Classes`, an insertion-ordered set of class names. Nothing of
/// its inside is known here but what [`class_names`] and the functions below
/// say.
#[verifier::external_type_specification]
#[verifier::external_body]
pub struct ExClasses(yew::html::Classes);

/// The class names that a set holds, in the order in which they were added.
pub uninterp spec fn class_names(classes: Classes) -> Seq<Seq<char>>;

/// A character of a class name as this library writes them: an ASCII letter or
/// digit, a hyphen or an underscore.
pub open spec fn is_token_char(c: char) -> bool {
    ('a' <= c && c <= 'z') || ('A' <= c && c <= 'Z') || ('0' <= c && c <= '9') || c == '-' || c
        == '_'
}

/// A single class name: not empty, and free of whitespace because each of its
/// characters is a token character.
pub open spec fn is_class_token(name: Seq<char>) -> bool {
    name.len() > 0 && forall|i: int| 0 <= i < name.len() ==> is_token_char(#[trigger] name[i])
}

/// `name` if `on`, else nothing.
pub open spec fn class_if(on: bool, name: Seq<char>) -> Seq<Seq<char>> {
    if on {
        seq![name]
    } else {
        Seq::empty()
    }
}

/// Adding one name to an ordered set: a name already present stays where it is.
pub open spec fn with_class(names: Seq<Seq<char>>, name: Seq<char>) -> Seq<Seq<char>> {
    if names.contains(name) {
        names
    } else {
        names.push(name)
    }
}

/// Adding the names of `more` to an ordered set, one after the other.
pub open spec fn with_classes(names: Seq<Seq<char>>, more: Seq<Seq<char>>) -> Seq<Seq<char>>
    decreases more.len(),
{
    if more.len() == 0 {
        names
    } else {
        with_classes(with_class(names, more[0]), more.drop_first())
    }
}

/// The value of a `class` attribute: the names separated by single spaces.
pub open spec fn joined(names: Seq<Seq<char>>) -> Seq<char>
    decreases names.len(),
{
    if names.len() == 0 {
        Seq::empty()
    } else if names.len() == 1 {
        names[0]
    } else {
        joined(names.drop_last()) + seq![' '] + names.last()
    }
}

/// Adding a set of one name is adding that name.
pub proof fn lemma_with_one_class(names: Seq<Seq<char>>, name: Seq<char>)
    ensures
        with_classes(names, seq![name]) == with_class(names, name),
        with_classes(names, Seq::empty()) == names,
{
    reveal_with_fuel(with_classes, 2);
    assert(seq![name].drop_first().len() == 0);
}

/// Adding a name that the set does not hold appends it.
pub proof fn lemma_with_new_class(names: Seq<Seq<char>>, name: Seq<char>)
    requires
        !names.contains(name),
    ensures
        with_class(names, name) == names.push(name),
        with_classes(names, seq![name]) == names.push(name),
{
    lemma_with_one_class(names, name);
}

/// What an extended sequence holds: what `names` holds, and the added name
/// if it was added.
pub proof fn lemma_member_after(names: Seq<Seq<char>>, on: bool, added: Seq<char>, other: Seq<char>)
    ensures
        (names + class_if(on, added)).contains(other) <==> (names.contains(other) || (on && added
            == other)),
{
    let extended = names + class_if(on, added);
    if names.contains(other) {
        let i = choose|i: int| 0 <= i < names.len() && names[i] == other;
        assert(extended[i] == other);
    }
    if on && added == other {
        assert(extended[names.len() as int] == other);
    }
    if extended.contains(other) {
        let i = choose|i: int| 0 <= i < extended.len() && extended[i] == other;
        if i < names.len() {
            assert(names[i] == other);
        } else {
            assert(extended[i] == added);
        }
    }
}

/// `Classes::from(&'static str)`, which splits its argument at whitespace. A
/// class token holds none, so the set holds exactly that name.
#[verifier::external_body]
pub(crate) fn single_class(name: &'static str) -> (classes: Classes)
    requires
        is_class_token(name@),
    ensures
        class_names(classes) == seq![name@],
{
    Classes::from(name)
}

/// `Classes::push` with one class token: the name is appended unless the set
/// holds it already, in which case the set is left as it is.
#[verifier::external_body]
pub(crate) fn add_class(classes: &mut Classes, name: &'static str)
    requires
        is_class_token(name@),
    ensures
        class_names(*final(classes)) == with_class(class_names(*old(classes)), name@),
{
    classes.push(name)
}

/// `Extend::extend` with another set: each of its names is pushed in turn. The
/// names must be class tokens, as `push` splits a name that holds whitespace.
#[verifier::external_body]
pub(crate) fn add_classes(classes: &mut Classes, more: Classes)
    requires
        forall|i: int| 0 <= i < class_names(more).len() ==> is_class_token(#[trigger] class_names(more)[i]),
    ensures
        class_names(*final(classes)) == with_classes(class_names(*old(classes)), class_names(more)),
{
    classes.extend(more)
}

/// `IntoPropValue::<Option<AttrValue>>::into_prop_value`: no attribute for an
/// empty set, else the names joined by single spaces.
#[verifier::external_body]
pub(crate) fn class_attribute(classes: &Classes) -> (value: Option<String>)
    ensures
        class_names(*classes).len() == 0 ==> value is None,
        class_names(*classes).len() > 0 ==> value is Some && value->0@ == joined(
            class_names(*classes),
        ),
{
    let value: Option<AttrValue> = classes.clone().into_prop_value();
    value.map(|text| text.to_string())
}

/// Extends a set by the set of one name that it does not hold yet.
pub(crate) fn extend_by_class(classes: &mut Classes, name: &'static str)
    requires
        is_class_token(name@),
        !class_names(*old(classes)).contains(name@),
    ensures
        class_names(*final(classes)) == class_names(*old(classes)).push(name@),
{
    proof {
        lemma_with_new_class(class_names(*classes), name@);
    }
    add_classes(classes, single_class(name));
}

/// Pushes `name` if `on`, onto a set that does not hold it yet.
pub(crate) fn add_class_when(classes: &mut Classes, name: &'static str, on: bool)
    requires
        is_class_token(name@),
        !class_names(*old(classes)).contains(name@),
    ensures
        class_names(*final(classes)) == class_names(*old(classes)) + class_if(on, name@),
{
    if on {
        add_class(classes, name);
    }
    proof {
        assert(class_names(*classes) =~= class_names(*old(classes)) + class_if(on, name@));
    }
}

/// Appends the `class` attribute that a set of classes gives, if it gives one.
pub fn push_class_attribute(props: &mut Vec<Prop>, classes: &Classes)
    ensures
        props_view(final(props)@) == with_class_attribute(
            props_view(old(props)@),
            class_names(*classes),
        ),
{
    match class_attribute(classes) {
        Some(value) => {
            push_prop(props, Prop { name: "class", value: PropValue::Text(value) });
        },
        None => {},
    }
}

/// The properties of an element after its `class` attribute was decided: an
/// empty set of classes gives no attribute.
pub open spec fn with_class_attribute(
    props: Seq<crate::markup::PropView>,
    names: Seq<Seq<char>>,
) -> Seq<crate::markup::PropView> {
    if names.len() == 0 {
        props
    } else {
        props.push(text_prop("class"@, joined(names)))
    }
}

} // verus!
