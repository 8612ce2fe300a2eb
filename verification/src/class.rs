//! A view whose element has a `class` attribute.
//!
//! Building and rebuilding the element is the business of the wrapped view; what is decided
//! here is when the attribute has to be set, and to what.
use vstd::prelude::*;

verus! {

/// `std::convert::From::from` of a type for itself returns its argument unchanged.
pub assume_specification<Same>[ <Same as From<Same>>::from ](value: Same) -> (same: Same)
    ensures
        same == value,
;

/// `std::convert::From::from` of a string slice makes a string of the same characters.
pub assume_specification<'_0>[ <String as From<&str>>::from ](text: &str) -> (string: String)
    ensures
        string@ == text@,
;

/// A view with a class.
pub struct Class<V> {
    child: V,
    class: String,
}

/// A view with the class that `name` is the name of.
pub fn class<V, S: Into<String>>(child: V, name: S) -> (view: Class<V>)
    ensures
        view.wrapped() == child,
        call_ensures(<S as Into<String>>::into, (name,), view.name()),
{
    Class { child, class: name.into() }
}

/// An attribute to set on an element.
#[derive(Clone, Copy, Debug, PartialEq, Eq)]
pub struct Attribute<'a> {
    pub name: &'a str,
    pub value: &'a str,
}

/// What rebuilding a view with a class comes to.
#[derive(Clone, Copy, Debug, PartialEq, Eq)]
pub struct Rebuilt<'a> {
    /// The flags of what has changed.
    pub changed: u32,
    /// The attribute to set, if it has to be.
    pub attribute: Option<Attribute<'a>>,
}

impl<V> Class<V> {
    /// The view that has the class.
    pub closed spec fn wrapped(self) -> V {
        self.child
    }

    /// The name of the class.
    pub closed spec fn name(self) -> String {
        self.class
    }

    /// The attribute is the one that the view asks for.
    pub open spec fn asks_for(self, attribute: Attribute<'_>) -> bool {
        attribute.name@ == "class"@ && attribute.value@ == self.name()@
    }

    /// After the wrapped view was rebuilt, the element does not have the class it should: it
    /// has the class of the view before, or is another element.
    pub open spec fn is_outdated(self, prev: Self, prev_id: u64, id: u64) -> bool {
        self.name()@ != prev.name()@ || prev_id != id
    }

    /// The flags of what has changed: what the wrapped view reports, and the change of the
    /// attribute where there is one.
    pub open spec fn changes(
        self,
        prev: Self,
        prev_id: u64,
        id: u64,
        changed: u32,
        other_change: u32,
    ) -> u32 {
        if self.is_outdated(prev, prev_id, id) {
            changed | other_change
        } else {
            changed
        }
    }

    /// The view that has the class.
    pub fn child(&self) -> (child: &V)
        ensures
            *child == self.wrapped(),
    {
        &self.child
    }

    /// The attribute to set on the element that the wrapped view has built.
    pub fn build(&self) -> (attribute: Attribute<'_>)
        ensures
            self.asks_for(attribute),
    {
        Attribute { name: "class", value: self.class.as_str() }
    }

    /// What is left to do once the wrapped view was rebuilt from the one in `prev`, which gave
    /// the element that was `prev_id` the identity `id` and reported `changed`. A change of
    /// the attribute is reported as `other_change`.
    pub fn rebuild(
        &self,
        prev: &Self,
        prev_id: u64,
        id: u64,
        changed: u32,
        other_change: u32,
    ) -> (rebuilt: Rebuilt<'_>)
        ensures
            rebuilt.changed == self.changes(*prev, prev_id, id, changed, other_change),
            rebuilt.attribute is Some <==> self.is_outdated(*prev, prev_id, id),
            rebuilt.attribute matches Some(attribute) ==> self.asks_for(attribute),
    {
        if !(self.class == prev.class) || prev_id != id {
            Rebuilt { changed: changed | other_change, attribute: Some(self.build()) }
        } else {
            Rebuilt { changed, attribute: None }
        }
    }
}

/// The class that an element has once the host has set the attribute, where it has to.
pub open spec fn class_after<V>(
    view: Class<V>,
    prev: Class<V>,
    prev_id: u64,
    id: u64,
    found: Seq<char>,
) -> Seq<char> {
    if view.is_outdated(prev, prev_id, id) {
        view.name()@
    } else {
        found
    }
}

/// After a rebuild the element has the class that the view asks for, if it had the class of
/// the view before or has become another element.
pub proof fn law_class_is_current<V>(
    view: Class<V>,
    prev: Class<V>,
    prev_id: u64,
    id: u64,
    found: Seq<char>,
)
    requires
        prev_id == id ==> found == prev.name()@,
    ensures
        class_after(view, prev, prev_id, id, found) == view.name()@,
{
}

/// A rebuild with the same class of the same element sets nothing and reports nothing of its
/// own.
pub proof fn law_same_class_changes_nothing<V>(
    view: Class<V>,
    prev: Class<V>,
    id: u64,
    changed: u32,
    other_change: u32,
    found: Seq<char>,
)
    requires
        view.name()@ == prev.name()@,
    ensures
        !view.is_outdated(prev, id, id),
        view.changes(prev, id, id, changed, other_change) == changed,
        class_after(view, prev, id, id, found) == found,
{
}

/// Nothing that the wrapped view reports as changed is lost, and a change of the attribute is
/// reported with it.
pub proof fn law_changes_are_kept<V>(
    view: Class<V>,
    prev: Class<V>,
    prev_id: u64,
    id: u64,
    changed: u32,
    other_change: u32,
)
    ensures
        view.changes(prev, prev_id, id, changed, other_change) & changed == changed,
        view.is_outdated(prev, prev_id, id) ==> view.changes(
            prev,
            prev_id,
            id,
            changed,
            other_change,
        ) & other_change == other_change,
{
    assert(changed & changed == changed) by (bit_vector);
    assert((changed | other_change) & changed == changed) by (bit_vector);
    assert((changed | other_change) & other_change == other_change) by (bit_vector);
}

/// A view that was given a child and a name has that child, and the attribute of its element is
/// the class of that name.
pub proof fn law_view_keeps_child_and_name<V>(
    child: V,
    name: String,
    view: Class<V>,
    kept: &V,
    attribute: Attribute<'_>,
)
    requires
        call_ensures(class::<V, String>, (child, name), view),
        call_ensures(Class::<V>::child, (&view,), kept),
        call_ensures(Class::<V>::build, (&view,), attribute),
    ensures
        *kept == child,
        attribute.name@ == "class"@,
        attribute.value@ == name@,
{
}

/// The same of a name that is given as a string slice.
pub proof fn law_view_keeps_child_and_borrowed_name<V>(
    child: V,
    name: &str,
    view: Class<V>,
    kept: &V,
    attribute: Attribute<'_>,
)
    requires
        call_ensures(class::<V, &str>, (child, name), view),
        call_ensures(Class::<V>::child, (&view,), kept),
        call_ensures(Class::<V>::build, (&view,), attribute),
    ensures
        *kept == child,
        attribute.name@ == "class"@,
        attribute.value@ == name@,
{
}

/// After a rebuild the attribute is set if and only if the two views would build different
/// values of it or the element is another one; what is set is what building the view anew would
/// set, and only then is a change of it reported beside what the wrapped view reported.
pub proof fn law_rebuild_sets_what_build_would<V>(
    view: Class<V>,
    prev: Class<V>,
    prev_id: u64,
    id: u64,
    changed: u32,
    other_change: u32,
    built: Attribute<'_>,
    built_before: Attribute<'_>,
    rebuilt: Rebuilt<'_>,
)
    requires
        call_ensures(Class::<V>::build, (&view,), built),
        call_ensures(Class::<V>::build, (&prev,), built_before),
        call_ensures(
            Class::<V>::rebuild,
            (&view, &prev, prev_id, id, changed, other_change),
            rebuilt,
        ),
    ensures
        rebuilt.attribute is Some <==> built.value@ != built_before.value@ || prev_id != id,
        rebuilt.attribute matches Some(attribute) ==> {
            &&& attribute.name@ == built.name@
            &&& attribute.value@ == built.value@
        },
        rebuilt.attribute is None ==> rebuilt.changed == changed,
        rebuilt.attribute is Some ==> rebuilt.changed == changed | other_change,
        built.name@ == "class"@,
{
}

} // verus!
