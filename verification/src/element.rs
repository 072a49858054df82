//! The rendered element: its inner markup and the attribute assignments made
//! on it, in the order in which they were made.
//!
//! A name may be assigned more than once. Whoever reads the element sees,
//! under each name, the value of the last assignment to it.

use vstd::prelude::*;
use crate::descriptor::{text_of, Text};

verus! {

/// One assignment of a value to an attribute name.
#[derive(Clone, Debug, PartialEq, Eq)]
pub struct Attr {
    pub name: String,
    pub value: String,
}

impl View for Attr {
    type V = (Text, Text);

    open spec fn view(&self) -> (Text, Text) {
        (self.name@, self.value@)
    }
}

/// The assignments held by a vector, each as a pair of name and value.
pub open spec fn assignments_of(attrs: Seq<Attr>) -> Seq<(Text, Text)> {
    Seq::new(attrs.len(), |i: int| attrs[i]@)
}

/// The value that the last assignment to `name` gave it, if there is one.
pub open spec fn effective(assignments: Seq<(Text, Text)>, name: Text) -> Option<Text>
    decreases assignments.len(),
{
    if assignments.len() == 0 {
        None
    } else if assignments.last().0 == name {
        Some(assignments.last().1)
    } else {
        effective(assignments.drop_last(), name)
    }
}

/// The assignments after an optional one: one longer where there is a value,
/// unchanged where there is none.
pub open spec fn with_optional(
    assignments: Seq<(Text, Text)>,
    name: Text,
    value: Option<Text>,
) -> Seq<(Text, Text)> {
    match value {
        Some(v) => assignments.push((name, v)),
        None => assignments,
    }
}

/// An `<svg>` element as the component hands it to its host.
#[derive(Clone, Debug, PartialEq, Eq)]
pub struct Svg {
    /// The markup inside the element, never escaped.
    pub inner_html: String,
    /// The attribute assignments, first to last.
    pub attrs: Vec<Attr>,
}

/// The mathematical value of an [`Svg`].
pub ghost struct SvgView {
    pub inner_html: Text,
    pub assignments: Seq<(Text, Text)>,
}

impl SvgView {
    /// What a reader of the element finds under `name`.
    pub open spec fn attribute(self, name: Text) -> Option<Text> {
        effective(self.assignments, name)
    }
}

impl View for Svg {
    type V = SvgView;

    open spec fn view(&self) -> SvgView {
        SvgView { inner_html: self.inner_html@, assignments: assignments_of(self.attrs@) }
    }
}

impl Svg {
    /// An element with the given inner markup and no attribute yet.
    pub fn new(inner_html: String) -> (svg: Svg)
        ensures
            svg@.inner_html == inner_html@,
            svg@.assignments == Seq::<(Text, Text)>::empty(),
    {
        let svg = Svg { inner_html, attrs: Vec::new() };
        assert(svg@.assignments =~= Seq::<(Text, Text)>::empty());
        svg
    }

    /// Assigns `value` to the attribute `name`, after all earlier assignments.
    pub fn attr(&mut self, name: &str, value: String)
        ensures
            final(self)@.inner_html == old(self)@.inner_html,
            final(self)@.assignments == old(self)@.assignments.push((name@, value@)),
    {
        let name = name.to_owned();
        self.attrs.push(Attr { name, value });
        assert(self@.assignments =~= old(self)@.assignments.push((name@, value@)));
    }

    /// Assigns `value` to the attribute `name` if there is a value, and
    /// leaves the element as it is if there is none.
    pub fn attr_opt(&mut self, name: &str, value: &Option<String>)
        ensures
            final(self)@.inner_html == old(self)@.inner_html,
            final(self)@.assignments == with_optional(
                old(self)@.assignments,
                name@,
                text_of(*value),
            ),
    {
        match value {
            Some(v) => self.attr(name, v.clone()),
            None => {},
        }
    }

    /// The value that a reader of the element finds under `name`: that of
    /// the last assignment to `name`, or nothing where the name was never
    /// assigned.
    pub fn attribute(&self, name: &str) -> (found: Option<String>)
        ensures
            text_of(found) == self@.attribute(name@),
    {
        let wanted = name.to_owned();
        let mut i: usize = self.attrs.len();
        assert(self@.assignments.take(i as int) =~= self@.assignments);
        while i > 0
            invariant
                i <= self.attrs.len(),
                wanted@ == name@,
                effective(self@.assignments.take(i as int), name@) == effective(
                    self@.assignments,
                    name@,
                ),
            decreases i,
        {
            let ghost upto = self@.assignments.take(i as int);
            assert(upto.last() == self.attrs@[i - 1]@);
            assert(upto.drop_last() =~= self@.assignments.take(i - 1));
            i = i - 1;
            if self.attrs[i].name == wanted {
                return Some(self.attrs[i].value.clone());
            }
        }
        assert(self@.assignments.take(0).len() == 0);
        None
    }
}

/// Appending an assignment: it decides its own name and leaves every other
/// name as it was.
pub proof fn lemma_effective_push(assignments: Seq<(Text, Text)>, name: Text, value: Text)
    ensures
        forall|q: Text| #[trigger]
            effective(assignments.push((name, value)), q) == if q == name {
                Some(value)
            } else {
                effective(assignments, q)
            },
{
    let next = assignments.push((name, value));
    assert(next.last() == (name, value));
    assert(next.drop_last() =~= assignments);
}

/// An optional assignment decides its own name where it has a value, and
/// leaves every other name as it was.
pub proof fn lemma_effective_with_optional(
    assignments: Seq<(Text, Text)>,
    name: Text,
    value: Option<Text>,
)
    ensures
        forall|q: Text| #[trigger]
            effective(with_optional(assignments, name, value), q) == if q == name
                && value.is_some() {
                value
            } else {
                effective(assignments, q)
            },
{
    if let Some(v) = value {
        lemma_effective_push(assignments, name, v);
    }
}

} // verus!
