//! Attribute changes and the allow-list that decides which of them are
//! surfaced.

use vstd::prelude::*;
use crate::text::same_text;

verus! {

/// One mutation of an attribute on a host element.
#[derive(Clone, Debug, PartialEq, Eq)]
pub struct AttributeChange {
    pub attribute_name: String,
    pub old_value: Option<String>,
    pub new_value: Option<String>,
}

/// The mathematical value of an [`AttributeChange`].
pub struct AttributeChangeView {
    pub attribute_name: Seq<char>,
    pub old_value: Option<Seq<char>>,
    pub new_value: Option<Seq<char>>,
}

/// The text held by an optional string.
pub open spec fn optional_text(value: Option<String>) -> Option<Seq<char>> {
    match value {
        Some(text) => Some(text@),
        None => None,
    }
}

impl View for AttributeChange {
    type V = AttributeChangeView;

    open spec fn view(&self) -> AttributeChangeView {
        AttributeChangeView {
            attribute_name: self.attribute_name@,
            old_value: optional_text(self.old_value),
            new_value: optional_text(self.new_value),
        }
    }
}

impl AttributeChange {
    /// A change of the attribute `attribute_name` from `old_value` to
    /// `new_value`; `None` stands for an attribute that is absent.
    pub fn new(attribute_name: &str, old_value: Option<&str>, new_value: Option<&str>) -> (change:
        AttributeChange)
        ensures
            change@.attribute_name == attribute_name@,
            change@.old_value == match old_value {
                Some(text) => Some(text@),
                None => None,
            },
            change@.new_value == match new_value {
                Some(text) => Some(text@),
                None => None,
            },
    {
        let old_value = match old_value {
            Some(text) => Some(text.to_owned()),
            None => None,
        };
        let new_value = match new_value {
            Some(text) => Some(text.to_owned()),
            None => None,
        };
        AttributeChange { attribute_name: attribute_name.to_owned(), old_value, new_value }
    }
}

/// The allow-list of attribute names that a registration declares.
///
/// The list is fixed when the registration is made. A mutation of an
/// attribute that is not on it is never surfaced.
#[derive(Clone, Debug, PartialEq, Eq)]
pub struct AttributeFilter {
    pub names: Vec<String>,
}

impl View for AttributeFilter {
    type V = Seq<Seq<char>>;

    open spec fn view(&self) -> Seq<Seq<char>> {
        self.names.deep_view()
    }
}

/// Whether the allow-list `names` lets a mutation of `attribute_name` through.
pub open spec fn observes(names: Seq<Seq<char>>, attribute_name: Seq<char>) -> bool {
    names.contains(attribute_name)
}

/// What the allow-list `names` makes of `change`: the change itself where its
/// attribute is on the list, nothing otherwise.
pub open spec fn filtered(names: Seq<Seq<char>>, change: AttributeChangeView) -> Option<
    AttributeChangeView,
> {
    if observes(names, change.attribute_name) {
        Some(change)
    } else {
        None
    }
}

impl AttributeFilter {
    /// The allow-list that lets nothing through.
    pub fn none() -> (filter: AttributeFilter)
        ensures
            filter@ == Seq::<Seq<char>>::empty(),
    {
        let filter = AttributeFilter { names: Vec::new() };
        assert(filter@ =~= Seq::<Seq<char>>::empty());
        filter
    }

    /// The allow-list made of `names`.
    pub fn new(names: Vec<String>) -> (filter: AttributeFilter)
        ensures
            filter@ == names.deep_view(),
    {
        AttributeFilter { names }
    }

    /// Adds `attribute_name` to the allow-list.
    pub fn observe(&mut self, attribute_name: &str)
        ensures
            final(self)@ == old(self)@.push(attribute_name@),
    {
        self.names.push(attribute_name.to_owned());
        assert(self@ =~= old(self)@.push(attribute_name@));
    }

    /// How many names the allow-list holds.
    pub fn len(&self) -> (n: usize)
        ensures
            n == self@.len(),
    {
        self.names.len()
    }

    /// Whether a mutation of `attribute_name` is surfaced.
    pub fn allows(&self, attribute_name: &str) -> (allowed: bool)
        ensures
            allowed == observes(self@, attribute_name@),
    {
        let mut i: usize = 0;
        while i < self.names.len()
            invariant
                i <= self.names.len(),
                forall|j: int| 0 <= j < i ==> self@[j] != attribute_name@,
            decreases self.names.len() - i,
        {
            if same_text(self.names[i].as_str(), attribute_name) {
                assert(self@[i as int] == attribute_name@);
                return true;
            }
            i += 1;
        }
        false
    }

    /// Hands `change` on where its attribute is on the allow-list, and drops
    /// it otherwise.
    pub fn filter(&self, change: AttributeChange) -> (surfaced: Option<AttributeChange>)
        ensures
            match surfaced {
                Some(kept) => filtered(self@, change@) == Some(kept@),
                None => filtered(self@, change@) is None,
            },
    {
        if self.allows(change.attribute_name.as_str()) {
            Some(change)
        } else {
            None
        }
    }
}

} // verus!
