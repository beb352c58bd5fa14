//! The registration registry: which element kinds are declared, with which
//! callbacks and which observed attributes.

use vstd::prelude::*;
use crate::attribute::AttributeFilter;
use crate::text::same_text;

verus! {

/// The declaration of one element kind.
///
/// `callbacks` is whatever the caller needs to construct an instance and to
/// run its lifecycle callbacks; the registry keeps it and never looks inside.
#[derive(Debug)]
pub struct Registration<C> {
    pub kind_name: String,
    pub callbacks: C,
    pub observed_attributes: AttributeFilter,
}

/// The mathematical value of a [`Registration`].
pub struct RegistrationView<C> {
    pub kind_name: Seq<char>,
    pub callbacks: C,
    pub observed_attributes: Seq<Seq<char>>,
}

impl<C> View for Registration<C> {
    type V = RegistrationView<C>;

    open spec fn view(&self) -> RegistrationView<C> {
        RegistrationView {
            kind_name: self.kind_name@,
            callbacks: self.callbacks,
            observed_attributes: self.observed_attributes@,
        }
    }
}

impl<C> Registration<C> {
    /// The declaration of the kind `kind_name`.
    pub fn new(kind_name: &str, callbacks: C, observed_attributes: AttributeFilter) -> (registration:
        Registration<C>)
        ensures
            registration@ == (RegistrationView {
                kind_name: kind_name@,
                callbacks,
                observed_attributes: observed_attributes@,
            }),
    {
        Registration { kind_name: kind_name.to_owned(), callbacks, observed_attributes }
    }
}

/// Why a registration was refused.
#[derive(Clone, Copy, PartialEq, Eq, Debug, Structural)]
pub enum RegistrationError {
    /// The kind name is already registered.
    DuplicateKind,
    /// The host has already met an element of this kind while the kind was
    /// not registered.
    ObservedBeforeRegistration,
}

/// The mathematical value of a [`Registry`]: the registrations in the order
/// in which they were made, and the names of the kinds that the host met
/// while they were not registered.
pub struct RegistryView<C> {
    pub registrations: Seq<RegistrationView<C>>,
    pub observed: Seq<Seq<char>>,
}

impl<C> RegistryView<C> {
    /// Whether the kind `kind_name` is registered.
    pub open spec fn is_registered(self, kind_name: Seq<char>) -> bool {
        exists|i: int|
            0 <= i < self.registrations.len() && (#[trigger] self.registrations[i]).kind_name
                == kind_name
    }

    /// The position of the registration of `kind_name`, where it is
    /// registered.
    pub open spec fn index_of(self, kind_name: Seq<char>) -> int {
        choose|i: int|
            0 <= i < self.registrations.len() && (#[trigger] self.registrations[i]).kind_name
                == kind_name
    }

    /// Whether the host met the kind `kind_name` while it was not registered.
    pub open spec fn was_observed(self, kind_name: Seq<char>) -> bool {
        self.observed.contains(kind_name)
    }

    /// No kind name is registered twice, and no kind that the host met
    /// unregistered has been registered since.
    pub open spec fn inv(self) -> bool {
        &&& forall|i: int, j: int|
            0 <= i < j < self.registrations.len() ==> (#[trigger] self.registrations[i]).kind_name
                != (#[trigger] self.registrations[j]).kind_name
        &&& forall|i: int|
            0 <= i < self.registrations.len() ==> !self.was_observed(
                (#[trigger] self.registrations[i]).kind_name,
            )
    }

    /// Registering: the registry afterwards, and what the registrant is told.
    pub open spec fn register(self, registration: RegistrationView<C>) -> (Self, Result<
        (),
        RegistrationError,
    >) {
        if self.is_registered(registration.kind_name) {
            (self, Err(RegistrationError::DuplicateKind))
        } else if self.was_observed(registration.kind_name) {
            (self, Err(RegistrationError::ObservedBeforeRegistration))
        } else {
            (
                RegistryView {
                    registrations: self.registrations.push(registration),
                    observed: self.observed,
                },
                Ok(()),
            )
        }
    }

    /// The registration of `kind_name`, where there is one.
    pub open spec fn lookup(self, kind_name: Seq<char>) -> Option<RegistrationView<C>> {
        if self.is_registered(kind_name) {
            Some(self.registrations[self.index_of(kind_name)])
        } else {
            None
        }
    }

    /// The position of the registration of `kind_name`, where there is one.
    pub open spec fn find(self, kind_name: Seq<char>) -> Option<usize> {
        if self.is_registered(kind_name) {
            Some(self.index_of(kind_name) as usize)
        } else {
            None
        }
    }

    /// The host meeting an element of kind `kind_name`: the registry
    /// afterwards. Only a kind that is not registered, and was not met
    /// before, leaves a trace.
    pub open spec fn mark_observed(self, kind_name: Seq<char>) -> Self {
        if self.is_registered(kind_name) || self.was_observed(kind_name) {
            self
        } else {
            RegistryView {
                registrations: self.registrations,
                observed: self.observed.push(kind_name),
            }
        }
    }

    /// Under the invariant a kind name has one position only.
    pub proof fn index_is_unique(self, kind_name: Seq<char>, i: int)
        requires
            self.inv(),
            0 <= i < self.registrations.len(),
            self.registrations[i].kind_name == kind_name,
        ensures
            self.is_registered(kind_name),
            self.index_of(kind_name) == i,
    {
        let j = self.index_of(kind_name);
        if j < i {
            assert(self.registrations[j].kind_name != self.registrations[i].kind_name);
        } else if i < j {
            assert(self.registrations[i].kind_name != self.registrations[j].kind_name);
        }
    }
}

/// The table from kind names to registrations.
///
/// It is filled before the host drives any element. A registration that is
/// in it is never changed and never leaves.
pub struct Registry<C> {
    registrations: Vec<Registration<C>>,
    observed: Vec<String>,
}

impl<C> View for Registry<C> {
    type V = RegistryView<C>;

    closed spec fn view(&self) -> RegistryView<C> {
        RegistryView {
            registrations: self.registrations@.map_values(|r: Registration<C>| r@),
            observed: self.observed.deep_view(),
        }
    }
}

impl<C> Registry<C> {
    /// The invariant of the registry.
    pub open spec fn wf(&self) -> bool {
        self@.inv()
    }

    /// The registry without registrations.
    pub fn new() -> (registry: Registry<C>)
        ensures
            registry.wf(),
            registry@.registrations == Seq::<RegistrationView<C>>::empty(),
            registry@.observed == Seq::<Seq<char>>::empty(),
    {
        let registry = Registry { registrations: Vec::new(), observed: Vec::new() };
        assert(registry@.registrations =~= Seq::<RegistrationView<C>>::empty());
        assert(registry@.observed =~= Seq::<Seq<char>>::empty());
        registry
    }

    /// How many kinds are registered.
    pub fn len(&self) -> (n: usize)
        ensures
            n == self@.registrations.len(),
    {
        self.registrations.len()
    }

    /// The position of the registration of `kind_name`, where there is one.
    pub fn find(&self, kind_name: &str) -> (position: Option<usize>)
        requires
            self.wf(),
        ensures
            position == self@.find(kind_name@),
            position is Some ==> position->0 < self@.registrations.len() && position->0
                == self@.index_of(kind_name@),
    {
        let mut i: usize = 0;
        while i < self.registrations.len()
            invariant
                self.wf(),
                i <= self.registrations.len(),
                self@.registrations.len() == self.registrations.len(),
                forall|j: int| 0 <= j < i ==> (#[trigger] self@.registrations[j]).kind_name != kind_name@,
            decreases self.registrations.len() - i,
        {
            if same_text(self.registrations[i].kind_name.as_str(), kind_name) {
                proof {
                    assert(self@.registrations[i as int].kind_name == kind_name@);
                    self@.index_is_unique(kind_name@, i as int);
                }
                return Some(i);
            }
            i += 1;
        }
        None
    }

    /// The registration at `position`, where there is one.
    pub fn get(&self, position: usize) -> (registration: Option<&Registration<C>>)
        ensures
            position < self@.registrations.len() ==> registration is Some && registration->0@
                == self@.registrations[position as int],
            position >= self@.registrations.len() ==> registration is None,
    {
        if position < self.registrations.len() {
            Some(&self.registrations[position])
        } else {
            None
        }
    }

    /// The registration of `kind_name`, where there is one.
    pub fn lookup(&self, kind_name: &str) -> (registration: Option<&Registration<C>>)
        requires
            self.wf(),
        ensures
            match registration {
                Some(found) => self@.lookup(kind_name@) == Some(found@),
                None => self@.lookup(kind_name@) is None,
            },
    {
        match self.find(kind_name) {
            Some(position) => {
                assert(self@.registrations[position as int] == self.registrations[position as int]@);
                Some(&self.registrations[position])
            },
            None => None,
        }
    }

    /// Whether the host met the kind `kind_name` while it was not registered.
    pub fn was_observed(&self, kind_name: &str) -> (observed: bool)
        ensures
            observed == self@.was_observed(kind_name@),
    {
        let mut i: usize = 0;
        while i < self.observed.len()
            invariant
                i <= self.observed.len(),
                self@.observed.len() == self.observed.len(),
                forall|j: int| 0 <= j < i ==> self@.observed[j] != kind_name@,
            decreases self.observed.len() - i,
        {
            if same_text(self.observed[i].as_str(), kind_name) {
                assert(self@.observed[i as int] == kind_name@);
                return true;
            }
            i += 1;
        }
        false
    }

    /// Publishes `registration`.
    ///
    /// It is refused where its kind name is already registered, and where the
    /// host has already met an element of that kind.
    pub fn register(&mut self, registration: Registration<C>) -> (outcome: Result<
        (),
        RegistrationError,
    >)
        requires
            old(self).wf(),
        ensures
            final(self).wf(),
            final(self)@ == old(self)@.register(registration@).0,
            outcome == old(self)@.register(registration@).1,
    {
        if self.find(registration.kind_name.as_str()).is_some() {
            return Err(RegistrationError::DuplicateKind);
        }
        if self.was_observed(registration.kind_name.as_str()) {
            return Err(RegistrationError::ObservedBeforeRegistration);
        }
        self.registrations.push(registration);
        proof {
            let before = old(self)@;
            let after = self@;
            assert(after.registrations =~= before.registrations.push(registration@));
            assert(after.observed == before.observed);
            assert forall|i: int, j: int| 0 <= i < j < after.registrations.len() implies (
            #[trigger] after.registrations[i]).kind_name != (
            #[trigger] after.registrations[j]).kind_name by {
                if j == before.registrations.len() {
                    assert(before.registrations[i].kind_name != registration@.kind_name);
                }
            }
        }
        Ok(())
    }

    /// Records that the host met an element of kind `kind_name`. A later
    /// registration of a kind that was met while unregistered is refused.
    pub fn mark_observed(&mut self, kind_name: &str)
        requires
            old(self).wf(),
        ensures
            final(self).wf(),
            final(self)@ == old(self)@.mark_observed(kind_name@),
    {
        if self.find(kind_name).is_some() {
            return ;
        }
        if self.was_observed(kind_name) {
            return ;
        }
        self.observed.push(kind_name.to_owned());
        proof {
            let before = old(self)@;
            let after = self@;
            assert(after.observed =~= before.observed.push(kind_name@));
            assert(after.registrations == before.registrations);
            assert forall|i: int| 0 <= i < after.registrations.len() implies !after.was_observed(
                (#[trigger] after.registrations[i]).kind_name,
            ) by {
                assert(!before.was_observed(before.registrations[i].kind_name));
                assert(before.registrations[i].kind_name != kind_name@);
            }
        }
    }
}

} // verus!
