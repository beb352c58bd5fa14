//! The template cache: one prototype fragment per element kind, built once
//! and copied for every instance.

use vstd::prelude::*;
use crate::fragment::{Fragment, FragmentView};
use crate::text::same_text;

verus! {

/// What the cache holds for one kind.
pub enum TemplateSlot {
    /// The prototype is being built.
    Building,
    /// The prototype is built.
    Ready(FragmentView),
}

/// What a caller who wants to build the prototype of a kind is told.
#[derive(Clone, Copy, PartialEq, Eq, Debug, Structural)]
pub enum InitClaim {
    /// Nobody has built the prototype: the caller builds it now.
    Granted,
    /// Somebody is building the prototype: the caller must not build another.
    InProgress,
    /// The prototype is built.
    Ready,
}

/// A prototype was asked for while it was being built.
#[derive(Clone, Copy, PartialEq, Eq, Debug, Structural)]
pub struct InitInProgress;

/// The mathematical value of a [`TemplateCache`]: what it holds, by kind
/// name.
pub struct TemplateCacheView {
    pub slots: Map<Seq<char>, TemplateSlot>,
}

impl TemplateCacheView {
    /// Every prototype is a well-formed fragment.
    pub open spec fn inv(self) -> bool {
        forall|kind_name: Seq<char>| #[trigger]
            self.slots.contains_key(kind_name) ==> match self.slots[kind_name] {
                TemplateSlot::Ready(prototype) => prototype.inv(),
                TemplateSlot::Building => true,
            }
    }

    /// Whether the prototype of `kind_name` is being built.
    pub open spec fn is_building(self, kind_name: Seq<char>) -> bool {
        self.slots.contains_key(kind_name) && self.slots[kind_name] is Building
    }

    /// The prototype of `kind_name`, where it is built.
    pub open spec fn prototype(self, kind_name: Seq<char>) -> Option<FragmentView> {
        if self.slots.contains_key(kind_name) {
            match self.slots[kind_name] {
                TemplateSlot::Ready(prototype) => Some(prototype),
                TemplateSlot::Building => None,
            }
        } else {
            None
        }
    }

    /// Asking to build the prototype of `kind_name`: the cache afterwards,
    /// and what the caller is told.
    pub open spec fn begin_init(self, kind_name: Seq<char>) -> (Self, InitClaim) {
        if !self.slots.contains_key(kind_name) {
            (
                TemplateCacheView { slots: self.slots.insert(kind_name, TemplateSlot::Building) },
                InitClaim::Granted,
            )
        } else if self.slots[kind_name] is Building {
            (self, InitClaim::InProgress)
        } else {
            (self, InitClaim::Ready)
        }
    }

    /// Handing in the prototype of `kind_name`: the cache afterwards, and
    /// whether the prototype was taken. It is taken only where the kind is
    /// being built.
    pub open spec fn finish_init(self, kind_name: Seq<char>, prototype: FragmentView) -> (
        Self,
        bool,
    ) {
        if self.is_building(kind_name) {
            (
                TemplateCacheView {
                    slots: self.slots.insert(kind_name, TemplateSlot::Ready(prototype)),
                },
                true,
            )
        } else {
            (self, false)
        }
    }
}

/// The cache of prototype fragments.
///
/// The prototype of a kind is built at most once. It never leaves the cache
/// and is never changed: an instance gets a deep copy.
pub struct TemplateCache {
    names: Vec<String>,
    slots: Vec<Option<Fragment>>,
}

/// What a stored slot stands for.
pub open spec fn slot_view(slot: Option<Fragment>) -> TemplateSlot {
    match slot {
        Some(prototype) => TemplateSlot::Ready(prototype@),
        None => TemplateSlot::Building,
    }
}

impl View for TemplateCache {
    type V = TemplateCacheView;

    closed spec fn view(&self) -> TemplateCacheView {
        TemplateCacheView {
            slots: Map::new(
                |kind_name: Seq<char>| self.names.deep_view().contains(kind_name),
                |kind_name: Seq<char>|
                    slot_view(self.slots@[self.names.deep_view().index_of(kind_name)]),
            ),
        }
    }
}

impl TemplateCache {
    /// The invariant of the cache.
    pub closed spec fn wf(&self) -> bool {
        &&& self.names.len() == self.slots.len()
        &&& self.names.deep_view().no_duplicates()
        &&& forall|i: int|
            0 <= i < self.slots.len() ==> match #[trigger] self.slots@[i] {
                Some(prototype) => prototype.wf(),
                None => true,
            }
    }

    /// A well-formed cache holds well-formed prototypes only.
    pub proof fn wf_implies_inv(&self)
        requires
            self.wf(),
        ensures
            self@.inv(),
    {
        assert forall|kind_name: Seq<char>| #[trigger]
            self@.slots.contains_key(kind_name) implies match self@.slots[kind_name] {
            TemplateSlot::Ready(prototype) => prototype.inv(),
            TemplateSlot::Building => true,
        } by {
            let i = self.names.deep_view().index_of(kind_name);
            assert(0 <= i < self.slots.len());
            let _ = self.slots@[i];
        }
    }

    proof fn position_is_unique(&self, kind_name: Seq<char>, i: int)
        requires
            self.wf(),
            0 <= i < self.names.len(),
            self.names.deep_view()[i] == kind_name,
        ensures
            self.names.deep_view().contains(kind_name),
            self.names.deep_view().index_of(kind_name) == i,
            self@.slots.contains_key(kind_name),
            self@.slots[kind_name] == slot_view(self.slots@[i]),
    {
        let names = self.names.deep_view();
        let j = names.index_of(kind_name);
        assert(names[j] == kind_name);
    }

    /// The cache that holds nothing.
    pub fn new() -> (cache: TemplateCache)
        ensures
            cache.wf(),
            cache@.slots == Map::<Seq<char>, TemplateSlot>::empty(),
    {
        let cache = TemplateCache { names: Vec::new(), slots: Vec::new() };
        assert(cache@.slots =~= Map::<Seq<char>, TemplateSlot>::empty());
        cache
    }

    fn find(&self, kind_name: &str) -> (position: Option<usize>)
        requires
            self.wf(),
        ensures
            match position {
                Some(i) => i < self.names.len() && self.names.deep_view()[i as int] == kind_name@
                    && self@.slots.contains_key(kind_name@) && self@.slots[kind_name@] == slot_view(
                    self.slots@[i as int],
                ),
                None => !self@.slots.contains_key(kind_name@),
            },
    {
        let mut i: usize = 0;
        while i < self.names.len()
            invariant
                self.wf(),
                i <= self.names.len(),
                forall|j: int| 0 <= j < i ==> self.names.deep_view()[j] != kind_name@,
            decreases self.names.len() - i,
        {
            if same_text(self.names[i].as_str(), kind_name) {
                proof {
                    self.position_is_unique(kind_name@, i as int);
                }
                return Some(i);
            }
            i += 1;
        }
        None
    }

    /// Asks to build the prototype of `kind_name`.
    ///
    /// The first caller for a kind is granted the build and hands the
    /// prototype in through [`TemplateCache::finish_init`]. Until then, every
    /// other caller is told that the build is in progress: a builder that
    /// asks for its own kind again must not build a second prototype.
    pub fn begin_init(&mut self, kind_name: &str) -> (claim: InitClaim)
        requires
            old(self).wf(),
        ensures
            final(self).wf(),
            final(self)@ == old(self)@.begin_init(kind_name@).0,
            claim == old(self)@.begin_init(kind_name@).1,
    {
        match self.find(kind_name) {
            Some(i) => {
                if self.slots[i].is_none() {
                    InitClaim::InProgress
                } else {
                    InitClaim::Ready
                }
            },
            None => {
                self.names.push(kind_name.to_owned());
                self.slots.push(None);
                proof {
                    assert(self.names.deep_view() =~= old(self).names.deep_view().push(kind_name@));
                    self.pushed(old(self), kind_name@);
                }
                InitClaim::Granted
            },
        }
    }

    proof fn pushed(&self, before: &TemplateCache, kind_name: Seq<char>)
        requires
            before.wf(),
            !before@.slots.contains_key(kind_name),
            self.names.deep_view() == before.names.deep_view().push(kind_name),
            self.slots@.len() == before.slots@.len() + 1,
            forall|i: int| 0 <= i < before.slots@.len() ==> self.slots@[i] == before.slots@[i],
            match self.slots@[before.slots@.len() as int] {
                Some(prototype) => prototype.wf(),
                None => true,
            },
        ensures
            self.wf(),
            self@.slots == before@.slots.insert(
                kind_name,
                slot_view(self.slots@[before.slots@.len() as int]),
            ),
    {
        let old_names = before.names.deep_view();
        let names = self.names.deep_view();
        let n = old_names.len() as int;
        assert(self.names.len() == names.len());
        assert(before.names.len() == old_names.len());
        assert forall|i: int, j: int|
            0 <= i < names.len() && 0 <= j < names.len() && i != j implies names[i] != names[j] by {
            if i == n {
                assert(old_names[j] != kind_name);
            } else if j == n {
                assert(old_names[i] != kind_name);
            }
        }
        assert(self.wf());
        assert forall|k: Seq<char>| #[trigger]
            self@.slots.contains_key(k) <==> before@.slots.insert(
                kind_name,
                slot_view(self.slots@[n]),
            ).contains_key(k) by {
            assert(names[n] == kind_name);
            if old_names.contains(k) {
                let i = old_names.index_of(k);
                assert(names[i] == k);
                assert(names.contains(k));
            }
            if k == kind_name {
                assert(names.contains(k));
            }
            if names.contains(k) {
                let i = names.index_of(k);
                if i < n {
                    assert(old_names[i] == k);
                    assert(old_names.contains(k));
                } else {
                    assert(k == kind_name);
                }
            }
        }
        assert forall|k: Seq<char>| #[trigger] self@.slots.contains_key(k) implies self@.slots[k]
            == before@.slots.insert(kind_name, slot_view(self.slots@[n]))[k] by {
            let i = names.index_of(k);
            self.position_is_unique(k, i);
            if i < n {
                assert(old_names[i] == k);
                before.position_is_unique(k, i);
            }
        }
        assert(self@.slots =~= before@.slots.insert(kind_name, slot_view(self.slots@[n])));
    }

    proof fn replaced(&self, before: &TemplateCache, kind_name: Seq<char>, at: int)
        requires
            before.wf(),
            0 <= at < before.slots@.len(),
            before.names.deep_view()[at] == kind_name,
            self.names == before.names,
            self.slots@.len() == before.slots@.len(),
            forall|i: int|
                0 <= i < before.slots@.len() && i != at ==> self.slots@[i] == before.slots@[i],
            match self.slots@[at] {
                Some(prototype) => prototype.wf(),
                None => true,
            },
        ensures
            self.wf(),
            self@.slots == before@.slots.insert(kind_name, slot_view(self.slots@[at])),
    {
        let names = self.names.deep_view();
        assert(self.wf());
        assert forall|k: Seq<char>| #[trigger] self@.slots.contains_key(k) implies self@.slots[k]
            == before@.slots.insert(kind_name, slot_view(self.slots@[at]))[k] by {
            let i = names.index_of(k);
            self.position_is_unique(k, i);
            before.position_is_unique(k, i);
            if i == at {
                assert(k == kind_name);
            }
        }
        before.position_is_unique(kind_name, at);
        assert(self@.slots =~= before@.slots.insert(kind_name, slot_view(self.slots@[at])));
    }

    /// Hands in the prototype of `kind_name`.
    ///
    /// The prototype is taken where the kind is being built. Otherwise the
    /// cache is left as it is and the fragment goes back to the caller: a
    /// prototype that is built is never replaced.
    pub fn finish_init(&mut self, kind_name: &str, prototype: Fragment) -> (outcome: Result<
        (),
        Fragment,
    >)
        requires
            old(self).wf(),
            prototype.wf(),
        ensures
            final(self).wf(),
            final(self)@ == old(self)@.finish_init(kind_name@, prototype@).0,
            outcome is Ok == old(self)@.finish_init(kind_name@, prototype@).1,
            outcome is Err ==> outcome->Err_0 == prototype,
    {
        match self.find(kind_name) {
            Some(i) => {
                if self.slots[i].is_none() {
                    self.slots[i] = Some(prototype);
                    proof {
                        self.replaced(old(self), kind_name@, i as int);
                    }
                    Ok(())
                } else {
                    Err(prototype)
                }
            },
            None => Err(prototype),
        }
    }

    /// The prototype of `kind_name`, where it is built. The prototype is
    /// handed out for reading only.
    pub fn get(&self, kind_name: &str) -> (prototype: Option<&Fragment>)
        requires
            self.wf(),
        ensures
            match prototype {
                Some(found) => self@.prototype(kind_name@) == Some(found@) && found.wf(),
                None => self@.prototype(kind_name@) is None,
            },
    {
        match self.find(kind_name) {
            Some(i) => match &self.slots[i] {
                Some(found) => Some(found),
                None => None,
            },
            None => None,
        }
    }

    /// A deep copy of the prototype of `kind_name` for a new instance, where
    /// the prototype is built. The copy shares nothing with the prototype,
    /// and the cache is left as it is.
    pub fn instantiate(&self, kind_name: &str) -> (copy: Option<Fragment>)
        requires
            self.wf(),
        ensures
            match copy {
                Some(fragment) => self@.prototype(kind_name@) == Some(fragment@) && fragment.wf(),
                None => self@.prototype(kind_name@) is None,
            },
    {
        match self.get(kind_name) {
            Some(prototype) => Some(prototype.duplicate_deep()),
            None => None,
        }
    }

    /// The prototype of `kind_name`, built by `builder` where the cache does
    /// not hold it yet.
    ///
    /// `builder` runs only where the cache holds nothing for the kind, and
    /// what it returns becomes the prototype. Where the prototype is built
    /// the cache is left as it is. Where it is being built, nothing is run
    /// and the caller is told so.
    pub fn get_or_init<F: FnOnce() -> Fragment>(&mut self, kind_name: &str, builder: F) -> (outcome:
        Result<&Fragment, InitInProgress>)
        requires
            old(self).wf(),
            !old(self)@.slots.contains_key(kind_name@) ==> builder.requires(()),
            forall|built: Fragment| builder.ensures((), built) ==> built.wf(),
        ensures
            final(self).wf(),
            old(self)@.is_building(kind_name@) ==> outcome is Err && final(self)@ == old(self)@,
            old(self)@.prototype(kind_name@) is Some ==> outcome is Ok && Some(outcome->Ok_0@)
                == old(self)@.prototype(kind_name@) && final(self)@ == old(self)@,
            !old(self)@.slots.contains_key(kind_name@) ==> outcome is Ok && builder.ensures(
                (),
                *outcome->Ok_0,
            ) && final(self)@.slots == old(self)@.slots.insert(
                kind_name@,
                TemplateSlot::Ready(outcome->Ok_0@),
            ),
    {
        let position = match self.find(kind_name) {
            Some(i) => {
                if self.slots[i].is_none() {
                    return Err(InitInProgress);
                }
                i
            },
            None => {
                let built = builder();
                let i = self.names.len();
                self.names.push(kind_name.to_owned());
                self.slots.push(Some(built));
                proof {
                    assert(self.names.deep_view() =~= old(self).names.deep_view().push(kind_name@));
                    self.pushed(old(self), kind_name@);
                }
                i
            },
        };
        match &self.slots[position] {
            Some(found) => Ok(found),
            None => Err(InitInProgress),
        }
    }
}

} // verus!
