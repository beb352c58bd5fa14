//! Fragments: the content that a template holds and that each new instance
//! gets a copy of.

use vstd::prelude::*;

verus! {

/// One node of a fragment: an element with a tag name and the text that it
/// holds directly. `parent` is the position of the node that contains it, or
/// `None` for a node at the top of the fragment.
#[derive(Debug, PartialEq, Eq)]
pub struct FragmentNode {
    pub parent: Option<usize>,
    pub tag: String,
    pub text: String,
}

/// The mathematical value of a [`FragmentNode`].
pub struct FragmentNodeView {
    pub parent: Option<usize>,
    pub tag: Seq<char>,
    pub text: Seq<char>,
}

impl View for FragmentNode {
    type V = FragmentNodeView;

    open spec fn view(&self) -> FragmentNodeView {
        FragmentNodeView { parent: self.parent, tag: self.tag@, text: self.text@ }
    }
}

/// The mathematical value of a [`Fragment`]: its nodes in document order.
pub struct FragmentView {
    pub nodes: Seq<FragmentNodeView>,
}

impl FragmentView {
    /// Every node stands after the node that contains it.
    pub open spec fn inv(self) -> bool {
        forall|i: int|
            0 <= i < self.nodes.len() ==> match (#[trigger] self.nodes[i]).parent {
                Some(parent) => parent < i,
                None => true,
            }
    }

    /// Whether a new node may be put under `parent`.
    pub open spec fn accepts(self, parent: Option<usize>) -> bool {
        match parent {
            Some(position) => position < self.nodes.len(),
            None => true,
        }
    }

    /// Appending a node: the fragment afterwards, and the position of the new
    /// node, or `None` where `parent` is no node of the fragment.
    pub open spec fn append(self, parent: Option<usize>, tag: Seq<char>, text: Seq<char>) -> (
        Self,
        Option<usize>,
    ) {
        if self.accepts(parent) {
            (
                FragmentView { nodes: self.nodes.push(FragmentNodeView { parent, tag, text }) },
                Some(self.nodes.len() as usize),
            )
        } else {
            (self, None)
        }
    }

    /// Replacing the text of a node: the fragment afterwards, and whether the
    /// node exists.
    pub open spec fn set_text(self, node: usize, text: Seq<char>) -> (Self, bool) {
        if node < self.nodes.len() {
            let before = self.nodes[node as int];
            (
                FragmentView {
                    nodes: self.nodes.update(
                        node as int,
                        FragmentNodeView { parent: before.parent, tag: before.tag, text },
                    ),
                },
                true,
            )
        } else {
            (self, false)
        }
    }
}

/// A tree of nodes that is owned by its holder and is part of no document.
pub struct Fragment {
    nodes: Vec<FragmentNode>,
}

impl View for Fragment {
    type V = FragmentView;

    closed spec fn view(&self) -> FragmentView {
        FragmentView { nodes: self.nodes@.map_values(|n: FragmentNode| n@) }
    }
}

impl Fragment {
    /// The invariant of the fragment.
    pub open spec fn wf(&self) -> bool {
        self@.inv()
    }

    /// The fragment without nodes.
    pub fn new() -> (fragment: Fragment)
        ensures
            fragment.wf(),
            fragment@.nodes == Seq::<FragmentNodeView>::empty(),
    {
        let fragment = Fragment { nodes: Vec::new() };
        assert(fragment@.nodes =~= Seq::<FragmentNodeView>::empty());
        fragment
    }

    /// How many nodes the fragment holds.
    pub fn len(&self) -> (n: usize)
        ensures
            n == self@.nodes.len(),
    {
        self.nodes.len()
    }

    /// The node at `position`, where there is one.
    pub fn node(&self, position: usize) -> (node: Option<&FragmentNode>)
        ensures
            position < self@.nodes.len() ==> node is Some && node->0@ == self@.nodes[position as int],
            position >= self@.nodes.len() ==> node is None,
    {
        if position < self.nodes.len() {
            Some(&self.nodes[position])
        } else {
            None
        }
    }

    /// Appends a node with tag `tag` and text `text` under `parent`, or at
    /// the top of the fragment where `parent` is `None`, and returns its
    /// position. Nothing is appended where `parent` is no node of the
    /// fragment.
    pub fn append(&mut self, parent: Option<usize>, tag: &str, text: &str) -> (position: Option<
        usize,
    >)
        requires
            old(self).wf(),
        ensures
            final(self).wf(),
            final(self)@ == old(self)@.append(parent, tag@, text@).0,
            position == old(self)@.append(parent, tag@, text@).1,
    {
        let accepted = match parent {
            Some(p) => p < self.nodes.len(),
            None => true,
        };
        if !accepted {
            return None;
        }
        let position = self.nodes.len();
        self.nodes.push(FragmentNode { parent, tag: tag.to_owned(), text: text.to_owned() });
        assert(self@.nodes =~= old(self)@.nodes.push(
            FragmentNodeView { parent, tag: tag@, text: text@ },
        ));
        Some(position)
    }

    /// Replaces the text of the node at `node`, and says whether there is
    /// such a node.
    pub fn set_text(&mut self, node: usize, text: &str) -> (found: bool)
        requires
            old(self).wf(),
        ensures
            final(self).wf(),
            final(self)@ == old(self)@.set_text(node, text@).0,
            found == old(self)@.set_text(node, text@).1,
    {
        if node >= self.nodes.len() {
            return false;
        }
        self.nodes[node].text = text.to_owned();
        assert(self@.nodes =~= old(self)@.set_text(node, text@).0.nodes);
        true
    }

    /// A deep copy of the fragment: a fragment of its own with the same
    /// nodes, which shares nothing with this one.
    pub fn duplicate_deep(&self) -> (copy: Fragment)
        requires
            self.wf(),
        ensures
            copy.wf(),
            copy@ == self@,
    {
        let mut nodes: Vec<FragmentNode> = Vec::new();
        let mut i: usize = 0;
        while i < self.nodes.len()
            invariant
                i <= self.nodes.len(),
                nodes@.len() == i,
                forall|j: int| 0 <= j < i ==> (#[trigger] nodes@[j])@ == self.nodes@[j]@,
            decreases self.nodes.len() - i,
        {
            let node = &self.nodes[i];
            nodes.push(
                FragmentNode { parent: node.parent, tag: node.tag.clone(), text: node.text.clone() },
            );
            i += 1;
        }
        let copy = Fragment { nodes };
        assert(copy@.nodes =~= self@.nodes);
        copy
    }
}

} // verus!
