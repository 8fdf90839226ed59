//! Extension feature structures, each held as its structure type and its boolean
//! members, and chains of them as they are handed to Vulkan.

use vstd::prelude::*;

use crate::features::{AsBool, Bool32, FALSE, bool32, features_subset, features_union, spec_bool32, enabled};

verus! {

/// Room for the boolean members of one feature structure.
pub const NODE_FIELD_CAPACITY: usize = 256;

/// One extension feature structure (such as `VkPhysicalDeviceVulkan11Features`): its
/// `VkStructureType` and its boolean members in declaration order, padded with
/// `VK_FALSE` to the node's capacity.
#[derive(Clone, Copy, Debug)]
pub struct GenericFeatureNode {
    pub structure_type: i32,
    pub fields: [Bool32; 256],
}

impl View for GenericFeatureNode {
    type V = (i32, Seq<Bool32>);

    open spec fn view(&self) -> (i32, Seq<Bool32>) {
        (self.structure_type, self.fields@)
    }
}

/// The `n` members `VK_FALSE`.
pub open spec fn all_false(n: nat) -> Seq<Bool32> {
    Seq::new(n, |i: int| FALSE)
}

impl GenericFeatureNode {
    /// A node of structure type zero with every member `VK_FALSE`.
    pub fn new() -> (r: Self)
        ensures
            r@ == (0i32, all_false(NODE_FIELD_CAPACITY as nat)),
    {
        let r = GenericFeatureNode { structure_type: 0, fields: [FALSE; 256] };
        assert(r.fields@ =~= all_false(NODE_FIELD_CAPACITY as nat));
        r
    }

    /// A node of the given structure type whose leading members are `raw_fields` and
    /// whose remaining members are `VK_FALSE`.
    pub fn from_raw(structure_type: i32, raw_fields: &[Bool32]) -> (r: Self)
        requires
            raw_fields@.len() <= NODE_FIELD_CAPACITY,
        ensures
            r@ == (structure_type, raw_fields@ + all_false(
                (NODE_FIELD_CAPACITY - raw_fields@.len()) as nat,
            )),
    {
        let mut node = GenericFeatureNode { structure_type, fields: [FALSE; 256] };
        let mut i: usize = 0;
        while i < raw_fields.len()
            invariant
                i <= raw_fields@.len() <= NODE_FIELD_CAPACITY,
                node.structure_type == structure_type,
                forall|j: int| 0 <= j < i ==> #[trigger] node.fields@[j] == raw_fields@[j],
                forall|j: int| i <= j < NODE_FIELD_CAPACITY ==> #[trigger] node.fields@[j] == FALSE,
            decreases raw_fields@.len() - i,
        {
            node.fields[i] = raw_fields[i];
            i = i + 1;
        }
        assert(node.fields@ =~= raw_fields@ + all_false(
            (NODE_FIELD_CAPACITY - raw_fields@.len()) as nat,
        ));
        node
    }

    /// Whether every member that this node enables is enabled in `contains` as well.
    pub fn contains(&self, contains: &Self) -> (r: bool)
        requires
            self.structure_type == contains.structure_type,
        ensures
            r == features_subset(self@.1, contains@.1),
    {
        let mut i: usize = 0;
        while i < NODE_FIELD_CAPACITY
            invariant
                i <= NODE_FIELD_CAPACITY,
                forall|j: int|
                    0 <= j < i && #[trigger] enabled(self.fields@[j]) ==> enabled(contains.fields@[j]),
            decreases NODE_FIELD_CAPACITY - i,
        {
            if self.fields[i].as_bool() && !contains.fields[i].as_bool() {
                return false;
            }
            i = i + 1;
        }
        true
    }

    /// Turns on every member that `right` enables; every member of the result is
    /// `VK_TRUE` or `VK_FALSE`.
    pub fn combine(&mut self, right: &Self)
        requires
            old(self).structure_type == right.structure_type,
        ensures
            final(self)@ == (old(self)@.0, features_union(old(self)@.1, right@.1)),
    {
        let mut i: usize = 0;
        while i < NODE_FIELD_CAPACITY
            invariant
                i <= NODE_FIELD_CAPACITY,
                self.structure_type == old(self).structure_type,
                forall|j: int|
                    0 <= j < i ==> #[trigger] self.fields@[j] == spec_bool32(
                        enabled(old(self).fields@[j]) || enabled(right.fields@[j]),
                    ),
                forall|j: int|
                    i <= j < NODE_FIELD_CAPACITY ==> #[trigger] self.fields@[j] == old(self).fields@[j],
            decreases NODE_FIELD_CAPACITY - i,
        {
            let v = bool32(self.fields[i].as_bool() || right.fields[i].as_bool());
            self.fields[i] = v;
            i = i + 1;
        }
        assert(self.fields@ =~= features_union(old(self)@.1, right@.1));
    }

    /// A copy of this node.
    pub fn clone_raw(&self) -> (r: Self)
        ensures
            r@ == self@,
    {
        *self
    }
}

impl Default for GenericFeatureNode {
    fn default() -> (r: Self)
        ensures
            r@ == (0i32, all_false(NODE_FIELD_CAPACITY as nat)),
    {
        Self::new()
    }
}

/// The views of a list of nodes.
pub open spec fn node_views(nodes: Seq<GenericFeatureNode>) -> Seq<(i32, Seq<Bool32>)> {
    nodes.map_values(|n: GenericFeatureNode| n@)
}

/// No two nodes share a structure type.
pub open spec fn distinct_types(nodes: Seq<(i32, Seq<Bool32>)>) -> bool {
    forall|i: int, j: int|
        0 <= i < nodes.len() && 0 <= j < nodes.len() && i != j ==> #[trigger] nodes[i].0
            != #[trigger] nodes[j].0
}

/// `i` is the first node of structure type `t`.
pub open spec fn is_first_of_type(nodes: Seq<(i32, Seq<Bool32>)>, t: i32, i: int) -> bool {
    &&& 0 <= i < nodes.len()
    &&& nodes[i].0 == t
    &&& forall|j: int| 0 <= j < i ==> #[trigger] nodes[j].0 != t
}

/// The nodes after `node` is added: merged into the first node of its structure type,
/// or appended when there is none.
pub open spec fn spec_add_node(nodes: Seq<(i32, Seq<Bool32>)>, node: (i32, Seq<Bool32>)) -> Seq<
    (i32, Seq<Bool32>),
> {
    if exists|i: int| is_first_of_type(nodes, node.0, i) {
        let i = choose|i: int| is_first_of_type(nodes, node.0, i);
        nodes.update(i, (nodes[i].0, features_union(nodes[i].1, node.1)))
    } else {
        nodes.push(node)
    }
}

/// The nodes after `node` is merged into every node of its structure type, or appended
/// when there is none.
pub open spec fn spec_merge_node(nodes: Seq<(i32, Seq<Bool32>)>, node: (i32, Seq<Bool32>)) -> Seq<
    (i32, Seq<Bool32>),
> {
    if exists|i: int| 0 <= i < nodes.len() && #[trigger] nodes[i].0 == node.0 {
        Seq::new(
            nodes.len(),
            |i: int|
                if nodes[i].0 == node.0 {
                    (nodes[i].0, features_union(nodes[i].1, node.1))
                } else {
                    nodes[i]
                },
        )
    } else {
        nodes.push(node)
    }
}

/// The nodes of `left` after the nodes of `right` are merged in, one after another.
pub open spec fn spec_combine_chains(
    left: Seq<(i32, Seq<Bool32>)>,
    right: Seq<(i32, Seq<Bool32>)>,
) -> Seq<(i32, Seq<Bool32>)>
    decreases right.len(),
{
    if right.len() == 0 {
        left
    } else {
        spec_merge_node(spec_combine_chains(left, right.drop_last()), right.last())
    }
}

/// Node by node, `requested` asks for nothing beyond `have`; both have equally many
/// nodes.
pub open spec fn chain_contains_all(
    have: Seq<(i32, Seq<Bool32>)>,
    requested: Seq<(i32, Seq<Bool32>)>,
) -> bool {
    &&& have.len() == requested.len()
    &&& forall|i: int|
        0 <= i < have.len() ==> features_subset(#[trigger] requested[i].1, have[i].1)
}

/// The node-by-node comparison of two chains of equal length meets no pair of nodes of
/// different structure types before it meets a pair that decides it.
pub open spec fn chain_comparison_defined(
    have: Seq<(i32, Seq<Bool32>)>,
    requested: Seq<(i32, Seq<Bool32>)>,
) -> bool {
    have.len() == requested.len() ==> forall|i: int|
        0 <= i < have.len() && (forall|j: int|
            0 <= j < i ==> features_subset(#[trigger] requested[j].1, have[j].1))
            ==> #[trigger] requested[i].0 == have[i].0
}

/// Both chains have the same structure types in the same order.
pub open spec fn same_layout(a: Seq<(i32, Seq<Bool32>)>, b: Seq<(i32, Seq<Bool32>)>) -> bool {
    &&& a.len() == b.len()
    &&& forall|i: int| 0 <= i < a.len() ==> #[trigger] a[i].0 == b[i].0
}

/// Some node of `supported` has the structure type of `requested` and enables all that
/// it asks for.
pub open spec fn node_matched(supported: Seq<(i32, Seq<Bool32>)>, requested: (i32, Seq<Bool32>)) -> bool {
    exists|s: int|
        0 <= s < supported.len() && #[trigger] supported[s].0 == requested.0 && features_subset(
            requested.1,
            supported[s].1,
        )
}

/// Some node of `supported` has the structure type of `requested` and enables nothing
/// beyond what `requested` enables.
pub open spec fn node_found(supported: Seq<(i32, Seq<Bool32>)>, requested: (i32, Seq<Bool32>)) -> bool {
    exists|s: int|
        0 <= s < supported.len() && #[trigger] supported[s].0 == requested.0 && features_subset(
            supported[s].1,
            requested.1,
        )
}

/// Every requested node is found among the supported ones: a node of its structure type
/// that enables nothing beyond what it enables.
pub open spec fn chain_found(
    supported: Seq<(i32, Seq<Bool32>)>,
    requested: Seq<(i32, Seq<Bool32>)>,
) -> bool {
    forall|k: int| 0 <= k < requested.len() ==> node_found(supported, #[trigger] requested[k])
}

/// A chain of extension feature structures.
#[derive(Clone, Debug)]
pub struct GenericFeatureChain {
    pub(crate) nodes: Vec<GenericFeatureNode>,
}

impl View for GenericFeatureChain {
    type V = Seq<(i32, Seq<Bool32>)>;

    closed spec fn view(&self) -> Seq<(i32, Seq<Bool32>)> {
        node_views(self.nodes@)
    }
}

impl GenericFeatureChain {
    /// An empty chain.
    pub fn new() -> (r: Self)
        ensures
            r@ == Seq::<(i32, Seq<Bool32>)>::empty(),
    {
        let r = GenericFeatureChain { nodes: Vec::new() };
        assert(r@ =~= Seq::<(i32, Seq<Bool32>)>::empty());
        r
    }

    /// The nodes of the chain, in order.
    pub fn nodes(&self) -> (r: &[GenericFeatureNode])
        ensures
            node_views(r@) == self@,
    {
        self.nodes.as_slice()
    }

    /// The number of nodes.
    pub fn len(&self) -> (r: usize)
        ensures
            r == self@.len(),
    {
        self.nodes.len()
    }

    /// Whether the chain has no node.
    pub fn is_empty(&self) -> (r: bool)
        ensures
            r == (self@.len() == 0),
    {
        self.nodes.len() == 0
    }

    /// A copy of the chain.
    pub fn copy_chain(&self) -> (r: Self)
        ensures
            r@ == self@,
    {
        let mut nodes: Vec<GenericFeatureNode> = Vec::new();
        let mut i: usize = 0;
        while i < self.nodes.len()
            invariant
                i <= self.nodes@.len(),
                nodes@.len() == i,
                forall|j: int| 0 <= j < i ==> (#[trigger] nodes@[j])@ == self.nodes@[j]@,
            decreases self.nodes@.len() - i,
        {
            nodes.push(self.nodes[i].clone_raw());
            i = i + 1;
        }
        let r = GenericFeatureChain { nodes };
        assert(r@ =~= self@);
        r
    }

    /// Whether the two chains have the same structure types in the same order.
    pub fn same_layout_as(&self, other: &Self) -> (r: bool)
        ensures
            r == same_layout(self@, other@),
    {
        assert(self@.len() == self.nodes@.len() && other@.len() == other.nodes@.len());
        if self.nodes.len() != other.nodes.len() {
            return false;
        }
        let mut i: usize = 0;
        while i < self.nodes.len()
            invariant
                i <= self.nodes@.len() == other.nodes@.len(),
                self@.len() == self.nodes@.len(),
                other@.len() == other.nodes@.len(),
                forall|j: int| 0 <= j < i ==> #[trigger] self@[j].0 == other@[j].0,
            decreases self.nodes@.len() - i,
        {
            assert(self.nodes@[i as int]@ == self@[i as int]);
            assert(other.nodes@[i as int]@ == other@[i as int]);
            if self.nodes[i].structure_type != other.nodes[i].structure_type {
                assert(self@[i as int].0 != other@[i as int].0);
                assert(!same_layout(self@, other@));
                return false;
            }
            i = i + 1;
        }
        true
    }

    /// Adds a node: it is merged into the first node of its structure type, or appended
    /// when there is none.
    pub fn add_node(&mut self, node: GenericFeatureNode)
        ensures
            final(self)@ == spec_add_node(old(self)@, node@),
            distinct_types(old(self)@) ==> distinct_types(final(self)@),
    {
        let mut i: usize = 0;
        while i < self.nodes.len()
            invariant
                i <= self.nodes@.len(),
                self@ == old(self)@,
                forall|j: int| 0 <= j < i ==> #[trigger] self@[j].0 != node.structure_type,
            decreases self.nodes@.len() - i,
        {
            if self.nodes[i].structure_type == node.structure_type {
                let mut n = self.nodes[i];
                assert(n@ == self@[i as int]);
                n.combine(&node);
                self.nodes.set(i, n);
                proof {
                    assert(is_first_of_type(old(self)@, node@.0, i as int));
                    let k = choose|k: int| is_first_of_type(old(self)@, node@.0, k);
                    assert(k == i);
                    assert(self@ =~= spec_add_node(old(self)@, node@));
                }
                return;
            }
            i = i + 1;
        }
        self.nodes.push(node);
        assert(self@ =~= spec_add_node(old(self)@, node@));
    }

    /// Whether this chain has as many nodes as `extensions_requested` and each requested
    /// node asks for nothing beyond the node at the same position here.
    pub fn contains_all(&self, extensions_requested: &Self) -> (r: bool)
        requires
            chain_comparison_defined(self@, extensions_requested@),
        ensures
            r == chain_contains_all(self@, extensions_requested@),
    {
        if self.nodes.len() != extensions_requested.nodes.len() {
            return false;
        }
        let mut i: usize = 0;
        while i < self.nodes.len()
            invariant
                i <= self.nodes@.len() == extensions_requested.nodes@.len(),
                chain_comparison_defined(self@, extensions_requested@),
                forall|j: int|
                    0 <= j < i ==> features_subset(
                        #[trigger] extensions_requested@[j].1,
                        self@[j].1,
                    ),
            decreases self.nodes@.len() - i,
        {
            let node = &self.nodes[i];
            let extension = &extensions_requested.nodes[i];
            assert(extensions_requested@[i as int].0 == self@[i as int].0);
            if !extension.contains(node) {
                return false;
            }
            i = i + 1;
        }
        true
    }

    /// Whether each requested node is found here: a node of its structure type that
    /// enables nothing beyond what the requested node enables.
    pub fn find_and_match(&self, extensions_requested: &Self) -> (r: bool)
        ensures
            r == chain_found(self@, extensions_requested@),
    {
        let mut k: usize = 0;
        while k < extensions_requested.nodes.len()
            invariant
                k <= extensions_requested@.len(),
                extensions_requested.nodes@.len() == extensions_requested@.len(),
                forall|q: int|
                    0 <= q < k ==> node_found(self@, #[trigger] extensions_requested@[q]),
            decreases extensions_requested@.len() - k,
        {
            let requested_node = &extensions_requested.nodes[k];
            let ghost req = extensions_requested@[k as int];
            assert(requested_node@ == req);
            let mut found = false;
            let mut s: usize = 0;
            while s < self.nodes.len()
                invariant
                    s <= self@.len(),
                    self.nodes@.len() == self@.len(),
                    requested_node@ == req,
                    found ==> node_found(self@, req),
                    !found ==> forall|t: int|
                        0 <= t < s ==> !(#[trigger] self@[t].0 == req.0 && features_subset(
                            self@[t].1,
                            req.1,
                        )),
                decreases self@.len() - s,
            {
                let supported_node = &self.nodes[s];
                assert(supported_node@ == self@[s as int]);
                if supported_node.structure_type == requested_node.structure_type
                    && supported_node.contains(requested_node) {
                    found = true;
                    assert(self@[s as int].0 == req.0);
                }
                s = s + 1;
            }
            if !found {
                assert(!node_found(self@, extensions_requested@[k as int]));
                return false;
            }
            k = k + 1;
        }
        true
    }

    /// Merges every node of `right`, in order, into every node here of its structure
    /// type, appending it when there is none.
    pub fn combine(&mut self, right: Self)
        ensures
            final(self)@ == spec_combine_chains(old(self)@, right@),
            distinct_types(old(self)@) ==> distinct_types(final(self)@),
    {
        let mut r: usize = 0;
        while r < right.nodes.len()
            invariant
                r <= right@.len(),
                right.nodes@.len() == right@.len(),
                self@ == spec_combine_chains(old(self)@, right@.take(r as int)),
            decreases right@.len() - r,
        {
            let right_node = right.nodes[r];
            assert(right_node@ == right@[r as int]);
            let ghost before = self@;
            let mut already_contained = false;
            let mut l: usize = 0;
            while l < self.nodes.len()
                invariant
                    l <= self@.len() == before.len(),
                    self.nodes@.len() == before.len(),
                    r < right@.len(),
                    right_node@ == right@[r as int],
                    already_contained == exists|j: int|
                        0 <= j < l && #[trigger] before[j].0 == right_node.structure_type,
                    forall|j: int|
                        0 <= j < l ==> #[trigger] self@[j] == (if before[j].0
                            == right_node.structure_type {
                            (before[j].0, features_union(before[j].1, right_node@.1))
                        } else {
                            before[j]
                        }),
                    forall|j: int| l <= j < before.len() ==> #[trigger] self@[j] == before[j],
                decreases before.len() - l,
            {
                assert(self.nodes@[l as int]@ == self@[l as int]);
                if self.nodes[l].structure_type == right_node.structure_type {
                    let mut n = self.nodes[l];
                    assert(n@ == before[l as int]);
                    n.combine(&right_node);
                    let ghost prev = self.nodes@;
                    self.nodes.set(l, n);
                    assert(self@ =~= node_views(prev).update(l as int, n@));
                    already_contained = true;
                }
                l = l + 1;
            }
            if !already_contained {
                let ghost prev = self.nodes@;
                self.nodes.push(right_node);
                assert(self@ =~= node_views(prev).push(right_node@));
            }
            proof {
                assert(right@.take(r + 1).drop_last() =~= right@.take(r as int));
                assert(right@.take(r + 1).last() == right_node@);
                assert(self@ =~= spec_merge_node(before, right_node@));
            }
            r = r + 1;
        }
        assert(right@.take(right@.len() as int) =~= right@);
        proof {
            if distinct_types(old(self)@) {
                lemma_combine_keeps_distinct(old(self)@, right@);
            }
        }
    }
}

impl Default for GenericFeatureChain {
    fn default() -> (r: Self)
        ensures
            r@ == Seq::<(i32, Seq<Bool32>)>::empty(),
    {
        Self::new()
    }
}

/// Merging a node into nodes of distinct structure types leaves them distinct.
proof fn lemma_merge_keeps_distinct(nodes: Seq<(i32, Seq<Bool32>)>, node: (i32, Seq<Bool32>))
    requires
        distinct_types(nodes),
    ensures
        distinct_types(spec_merge_node(nodes, node)),
{
    let m = spec_merge_node(nodes, node);
    if exists|i: int| 0 <= i < nodes.len() && #[trigger] nodes[i].0 == node.0 {
        assert forall|i: int, j: int|
            0 <= i < m.len() && 0 <= j < m.len() && i != j implies #[trigger] m[i].0
            != #[trigger] m[j].0 by {
            assert(m[i].0 == nodes[i].0);
            assert(m[j].0 == nodes[j].0);
        }
    } else {
        assert forall|i: int, j: int|
            0 <= i < m.len() && 0 <= j < m.len() && i != j implies #[trigger] m[i].0
            != #[trigger] m[j].0 by {
            if i < nodes.len() && j < nodes.len() {
                assert(m[i] == nodes[i]);
                assert(m[j] == nodes[j]);
            } else if i < nodes.len() {
                assert(m[i] == nodes[i]);
            } else {
                assert(m[j] == nodes[j]);
            }
        }
    }
}

/// Combining into a chain whose structure types are distinct keeps them distinct.
proof fn lemma_combine_keeps_distinct(left: Seq<(i32, Seq<Bool32>)>, right: Seq<(i32, Seq<Bool32>)>)
    requires
        distinct_types(left),
    ensures
        distinct_types(spec_combine_chains(left, right)),
    decreases right.len(),
{
    if right.len() > 0 {
        lemma_combine_keeps_distinct(left, right.drop_last());
        lemma_merge_keeps_distinct(spec_combine_chains(left, right.drop_last()), right.last());
    }
}

} // verus!
