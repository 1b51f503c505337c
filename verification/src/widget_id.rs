//! conrod's widget identifiers: the types the library carries and the calls it makes on them.
//!
//! A `widget::Id` is a node index in conrod's widget graph. A `Generator` hands out
//! fresh ids by adding placeholder nodes to that graph, so the next id it hands out
//! is the graph's current node count. A `widget::id::List` is a growable list of ids.
use vstd::prelude::*;

verus! {

/// A node index of the widget graph (`conrod::widget::Id` is `daggy::NodeIndex<u32>`).
#[verifier::external_type_specification]
#[verifier::external_body]
#[verifier::reject_recursive_types(Ix)]
pub struct ExNodeIndex<Ix>(daggy::NodeIndex<Ix>);

/// conrod's list of lazily generated widget ids.
#[verifier::external_type_specification]
#[verifier::external_body]
pub struct ExIdList(conrod::widget::id::List);

/// conrod's generator of fresh widget ids, borrowing the widget graph.
#[verifier::external_type_specification]
#[verifier::external_body]
pub struct ExGenerator<'a>(conrod::widget::id::Generator<'a>);

/// The position of a widget id in the widget graph (`NodeIndex::index`).
pub uninterp spec fn widget_id_index(id: conrod::widget::Id) -> usize;

/// The ids an id list holds, in order, each by its index in the widget graph.
pub uninterp spec fn id_list_contents(list: conrod::widget::id::List) -> Seq<usize>;

/// The number of nodes in the widget graph that a generator adds to.
pub uninterp spec fn widget_graph_len(generator: conrod::widget::id::Generator) -> nat;

/// The largest node count the graph can reach: adding a node at index `u32::MAX` panics.
pub open spec fn graph_capacity() -> nat {
    0xFFFF_FFFFnat
}

/// `n` consecutive fresh indices, starting at `base`.
pub open spec fn fresh_indices(base: nat, n: nat) -> Seq<usize> {
    Seq::new(n, |i: int| (base + i) as usize)
}

/// How many ids a list of length `len` lacks to reach `target`.
pub open spec fn deficit(len: nat, target: nat) -> nat {
    if len < target { (target - len) as nat } else { 0 }
}

/// The ids of a list after it was resized to `target`, with fresh ids starting at `base`:
/// truncated where it was longer, extended by fresh ids where it was shorter.
pub open spec fn resized(ids: Seq<usize>, target: nat, base: nat) -> Seq<usize> {
    if target <= ids.len() {
        ids.take(target as int)
    } else {
        ids + fresh_indices(base, (target - ids.len()) as nat)
    }
}

/// Whether the widget graph, now holding `graph_len` nodes, has room for `needed` more.
pub open spec fn graph_has_room(graph_len: nat, needed: nat) -> bool {
    graph_len + needed <= graph_capacity()
}

/// Calls `conrod::widget::id::List::new`, which makes an empty list.
#[verifier::external_body]
pub(crate) fn new_id_list() -> (list: conrod::widget::id::List)
    ensures
        id_list_contents(list) == Seq::<usize>::empty(),
{
    conrod::widget::id::List::new()
}

/// Calls `len` on the id slice that `conrod::widget::id::List` dereferences to: the
/// number of ids in the list.
#[verifier::external_body]
pub(crate) fn id_list_len(list: &conrod::widget::id::List) -> (n: usize)
    ensures
        n == id_list_contents(*list).len(),
{
    list.len()
}

/// Calls `conrod::widget::id::Generator::next`, which adds a placeholder node to the
/// widget graph and returns its index, the node count before the call. It panics when that
/// index would be `u32::MAX`, which `requires` leaves out.
#[verifier::external_body]
pub(crate) fn generate_id(generator: &mut conrod::widget::id::Generator) -> (id: conrod::widget::Id)
    requires
        graph_has_room(widget_graph_len(*old(generator)), 1),
    ensures
        widget_id_index(id) == widget_graph_len(*old(generator)),
        widget_graph_len(*final(generator)) == widget_graph_len(*old(generator)) + 1,
{
    generator.next()
}

/// Calls `conrod::widget::id::List::resize`: a longer list is truncated to `target_len`;
/// a shorter one gets `generator.next()` pushed until it reaches `target_len`, so the new
/// ids are the consecutive node indices from the graph's node count on.
#[verifier::external_body]
pub(crate) fn resize_id_list(
    list: &mut conrod::widget::id::List,
    target_len: usize,
    generator: &mut conrod::widget::id::Generator,
)
    requires
        graph_has_room(
            widget_graph_len(*old(generator)),
            deficit(id_list_contents(*old(list)).len(), target_len as nat),
        ),
    ensures
        id_list_contents(*final(list)) == resized(
            id_list_contents(*old(list)),
            target_len as nat,
            widget_graph_len(*old(generator)),
        ),
        widget_graph_len(*final(generator)) == widget_graph_len(*old(generator)) + deficit(
            id_list_contents(*old(list)).len(),
            target_len as nat,
        ),
{
    list.resize(target_len, generator)
}

/// Whether every id in `ids` is a node of a graph holding `graph_len` nodes, and no id
/// occurs twice.
pub open spec fn unique_nodes(ids: Seq<usize>, graph_len: nat) -> bool {
    &&& forall|i: int| 0 <= i < ids.len() ==> (#[trigger] ids[i] as nat) < graph_len
    &&& forall|i: int, j: int| 0 <= i < j < ids.len() ==> #[trigger] ids[i] != #[trigger] ids[j]
}

/// Resizing keeps the ids of a list unique: a list of distinct nodes of the graph, resized
/// with fresh ids from the graph's node count on, is again a list of distinct nodes of the
/// grown graph.
pub proof fn lemma_resize_keeps_ids_unique(ids: Seq<usize>, target: nat, graph_len: nat)
    requires
        unique_nodes(ids, graph_len),
        graph_has_room(graph_len, deficit(ids.len(), target)),
    ensures
        unique_nodes(resized(ids, target, graph_len), graph_len + deficit(ids.len(), target)),
{
    let r = resized(ids, target, graph_len);
    let g = graph_len + deficit(ids.len(), target);
    assert forall|i: int| 0 <= i < r.len() implies (#[trigger] r[i] as nat) < g by {
        if i >= ids.len() {
            assert(r[i] == (graph_len + (i - ids.len())) as usize);
        }
    }
    assert forall|i: int, j: int| 0 <= i < j < r.len() implies #[trigger] r[i] != #[trigger] r[j] by {
        if j >= ids.len() {
            assert(r[j] == (graph_len + (j - ids.len())) as usize);
            if i >= ids.len() {
                assert(r[i] == (graph_len + (i - ids.len())) as usize);
            } else {
                assert(r[i] == ids[i]);
            }
        }
    }
}

/// Fresh ids placed anywhere among unique nodes of the graph keep them unique: `k` fresh
/// ids from the graph's node count on, put between `a` and `b`, are distinct from every id
/// in `a` and `b` and from one another.
pub proof fn lemma_fresh_ids_keep_nodes_unique(a: Seq<usize>, b: Seq<usize>, graph_len: nat, k: nat)
    requires
        unique_nodes(a + b, graph_len),
        graph_has_room(graph_len, k),
    ensures
        unique_nodes(a + fresh_indices(graph_len, k) + b, graph_len + k),
{
    let ab = a + b;
    let f = fresh_indices(graph_len, k);
    let c = a + f + b;
    let la = a.len() as int;
    assert forall|i: int| 0 <= i < c.len() implies (#[trigger] c[i] as nat) < graph_len + k by {
        if i < la {
            assert(c[i] == ab[i]);
        } else if i < la + k {
            assert(c[i] == f[i - la]);
        } else {
            assert(c[i] == ab[i - k]);
        }
    }
    assert forall|i: int, j: int| 0 <= i < j < c.len() implies #[trigger] c[i] != #[trigger] c[j] by {
        if i < la {
            assert(c[i] == ab[i]);
            if j < la {
                assert(c[j] == ab[j]);
            } else if j < la + k {
                assert(c[j] == f[j - la]);
                assert((ab[i] as nat) < graph_len);
            } else {
                assert(c[j] == ab[j - k]);
            }
        } else if i < la + k {
            assert(c[i] == f[i - la]);
            if j < la + k {
                assert(c[j] == f[j - la]);
            } else {
                assert(c[j] == ab[j - k]);
                assert((ab[j - k] as nat) < graph_len);
            }
        } else {
            assert(c[i] == ab[i - k]);
            assert(c[j] == ab[j - k]);
        }
    }
}

/// Resizing a list to the length it already has changes nothing and generates no id;
/// so resizing twice to one length is the same as resizing once.
pub proof fn lemma_resize_idempotent(ids: Seq<usize>, target: nat, base: nat, later_base: nat)
    ensures
        resized(ids, target, base).len() == target,
        deficit(resized(ids, target, base).len(), target) == 0,
        resized(resized(ids, target, base), target, later_base) == resized(ids, target, base),
        forall|i: int| 0 <= i < ids.len() && i < target ==> #[trigger] resized(ids, target, base)[i] == ids[i],
{
    let r = resized(ids, target, base);
    assert(r.take(target as int) =~= r);
}

} // verus!
