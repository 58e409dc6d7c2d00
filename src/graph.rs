use vstd::prelude::*;

use petgraph::graph::{EdgeIndex, NodeIndex};

verus! {

/// A directed graph of petgraph.
#[verifier::external_type_specification]
#[verifier::external_body]
#[verifier::reject_recursive_types(N)]
#[verifier::reject_recursive_types(E)]
#[verifier::reject_recursive_types(Ty)]
#[verifier::reject_recursive_types(Ix)]
pub struct ExGraph<N, E, Ty, Ix>(petgraph::graph::Graph<N, E, Ty, Ix>);

/// The marker of directed graphs of petgraph.
#[verifier::external_type_specification]
#[verifier::external_body]
pub struct ExDirected(petgraph::Directed);

/// The topology of a pipeline: a node weight is the index of the node, an
/// edge joins two of them.
pub type Topology = petgraph::graph::Graph<usize, (), petgraph::Directed, usize>;

/// The weights of the nodes of `g`, in the order they were added.
pub uninterp spec fn graph_nodes(g: Topology) -> Seq<usize>;

/// The endpoints of the edges of `g`, in the order they were added.
pub uninterp spec fn graph_edges(g: Topology) -> Seq<(usize, usize)>;

/// Relies on `petgraph::graph::Graph::with_capacity`: a graph without nodes
/// or edges.
#[verifier::external_body]
pub(crate) fn graph_new() -> (r: Topology)
    ensures
        graph_nodes(r) == Seq::<usize>::empty(),
        graph_edges(r) == Seq::<(usize, usize)>::empty(),
{
    petgraph::graph::Graph::with_capacity(0, 0)
}

/// Relies on `petgraph::graph::Graph::add_node`: the node comes last and its
/// index is the former node count. With `usize` indices there is no
/// capacity check.
#[verifier::external_body]
pub(crate) fn graph_add_node(g: &mut Topology, weight: usize) -> (r: usize)
    ensures
        r == graph_nodes(*old(g)).len(),
        graph_nodes(*final(g)) == graph_nodes(*old(g)).push(weight),
        graph_edges(*final(g)) == graph_edges(*old(g)),
{
    g.add_node(weight).index()
}

/// Relies on `petgraph::graph::Graph::add_edge`: the edge comes last. It
/// panics where an endpoint is not a node, which `requires` leaves out.
#[verifier::external_body]
pub(crate) fn graph_add_edge(g: &mut Topology, a: usize, b: usize)
    requires
        a < graph_nodes(*old(g)).len(),
        b < graph_nodes(*old(g)).len(),
    ensures
        graph_nodes(*final(g)) == graph_nodes(*old(g)),
        graph_edges(*final(g)) == graph_edges(*old(g)).push((a, b)),
{
    g.add_edge(NodeIndex::new(a), NodeIndex::new(b), ());
}

/// Relies on `petgraph::graph::Graph::edge_count`.
#[verifier::external_body]
pub(crate) fn graph_edge_count(g: &Topology) -> (r: usize)
    ensures
        r == graph_edges(*g).len(),
{
    g.edge_count()
}

/// Relies on `petgraph::graph::Graph::edge_endpoints`: the source and target
/// of edge `i`, which exists.
#[verifier::external_body]
pub(crate) fn graph_edge(g: &Topology, i: usize) -> (r: (usize, usize))
    requires
        i < graph_edges(*g).len(),
    ensures
        r == graph_edges(*g)[i as int],
{
    let (a, b) = g.edge_endpoints(EdgeIndex::new(i)).unwrap();
    (a.index(), b.index())
}

} // verus!
