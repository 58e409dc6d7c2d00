use vstd::prelude::*;

use crate::backends::Backend;
use crate::element::{Element, Kind, New as NewElement, NewError};
use crate::graph::{
    graph_add_edge, graph_add_node, graph_edge, graph_edge_count, graph_edges, graph_new,
    graph_nodes, Topology,
};

verus! {

/// A lifecycle state of a whole pipeline: every node is in it at once.
pub trait State {
    /// Whether the nodes hold constructed elements in this state.
    spec fn has_elements() -> bool;

    /// Whether every node is initialized in this state.
    spec fn all_initialized() -> bool;
}

/// Nodes hold their configuration only.
pub struct Builder;

/// Elements are constructed; some may be initialized after a failed `init`.
pub struct New;

/// Every element is initialized: the pipeline is ready to run.
pub struct Ready;

/// Elements are stopped; they are discarded on the way back to [`Builder`].
pub struct Shutdown;

impl State for Builder {
    open spec fn has_elements() -> bool {
        false
    }

    open spec fn all_initialized() -> bool {
        false
    }
}

impl State for New {
    open spec fn has_elements() -> bool {
        true
    }

    open spec fn all_initialized() -> bool {
        false
    }
}

impl State for Ready {
    open spec fn has_elements() -> bool {
        true
    }

    open spec fn all_initialized() -> bool {
        true
    }
}

impl State for Shutdown {
    open spec fn has_elements() -> bool {
        true
    }

    open spec fn all_initialized() -> bool {
        false
    }
}

/// What a node is built from: the kind of element, its backend and its
/// configuration, read only when the element is constructed.
pub struct Config {
    pub element: Kind,
    pub backend: Backend,
    pub config: serde_json::Value,
}

/// A connection from a source pad of node `from` to a sink pad of node `to`.
#[derive(Debug, Clone, Copy, PartialEq, Eq, Structural)]
pub struct Edge {
    pub from: usize,
    pub to: usize,
}

/// A node of a pipeline: its configuration, its element once constructed,
/// and whether the element is initialized.
pub struct Node<E> {
    pub config: Config,
    pub element: Option<E>,
    pub initialized: bool,
}

/// Node `b` is node `a` after `init`, which succeeded or was not needed: it
/// was called once where `a` was not initialized, and not at all otherwise.
pub open spec fn inited<E>(a: Node<E>, b: Node<E>) -> bool {
    &&& b.config == a.config
    &&& b.initialized
    &&& b.element is Some
    &&& a.initialized ==> b == a
}

/// Node `b` is node `a` after one `init` that failed.
pub open spec fn init_failed<E>(a: Node<E>, b: Node<E>) -> bool {
    &&& b.config == a.config
    &&& !b.initialized
    &&& b.element is Some
}

/// Every node of `a` was initialized, giving `b`.
pub open spec fn all_inited<E>(a: Seq<Node<E>>, b: Seq<Node<E>>) -> bool {
    &&& a.len() == b.len()
    &&& forall|i: int| 0 <= i < a.len() ==> #[trigger] inited(a[i], b[i])
}

/// Initializing `a` in order gave `b`, and failed at node `k`: the nodes
/// before it are initialized, the nodes after it untouched.
pub open spec fn failed_at<E>(a: Seq<Node<E>>, b: Seq<Node<E>>, k: int) -> bool {
    &&& a.len() == b.len()
    &&& 0 <= k < a.len()
    &&& !a[k].initialized
    &&& forall|i: int| 0 <= i < k ==> #[trigger] inited(a[i], b[i])
    &&& init_failed(a[k], b[k])
    &&& forall|i: int| k < i < a.len() ==> #[trigger] b[i] == a[i]
}

/// Node `b` is node `a` after the shutdown: `stop` was called once where `a`
/// was initialized, even if it failed, and not otherwise.
pub open spec fn stopped<E>(a: Node<E>, b: Node<E>) -> bool {
    &&& b.config == a.config
    &&& !b.initialized
    &&& b.element is Some
    &&& !a.initialized ==> b.element == a.element
}

/// Why a pipeline could not go from [`Builder`] to [`New`].
#[derive(Debug, Clone)]
pub struct BuildError {
    /// The node whose element could not be constructed.
    pub node: usize,
    pub error: NewError,
}

/// Why a pipeline could not go from [`New`] to [`Ready`].
#[derive(Debug, Clone)]
pub enum InitError {
    /// The element of `node` failed to initialize.
    Element { node: usize, message: String },
}

/// A failure while the pipeline is ready or stops.
#[derive(Debug, Clone)]
pub enum RunError {
    /// The element of `node` failed to stop.
    Stop { node: usize, message: String },
}

/// Why two nodes could not be connected.
#[derive(Debug, Clone, Copy, PartialEq, Eq, Structural)]
pub struct EdgeError {
    pub from: usize,
    pub to: usize,
}

/// A pipeline: a directed graph of nodes joined by edges, every node in the
/// lifecycle state `S`. The edges never change across transitions.
pub struct Pipeline<E, S: State> {
    nodes: Vec<Node<E>>,
    graph: Topology,
    state: S,
}

impl<E, S: State> Pipeline<E, S> {
    #[verifier::type_invariant]
    spec fn inv(&self) -> bool {
        &&& graph_nodes(self.graph).len() == self.nodes@.len()
        &&& forall|i: int| 0 <= i < graph_edges(self.graph).len() ==> #[trigger] graph_edges(
            self.graph,
        )[i].0 < self.nodes@.len() && graph_edges(self.graph)[i].1 < self.nodes@.len()
        &&& forall|i: int| 0 <= i < self.nodes@.len() ==> (#[trigger] self.nodes@[i].element is Some
            <==> S::has_elements())
        &&& S::all_initialized() ==> forall|i: int| 0 <= i < self.nodes@.len()
            ==> #[trigger] self.nodes@[i].initialized
        &&& !S::has_elements() ==> forall|i: int| 0 <= i < self.nodes@.len()
            ==> !#[trigger] self.nodes@[i].initialized
    }

    /// The nodes, in the order they were added.
    pub closed spec fn nodes_spec(&self) -> Seq<Node<E>> {
        self.nodes@
    }

    /// The edges, as pairs of node indices, in the order they were added.
    pub closed spec fn edges_spec(&self) -> Seq<(usize, usize)> {
        graph_edges(self.graph)
    }

    /// The number of nodes.
    pub fn node_count(&self) -> (r: usize)
        ensures
            r == self.nodes_spec().len(),
    {
        self.nodes.len()
    }

    /// The edges, in the order they were added.
    pub fn edges(&self) -> (r: Vec<Edge>)
        ensures
            r@.len() == self.edges_spec().len(),
            forall|i: int|
                0 <= i < r@.len() ==> #[trigger] r@[i] == (Edge {
                    from: self.edges_spec()[i].0,
                    to: self.edges_spec()[i].1,
                }),
    {
        let n = graph_edge_count(&self.graph);
        let mut r: Vec<Edge> = Vec::new();
        let mut i: usize = 0;
        while i < n
            invariant
                n == graph_edges(self.graph).len(),
                i <= n,
                r@.len() == i,
                forall|j: int|
                    0 <= j < i ==> #[trigger] r@[j] == (Edge {
                        from: graph_edges(self.graph)[j].0,
                        to: graph_edges(self.graph)[j].1,
                    }),
            decreases n - i,
        {
            let (from, to) = graph_edge(&self.graph, i);
            r.push(Edge { from, to });
            i = i + 1;
        }
        r
    }

    /// The element of node `i`, once constructed.
    pub fn element(&self, i: usize) -> (r: Option<&E>)
        requires
            i < self.nodes_spec().len(),
        ensures
            match r {
                Some(e) => self.nodes_spec()[i as int].element == Some(*e),
                None => self.nodes_spec()[i as int].element is None,
            },
    {
        match &self.nodes[i].element {
            Some(e) => Some(e),
            None => None,
        }
    }

    /// Whether node `i` is initialized.
    pub fn is_initialized(&self, i: usize) -> (r: bool)
        requires
            i < self.nodes_spec().len(),
        ensures
            r == self.nodes_spec()[i as int].initialized,
    {
        self.nodes[i].initialized
    }
}

impl<E> Pipeline<E, Builder> {
    /// An empty pipeline.
    pub fn new() -> (r: Pipeline<E, Builder>)
        ensures
            r.nodes_spec().len() == 0,
            r.edges_spec().len() == 0,
    {
        Pipeline { nodes: Vec::new(), graph: graph_new(), state: Builder }
    }

    /// Add a node built from `config`; returns its index.
    pub fn add_node(self, config: Config) -> (r: (Pipeline<E, Builder>, usize))
        ensures
            r.1 == self.nodes_spec().len(),
            r.0.nodes_spec().len() == self.nodes_spec().len() + 1,
            r.0.nodes_spec().drop_last() == self.nodes_spec(),
            r.0.nodes_spec().last().config == config,
            r.0.nodes_spec().last().element is None,
            !r.0.nodes_spec().last().initialized,
            r.0.edges_spec() == self.edges_spec(),
    {
        proof {
            use_type_invariant(&self);
        }
        let Pipeline { mut nodes, mut graph, state } = self;
        let i = nodes.len();
        graph_add_node(&mut graph, i);
        nodes.push(
            Node { config, element: None, initialized: false },
        );
        proof {
            assert(nodes@.drop_last() =~= self.nodes@);
        }
        (Pipeline { nodes, graph, state }, i)
    }

    /// Connect node `from` to node `to`. Both must exist.
    pub fn connect(self, from: usize, to: usize) -> (r: Result<
        Pipeline<E, Builder>,
        (Pipeline<E, Builder>, EdgeError),
    >)
        ensures
            r is Ok <==> (from < self.nodes_spec().len() && to < self.nodes_spec().len()),
            r is Ok ==> r->Ok_0.nodes_spec() == self.nodes_spec() && r->Ok_0.edges_spec()
                == self.edges_spec().push((from, to)),
            r is Err ==> r->Err_0.0.nodes_spec() == self.nodes_spec() && r->Err_0.0.edges_spec()
                == self.edges_spec() && r->Err_0.1 == (EdgeError { from, to }),
    {
        proof {
            use_type_invariant(&self);
        }
        if from >= self.nodes.len() || to >= self.nodes.len() {
            return Err((self, EdgeError { from, to }));
        }
        let Pipeline { nodes, mut graph, state } = self;
        graph_add_edge(&mut graph, from, to);
        Ok(Pipeline { nodes, graph, state })
    }
}

impl<E: NewElement> Pipeline<E, Builder> {
    /// Construct the element of every node from its configuration. If one
    /// fails, nothing is kept and the builder comes back unchanged with the
    /// index of that node.
    pub fn build(self) -> (r: Result<Pipeline<E, New>, (Pipeline<E, Builder>, BuildError)>)
        ensures
            r is Ok ==> r->Ok_0.edges_spec() == self.edges_spec() && r->Ok_0.nodes_spec().len()
                == self.nodes_spec().len() && forall|i: int|
                0 <= i < self.nodes_spec().len() ==> {
                    let (a, b) = (self.nodes_spec()[i], #[trigger] r->Ok_0.nodes_spec()[i]);
                    &&& b.config == a.config
                    &&& b.element is Some
                    &&& !b.initialized
                },
            r is Err ==> r->Err_0.0.nodes_spec() == self.nodes_spec() && r->Err_0.0.edges_spec()
                == self.edges_spec() && r->Err_0.1.node < self.nodes_spec().len(),
    {
        proof {
            use_type_invariant(&self);
        }
        let mut built: Vec<E> = Vec::new();
        let mut i: usize = 0;
        while i < self.nodes.len()
            invariant
                i <= self.nodes@.len(),
                built@.len() == i,
            decreases self.nodes@.len() - i,
        {
            let c = &self.nodes[i].config;
            match E::new(c.element, c.backend, &c.config) {
                Ok(e) => built.push(e),
                Err(error) => {
                    return Err((self, BuildError { node: i, error }));
                },
            }
            i = i + 1;
        }
        let Pipeline { nodes, graph, state: _ } = self;
        let ghost old = nodes@;
        let mut rest = nodes;
        let mut done: Vec<Node<E>> = Vec::new();
        while rest.len() > 0
            invariant
                done@.len() + rest@.len() == old.len(),
                built@.len() == rest@.len(),
                rest@ == old.subrange(done@.len() as int, old.len() as int),
                forall|j: int|
                    0 <= j < done@.len() ==> {
                        let (a, b) = (old[j], #[trigger] done@[j]);
                        &&& b.config == a.config
                        &&& b.element is Some
                        &&& !b.initialized
                    },
            decreases rest@.len(),
        {
            let n = rest.remove(0);
            let e = built.remove(0);
            let Node { config, element: _, initialized: _ } = n;
            done.push(Node { config, element: Some(e), initialized: false });
        }
        Ok(Pipeline { nodes: done, graph, state: New })
    }
}

impl<E: Element> Pipeline<E, New> {
    /// Initialize, in order, every element not yet initialized. All or
    /// nothing: at the first failure the pipeline comes back in the [`New`]
    /// state with the nodes before it initialized; the caller drives the
    /// shutdown.
    pub fn init(self) -> (r: Result<Pipeline<E, Ready>, (Pipeline<E, New>, InitError)>)
        ensures
            r is Ok ==> r->Ok_0.edges_spec() == self.edges_spec() && all_inited(
                self.nodes_spec(),
                r->Ok_0.nodes_spec(),
            ),
            r is Err ==> r->Err_0.0.edges_spec() == self.edges_spec() && failed_at(
                self.nodes_spec(),
                r->Err_0.0.nodes_spec(),
                r->Err_0.1->Element_node as int,
            ),
    {
        proof {
            use_type_invariant(&self);
        }
        let Pipeline { nodes, graph, state: _ } = self;
        let ghost old = nodes@;
        let mut rest = nodes;
        let mut done: Vec<Node<E>> = Vec::new();
        while rest.len() > 0
            invariant
                done@.len() + rest@.len() == old.len(),
                rest@ == old.subrange(done@.len() as int, old.len() as int),
                forall|j: int| 0 <= j < done@.len() ==> #[trigger] inited(old[j], done@[j]),
                forall|j: int| 0 <= j < old.len() ==> #[trigger] old[j].element is Some,
                graph_nodes(self.graph).len() == old.len(),
                forall|j: int|
                    0 <= j < graph_edges(self.graph).len() ==> #[trigger] graph_edges(
                        self.graph,
                    )[j].0 < old.len() && graph_edges(self.graph)[j].1 < old.len(),
                graph == self.graph,
                old == self.nodes@,
            decreases rest@.len(),
        {
            let k = done.len();
            let n = rest.remove(0);
            proof {
                assert(n == old[k as int]);
            }
            if n.initialized {
                done.push(n);
            } else {
                let Node { config, element, initialized: _ } = n;
                let mut e = element.unwrap();
                match init_outcome(k, e.init()) {
                    Ok(()) => {
                        done.push(
                            Node {
                                config,
                                element: Some(e),
                                initialized: true,
                            },
                        );
                    },
                    Err(error) => {
                        done.push(
                            Node {
                                config,
                                element: Some(e),
                                initialized: false,
                            },
                        );
                        let ghost before = done@;
                        let ghost after = rest@;
                        done.append(&mut rest);
                        proof {
                            assert forall|j: int| k < j < old.len() implies #[trigger] done@[j]
                                == old[j] by {
                                assert(done@[j] == after[j - k - 1]);
                            }
                            assert forall|j: int| 0 <= j < k implies #[trigger] inited(
                                old[j],
                                done@[j],
                            ) by {
                                assert(done@[j] == before[j]);
                            }
                            assert forall|j: int| 0 <= j < done@.len() implies #[trigger] done@[j].element is Some by {
                                if j < k {
                                    assert(inited(old[j], done@[j]));
                                } else if j == k {
                                } else {
                                    assert(done@[j] == old[j]);
                                }
                            }
                        }
                        return Err(
                            (
                                Pipeline { nodes: done, graph, state: New },
                                error,
                            ),
                        );
                    },
                }
            }
        }
        proof {
            assert forall|j: int| 0 <= j < done@.len() implies #[trigger] done@[j].element is Some
                && done@[j].initialized by {
                assert(inited(old[j], done@[j]));
            }
            assert(done@.len() == old.len());
            assert forall|j: int| 0 <= j < graph_edges(graph).len() implies #[trigger] graph_edges(
                graph,
            )[j].0 < done@.len() && graph_edges(graph)[j].1 < done@.len() by {
                assert(graph_edges(self.graph)[j].0 < old.len());
            }
            assert forall|j: int| 0 <= j < done@.len() implies #[trigger] done@[j].initialized by {
                assert(inited(old[j], done@[j]));
            }
        }
        Ok(Pipeline { nodes: done, graph, state: Ready })
    }

    /// Stop the elements that were initialized before a failed `init`, and
    /// go to [`Shutdown`]. See [`Pipeline::shutdown`] for the contract.
    pub fn shutdown(self) -> (r: (Pipeline<E, Shutdown>, Vec<RunError>))
        ensures
            r.0.edges_spec() == self.edges_spec(),
            all_stopped(self.nodes_spec(), r.0.nodes_spec()),
            stop_errors_in_order(r.1@, self.nodes_spec()),
    {
        proof {
            use_type_invariant(&self);
        }
        let Pipeline { nodes, graph, state: _ } = self;
        let (nodes, errors) = stop_all(nodes);
        proof {
            assert forall|j: int| 0 <= j < nodes@.len() implies #[trigger] nodes@[j].element is Some
                && !nodes@[j].initialized by {
                assert(stopped(self.nodes@[j], nodes@[j]));
            }
        }
        (Pipeline { nodes, graph, state: Shutdown }, errors)
    }
}

impl<E: Element> Pipeline<E, Ready> {
    /// Stop every element, and go to [`Shutdown`]. Best effort: every
    /// initialized element is stopped once, even after another failed; the
    /// failures come back, in node order.
    pub fn shutdown(self) -> (r: (Pipeline<E, Shutdown>, Vec<RunError>))
        ensures
            r.0.edges_spec() == self.edges_spec(),
            all_stopped(self.nodes_spec(), r.0.nodes_spec()),
            stop_errors_in_order(r.1@, self.nodes_spec()),
    {
        proof {
            use_type_invariant(&self);
        }
        let Pipeline { nodes, graph, state: _ } = self;
        let (nodes, errors) = stop_all(nodes);
        proof {
            assert forall|j: int| 0 <= j < nodes@.len() implies #[trigger] nodes@[j].element is Some
                && !nodes@[j].initialized by {
                assert(stopped(self.nodes@[j], nodes@[j]));
            }
        }
        (Pipeline { nodes, graph, state: Shutdown }, errors)
    }
}

impl<E> Pipeline<E, Shutdown> {
    /// Discard the elements and go back to [`Builder`]: the configurations
    /// and the edges stay, and a new cycle of calls begins.
    pub fn reset(self) -> (r: Pipeline<E, Builder>)
        ensures
            r.edges_spec() == self.edges_spec(),
            r.nodes_spec().len() == self.nodes_spec().len(),
            forall|i: int|
                0 <= i < self.nodes_spec().len() ==> {
                    let (a, b) = (self.nodes_spec()[i], #[trigger] r.nodes_spec()[i]);
                    &&& b.config == a.config
                    &&& b.element is None
                    &&& !b.initialized
                },
    {
        proof {
            use_type_invariant(&self);
        }
        let Pipeline { nodes, graph, state: _ } = self;
        let ghost old = nodes@;
        let mut rest = nodes;
        let mut done: Vec<Node<E>> = Vec::new();
        while rest.len() > 0
            invariant
                done@.len() + rest@.len() == old.len(),
                rest@ == old.subrange(done@.len() as int, old.len() as int),
                forall|j: int|
                    0 <= j < done@.len() ==> {
                        let (a, b) = (old[j], #[trigger] done@[j]);
                        &&& b.config == a.config
                        &&& b.element is None
                        &&& !b.initialized
                    },
            decreases rest@.len(),
        {
            let n = rest.remove(0);
            let Node { config, element: _, initialized: _ } = n;
            done.push(
                Node { config, element: None, initialized: false },
            );
        }
        Pipeline { nodes: done, graph, state: Builder }
    }
}

/// Every node of `a` went through the shutdown, giving `b`.
pub open spec fn all_stopped<E>(a: Seq<Node<E>>, b: Seq<Node<E>>) -> bool {
    &&& a.len() == b.len()
    &&& forall|i: int| 0 <= i < a.len() ==> #[trigger] stopped(a[i], b[i])
}

/// The stop failures name nodes of `nodes` that were initialized, each once,
/// in increasing order.
pub open spec fn stop_errors_in_order<E>(errors: Seq<RunError>, nodes: Seq<Node<E>>) -> bool {
    &&& forall|i: int| 0 <= i < errors.len() ==> #[trigger] errors[i]->Stop_node < nodes.len()
        && nodes[errors[i]->Stop_node as int].initialized
    &&& forall|i: int, j: int| 0 <= i < j < errors.len() ==> #[trigger] errors[i]->Stop_node
        < #[trigger] errors[j]->Stop_node
}

/// The decision on the outcome of `init` on node `node`: a failure is an
/// [`InitError`] naming the node and carrying the element's message.
pub fn init_outcome(node: usize, outcome: Result<(), String>) -> (r: Result<(), InitError>)
    ensures
        outcome is Ok <==> r is Ok,
        outcome is Err ==> r == Err::<(), InitError>(
            InitError::Element { node, message: outcome->Err_0 },
        ),
{
    match outcome {
        Ok(()) => Ok(()),
        Err(message) => Err(InitError::Element { node, message }),
    }
}

/// Record the outcome of `stop` on node `node`: a failure is reported,
/// naming the node and carrying the element's message; a success adds
/// nothing.
pub fn record_stop(node: usize, outcome: Result<(), String>, errors: &mut Vec<RunError>)
    ensures
        outcome is Ok ==> final(errors)@ == old(errors)@,
        outcome is Err ==> final(errors)@ == old(errors)@.push(
            RunError::Stop { node, message: outcome->Err_0 },
        ),
{
    match outcome {
        Ok(()) => {},
        Err(message) => errors.push(RunError::Stop { node, message }),
    }
}

/// Call `stop` on every initialized element, in order, whatever the
/// outcome of the others.
fn stop_all<E: Element>(nodes: Vec<Node<E>>) -> (r: (Vec<Node<E>>, Vec<RunError>))
    requires
        forall|i: int| 0 <= i < nodes@.len() ==> #[trigger] nodes@[i].element is Some,
    ensures
        all_stopped(nodes@, r.0@),
        stop_errors_in_order(r.1@, nodes@),
{
    let ghost old = nodes@;
    let mut rest = nodes;
    let mut done: Vec<Node<E>> = Vec::new();
    let mut errors: Vec<RunError> = Vec::new();
    while rest.len() > 0
        invariant
            done@.len() + rest@.len() == old.len(),
            rest@ == old.subrange(done@.len() as int, old.len() as int),
            forall|j: int| 0 <= j < done@.len() ==> #[trigger] stopped(old[j], done@[j]),
            forall|j: int| 0 <= j < old.len() ==> #[trigger] old[j].element is Some,
            stop_errors_in_order(errors@, old.subrange(0, done@.len() as int)),
        decreases rest@.len(),
    {
        let k = done.len();
        let n = rest.remove(0);
        proof {
            assert(n == old[k as int]);
        }
        let Node { config, element, initialized } = n;
        if initialized {
            let mut e = element.unwrap();
            let outcome = e.stop();
            record_stop(k, outcome, &mut errors);
            done.push(
                Node { config, element: Some(e), initialized: false },
            );
        } else {
            done.push(Node { config, element, initialized: false });
        }
    }
    (done, errors)
}

/// From freshly built nodes (none initialized), an `init` that succeeds
/// leaves every node initialized. One that fails at node `k` leaves the
/// nodes before `k` initialized, and node `k` and those after it not.
pub proof fn lemma_init_all_or_prefix<E>(a: Seq<Node<E>>, b: Seq<Node<E>>, k: int)
    requires
        forall|i: int| 0 <= i < a.len() ==> !(#[trigger] a[i]).initialized,
    ensures
        all_inited(a, b) ==> forall|i: int| 0 <= i < b.len() ==> (#[trigger] b[i]).initialized,
        failed_at(a, b, k) ==> {
            &&& forall|i: int| 0 <= i < k ==> (#[trigger] b[i]).initialized
            &&& forall|i: int| k <= i < b.len() ==> !(#[trigger] b[i]).initialized
        },
{
    if all_inited(a, b) {
        assert forall|i: int| 0 <= i < b.len() implies (#[trigger] b[i]).initialized by {
            assert(inited(a[i], b[i]));
        }
    }
    if failed_at(a, b, k) {
        assert forall|i: int| 0 <= i < k implies (#[trigger] b[i]).initialized by {
            assert(inited(a[i], b[i]));
        }
        assert forall|i: int| k <= i < b.len() implies !(#[trigger] b[i]).initialized by {
            if i > k {
                assert(b[i] == a[i]);
            }
        }
    }
}

} // verus!
