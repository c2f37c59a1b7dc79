//! The cluster data model: nodes, workloads and whole-cluster snapshots.
//!
//! A snapshot is the full set of workloads and nodes as of one fetch cycle.
//! It replaces the previous snapshot wholesale; nothing here tracks identity
//! across snapshots.

use vstd::prelude::*;

verus! {

/// The role a workload plays in the economy, read from its `unit-kind` label.
#[derive(Clone, Copy, Debug, PartialEq, Eq, Structural)]
pub enum UnitKind {
    /// Feeds credits to the processor at its target address.
    Miner,
    /// Receives miner traffic; the basis of credit accrual.
    Processor,
    /// Carries no recognized `unit-kind` label.
    Unlabeled,
}

/// Mathematical image of a [`Workload`]: every string as a sequence of chars.
pub struct WorkloadModel {
    pub name: Seq<char>,
    pub node_name: Option<Seq<char>>,
    pub address: Option<Seq<char>>,
    pub kind: UnitKind,
    pub target_address: Option<Seq<char>>,
}

/// One running unit in the cluster.
pub struct Workload {
    /// Unique name of the unit.
    pub name: String,
    /// Node the unit is assigned to, if any; a weak reference by name.
    pub node_name: Option<String>,
    /// Network address of the unit, present only once it is running.
    pub address: Option<String>,
    /// Role of the unit in the economy.
    pub kind: UnitKind,
    /// For miners: the processor address the unit feeds.
    pub target_address: Option<String>,
}

impl View for Workload {
    type V = WorkloadModel;

    open spec fn view(&self) -> WorkloadModel {
        WorkloadModel {
            name: self.name@,
            node_name: match self.node_name {
                Some(n) => Some(n@),
                None => None,
            },
            address: match self.address {
                Some(a) => Some(a@),
                None => None,
            },
            kind: self.kind,
            target_address: match self.target_address {
                Some(t) => Some(t@),
                None => None,
            },
        }
    }
}

impl DeepView for Workload {
    type V = WorkloadModel;

    open spec fn deep_view(&self) -> WorkloadModel {
        self.view()
    }
}

/// One cluster host, able to run workloads. Read-only for this system.
pub struct Node {
    /// Unique name of the host.
    pub name: String,
}

impl View for Node {
    type V = Seq<char>;

    open spec fn view(&self) -> Seq<char> {
        self.name@
    }
}

impl DeepView for Node {
    type V = Seq<char>;

    open spec fn deep_view(&self) -> Seq<char> {
        self.view()
    }
}

/// The full set of workloads and nodes as of one fetch cycle.
pub struct ClusterSnapshot {
    pub workloads: Vec<Workload>,
    pub nodes: Vec<Node>,
}

/// Mathematical image of a [`ClusterSnapshot`].
pub struct SnapshotModel {
    pub workloads: Seq<WorkloadModel>,
    pub nodes: Seq<Seq<char>>,
}

impl View for ClusterSnapshot {
    type V = SnapshotModel;

    open spec fn view(&self) -> SnapshotModel {
        SnapshotModel { workloads: self.workloads.deep_view(), nodes: self.nodes.deep_view() }
    }
}

impl ClusterSnapshot {
    /// Combines the two listings fetched from the control plane.
    pub fn new(workloads: Vec<Workload>, nodes: Vec<Node>) -> (s: ClusterSnapshot)
        ensures
            s@.workloads == workloads.deep_view(),
            s@.nodes == nodes.deep_view(),
    {
        ClusterSnapshot { workloads, nodes }
    }

    /// An empty cluster: no workloads, no nodes.
    pub fn empty() -> (s: ClusterSnapshot)
        ensures
            s@.workloads.len() == 0,
            s@.nodes.len() == 0,
    {
        ClusterSnapshot { workloads: Vec::new(), nodes: Vec::new() }
    }
}

/// How many workloads of the sequence have the given kind.
pub open spec fn count_kind(ws: Seq<WorkloadModel>, kind: UnitKind) -> nat
    decreases ws.len(),
{
    if ws.len() == 0 {
        0
    } else {
        count_kind(ws.drop_last(), kind) + if ws.last().kind == kind {
            1nat
        } else {
            0nat
        }
    }
}

proof fn lemma_count_kind_take_step(ws: Seq<WorkloadModel>, kind: UnitKind, i: int)
    requires
        0 <= i < ws.len(),
    ensures
        count_kind(ws.take(i + 1), kind) == count_kind(ws.take(i), kind) + if ws[i].kind == kind {
            1nat
        } else {
            0nat
        },
{
    assert(ws.take(i + 1).drop_last() =~= ws.take(i));
    assert(ws.take(i + 1).last() == ws[i]);
}

/// Counts the workloads tagged with the given kind; the per-frame prices of
/// new units are exactly these counts.
pub fn count_units(workloads: &Vec<Workload>, kind: UnitKind) -> (n: usize)
    ensures
        n == count_kind(workloads.deep_view(), kind),
{
    let ghost ws = workloads.deep_view();
    let mut n: usize = 0;
    let mut i: usize = 0;
    while i < workloads.len()
        invariant
            i <= workloads.len(),
            ws == workloads.deep_view(),
            ws.len() == workloads.len(),
            n == count_kind(ws.take(i as int), kind),
            n <= i,
        decreases workloads.len() - i,
    {
        proof {
            lemma_count_kind_take_step(ws, kind, i as int);
        }
        if workloads[i].kind == kind {
            n = n + 1;
        }
        i = i + 1;
    }
    proof {
        assert(ws.take(workloads.len() as int) =~= ws);
    }
    n
}

/// Whether the workload is assigned to the node of the given name.
pub open spec fn on_node(w: WorkloadModel, node: Seq<char>) -> bool {
    w.node_name == Some(node)
}

/// The indices of the workloads assigned to the given node, in listing order.
pub open spec fn indices_on_node(ws: Seq<WorkloadModel>, node: Seq<char>) -> Seq<nat>
    decreases ws.len(),
{
    if ws.len() == 0 {
        Seq::empty()
    } else {
        let prev = indices_on_node(ws.drop_last(), node);
        if on_node(ws.last(), node) {
            prev.push((ws.len() - 1) as nat)
        } else {
            prev
        }
    }
}

proof fn lemma_indices_on_node_take_step(ws: Seq<WorkloadModel>, node: Seq<char>, i: int)
    requires
        0 <= i < ws.len(),
    ensures
        indices_on_node(ws.take(i + 1), node) == if on_node(ws[i], node) {
            indices_on_node(ws.take(i), node).push(i as nat)
        } else {
            indices_on_node(ws.take(i), node)
        },
{
    assert(ws.take(i + 1).drop_last() =~= ws.take(i));
    assert(ws.take(i + 1).last() == ws[i]);
}

/// Selects the workloads assigned to the named node, as indices into the
/// listing, in listing order.
pub fn workloads_on_node(workloads: &Vec<Workload>, node_name: &String) -> (r: Vec<usize>)
    ensures
        r@.map_values(|x: usize| x as nat) == indices_on_node(workloads.deep_view(), node_name@),
{
    let ghost ws = workloads.deep_view();
    let mut r: Vec<usize> = Vec::new();
    let mut i: usize = 0;
    while i < workloads.len()
        invariant
            i <= workloads.len(),
            ws == workloads.deep_view(),
            ws.len() == workloads.len(),
            r@.map_values(|x: usize| x as nat) == indices_on_node(ws.take(i as int), node_name@),
        decreases workloads.len() - i,
    {
        proof {
            lemma_indices_on_node_take_step(ws, node_name@, i as int);
        }
        let ghost before = r@;
        let assigned = match &workloads[i].node_name {
            Some(n) => n.eq(node_name),
            None => false,
        };
        if assigned {
            r.push(i);
            proof {
                assert(r@.map_values(|x: usize| x as nat) =~= before.map_values(
                    |x: usize| x as nat,
                ).push(i as nat));
            }
        }
        i = i + 1;
    }
    proof {
        assert(ws.take(workloads.len() as int) =~= ws);
    }
    r
}

} // verus!
