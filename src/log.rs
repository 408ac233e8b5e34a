//! The commit graph log: the commits that queries select, grouped
//! topologically, each with its edges, cut at a limit and optionally reversed.
use vstd::prelude::*;
use std::sync::Arc;
use jj_lib::graph::GraphEdgeType;
use jj_lib::repo::ReadonlyRepo;
use crate::commit::FfiCommit;
use crate::error::JjError;
use crate::hexcode::hex_of;
use crate::ids::FfiCommitId;
use crate::store;
use crate::revset::{
    EVALUATE_PHASE, phase_error, revset_failure,
    CommitWalk, GraphWalk, RawEdge, RawNode, build_query, commits_of, evaluate, grouped_graph, ids_taken,
    nodes_taken, pending_ids, pending_nodes, reverse_nodes, within,
    take_ids, take_nodes, walk_ids,
};

verus! {

/// How an entry of the log reaches one of its parents.
#[derive(Debug, Clone, Copy, PartialEq, Eq, Structural)]
pub enum FfiGraphEdgeType {
    /// The parent itself is in the log.
    Direct,
    /// The parent is reached through commits left out of the log.
    Indirect,
    /// The parent is not in the store (history is incomplete).
    Missing,
}

/// An edge to a parent commit.
#[derive(Debug, Clone)]
pub struct FfiGraphEdge {
    pub target: FfiCommitId,
    pub edge_type: FfiGraphEdgeType,
}

/// A commit of the log with its edges.
#[derive(Debug, Clone)]
pub struct FfiLogEntry {
    pub commit: FfiCommit,
    pub edges: Vec<FfiGraphEdge>,
}

/// What to show: the union of `revisions` (every visible commit where it is
/// empty), at most `limit` entries (none where it is negative), newest first
/// unless `reversed`.
#[derive(Debug, Clone)]
pub struct FfiLogOptions {
    pub revisions: Vec<String>,
    pub limit: i64,
    pub reversed: bool,
}

#[derive(Debug, Clone)]
pub struct FfiLogResult {
    pub entries: Vec<FfiLogEntry>,
}

impl Default for FfiLogOptions {
    fn default() -> (r: Self)
        ensures
            r.revisions.len() == 0,
            r.limit == 0,
            !r.reversed,
    {
        FfiLogOptions { revisions: Vec::new(), limit: 0, reversed: false }
    }
}

pub open spec fn edge_kind_of(t: GraphEdgeType) -> FfiGraphEdgeType {
    match t {
        GraphEdgeType::Missing => FfiGraphEdgeType::Missing,
        GraphEdgeType::Direct => FfiGraphEdgeType::Direct,
        GraphEdgeType::Indirect => FfiGraphEdgeType::Indirect,
    }
}

impl FfiGraphEdgeType {
    pub fn from_engine(t: GraphEdgeType) -> (r: Self)
        ensures
            r == edge_kind_of(t),
    {
        match t {
            GraphEdgeType::Missing => FfiGraphEdgeType::Missing,
            GraphEdgeType::Direct => FfiGraphEdgeType::Direct,
            GraphEdgeType::Indirect => FfiGraphEdgeType::Indirect,
        }
    }
}

/// The number of entries that a log option's limit allows.
pub open spec fn limit_of(limit: i64) -> usize {
    if limit < 0 {
        usize::MAX
    } else {
        limit as usize
    }
}

/// A negative limit stands for no limit.
pub fn log_limit(limit: i64) -> (r: usize)
    ensures
        r == limit_of(limit),
{
    if limit < 0 {
        usize::MAX
    } else {
        limit as usize
    }
}

/// Each edge is the engine's edge with its target written as a commit id.
pub open spec fn edges_match(edges: Seq<FfiGraphEdge>, raw: Seq<RawEdge>) -> bool {
    &&& edges.len() == raw.len()
    &&& forall|j: int|
        0 <= j < raw.len() ==> (#[trigger] edges[j]).target.hex@ == hex_of(raw[j].target@)
            && edges[j].edge_type == edge_kind_of(raw[j].edge_type)
}

impl FfiGraphEdge {
    pub fn from_raw(e: &RawEdge) -> (r: Self)
        ensures
            r.target.hex@ == hex_of(e.target@),
            r.edge_type == edge_kind_of(e.edge_type),
    {
        FfiGraphEdge {
            target: FfiCommitId::from_bytes(&e.target),
            edge_type: FfiGraphEdgeType::from_engine(e.edge_type),
        }
    }
}

/// The edges of a node, in order.
pub fn edges_from_raw(raw: &Vec<RawEdge>) -> (r: Vec<FfiGraphEdge>)
    ensures
        edges_match(r@, raw@),
{
    let mut out: Vec<FfiGraphEdge> = Vec::new();
    let mut i: usize = 0;
    while i < raw.len()
        invariant
            i <= raw.len(),
            out.len() == i,
            forall|j: int|
                0 <= j < i ==> (#[trigger] out[j]).target.hex@ == hex_of(raw[j].target@)
                    && out[j].edge_type == edge_kind_of(raw[j].edge_type),
        decreases raw.len() - i,
    {
        out.push(FfiGraphEdge::from_raw(&raw[i]));
        i = i + 1;
    }
    out
}

/// The ids of the nodes, in order.
pub open spec fn node_ids(nodes: Seq<RawNode>) -> Seq<Seq<u8>> {
    nodes.map_values(|n: RawNode| n.id@)
}

/// The entries show the commits of `ids`, in that order, or in the opposite
/// order where `reversed`.
pub open spec fn presents(entries: Seq<FfiLogEntry>, ids: Seq<Seq<u8>>, reversed: bool) -> bool {
    &&& entries.len() == ids.len()
    &&& forall|i: int|
        0 <= i < entries.len() ==> (#[trigger] entries[i]).commit.id.hex@ == hex_of(
            if reversed {
                ids[ids.len() - 1 - i]
            } else {
                ids[i]
            },
        )
}

/// A reversed log of some nodes shows the commits of the plain log of the same
/// nodes, in the opposite order: entry `i` of one is entry `n - 1 - i` of the other.
pub proof fn reversal_inverts(
    ids: Seq<Seq<u8>>,
    plain: Seq<FfiLogEntry>,
    reversed: Seq<FfiLogEntry>,
)
    requires
        presents(plain, ids, false),
        presents(reversed, ids, true),
    ensures
        reversed.len() == plain.len(),
        forall|i: int|
            0 <= i < plain.len() ==> (#[trigger] reversed[i]).commit.id.hex@ == plain[plain.len() - 1
                - i].commit.id.hex@,
{
    assert forall|i: int| 0 <= i < plain.len() implies (#[trigger] reversed[i]).commit.id.hex@
        == plain[plain.len() - 1 - i].commit.id.hex@ by {
        let k = plain.len() - 1 - i;
        assert(plain[k].commit.id.hex@ == hex_of(ids[k]));
    }
}

/// Every edge of the engine is of exactly one kind, and an edge is Missing
/// exactly when the engine found its target absent from the store.
pub proof fn edge_kinds_exhaustive(t: GraphEdgeType)
    ensures
        edge_kind_of(t) is Direct || edge_kind_of(t) is Indirect || edge_kind_of(t) is Missing,
        (edge_kind_of(t) is Missing) <==> (t is Missing),
        (edge_kind_of(t) is Direct) <==> (t is Direct),
        (edge_kind_of(t) is Indirect) <==> (t is Indirect),
{
}

/// The log entries of the given nodes: each node's commit from the store and
/// its edges, in the nodes' order or, where `reversed`, in the opposite order
/// with every edge turned around. A commit that the store cannot give fails
/// the whole log with a Revset error.
pub fn log_entries(repo: &Arc<ReadonlyRepo>, nodes: Vec<RawNode>, reversed: bool) -> (r: Result<
    Vec<FfiLogEntry>,
    JjError,
>)
    ensures
        r is Ok ==> presents(r->Ok_0@, node_ids(nodes@), reversed),
        r is Ok && !reversed ==> forall|i: int|
            0 <= i < nodes.len() ==> edges_match(#[trigger] r->Ok_0[i].edges@, nodes[i].edges@),
        r is Err ==> r->Err_0 is Revset && revset_failure(r->Err_0),
{
    let ghost ids = node_ids(nodes@);
    let ghost given = nodes@;
    let arranged = if reversed {
        reverse_nodes(nodes)
    } else {
        nodes
    };
    let mut out: Vec<FfiLogEntry> = Vec::new();
    let mut i: usize = 0;
    while i < arranged.len()
        invariant
            i <= arranged.len(),
            out.len() == i,
            arranged.len() == ids.len(),
            ids == node_ids(given),
            reversed ==> forall|k: int|
                0 <= k < arranged.len() ==> #[trigger] arranged[k].id@ == given[arranged.len() - 1
                    - k].id@,
            !reversed ==> arranged@ == given,
            forall|j: int|
                0 <= j < i ==> (#[trigger] out[j]).commit.id.hex@ == hex_of(arranged[j].id@),
            forall|j: int| 0 <= j < i ==> edges_match(#[trigger] out[j].edges@, arranged[j].edges@),
        decreases arranged.len() - i,
    {
        let node = &arranged[i];
        let c = match store::get_commit(store::repo_store(repo), &node.id) {
            Ok(c) => c,
            Err(e) => return Err(phase_error(EVALUATE_PHASE, e.to_string())),
        };
        out.push(
            FfiLogEntry {
                commit: FfiCommit::from_stored(&node.id, &c),
                edges: edges_from_raw(&node.edges),
            },
        );
        i = i + 1;
    }
    Ok(out)
}

/// The commit graph log of the repository: the union of the option's
/// revisions, grouped topologically, at most as many entries as its limit
/// allows. Failure in any phase, or of the store, is a Revset error, and no
/// partial log is returned.
pub fn evaluate_log(repo: &Arc<ReadonlyRepo>, options: &FfiLogOptions, user_email: &str) -> (r:
    Result<FfiLogResult, JjError>)
    ensures
        r is Ok ==> r->Ok_0.entries.len() <= limit_of(options.limit),
        r is Err ==> r->Err_0 is Revset && revset_failure(r->Err_0),
{
    let q = match build_query(&options.revisions, user_email) {
        Ok(q) => q,
        Err(e) => return Err(e),
    };
    let rs = match evaluate(repo, &q.query) {
        Ok(rs) => rs,
        Err(e) => return Err(e),
    };
    let limit = log_limit(options.limit);
    let mut walk = grouped_graph(&rs);
    match log_from_walk(repo, &mut walk, limit, options.reversed) {
        Ok(entries) => Ok(FfiLogResult { entries }),
        Err(e) => Err(e),
    }
}

/// The first `k` items of `pending`, where `k` is what `limit` lets through.
pub open spec fn limited(pending: Seq<Seq<u8>>, limit: int) -> Seq<Seq<u8>> {
    pending.take(within(limit, pending.len() as int))
}

/// The log of a grouped walk: its first `limit` nodes, each with its commit
/// and edges, reversed where asked. No more than `limit` nodes are taken from
/// the walk, and one commit is read from the store for each entry.
pub fn log_from_walk<'r>(repo: &Arc<ReadonlyRepo>, w: &mut GraphWalk<'r>, limit: usize, reversed: bool) -> (r:
    Result<Vec<FfiLogEntry>, JjError>)
    ensures
        nodes_taken(*final(w)) <= nodes_taken(*old(w)) + limit,
        r is Ok ==> presents(r->Ok_0@, limited(pending_nodes(*old(w)), limit as int), reversed),
        r is Ok ==> r->Ok_0.len() <= limit,
        r is Err ==> r->Err_0 is Revset && revset_failure(r->Err_0),
{
    let nodes = match take_nodes(w, limit) {
        Ok(n) => n,
        Err(e) => return Err(e),
    };
    proof {
        let p = pending_nodes(*old(w));
        assert(node_ids(nodes@) =~= limited(p, limit as int)) by {
            assert forall|i: int| 0 <= i < nodes.len() implies node_ids(nodes@)[i] == limited(p, limit as int)[i] by {
                assert(nodes@.map_values(|n: RawNode| n.id@)[i] == nodes[i].id@);
            }
        }
    }
    log_entries(repo, nodes, reversed)
}

/// The flat log of a commit walk: its first `limit` commits, reversed where
/// asked. The walk is advanced no more than `limit` times.
pub fn flat_from_walk<'r>(repo: &Arc<ReadonlyRepo>, w: &mut CommitWalk<'r>, limit: usize, reversed: bool) -> (r:
    Result<Vec<FfiCommit>, JjError>)
    ensures
        ids_taken(*final(w)) <= ids_taken(*old(w)) + limit,
        r is Ok ==> {
            let ids = limited(pending_ids(*old(w)), limit as int);
            &&& r->Ok_0.len() == ids.len()
            &&& forall|i: int|
                0 <= i < ids.len() ==> #[trigger] r->Ok_0[i].id.hex@ == hex_of(
                    if reversed {
                        ids[ids.len() - 1 - i]
                    } else {
                        ids[i]
                    },
                )
        },
        r is Err ==> r->Err_0 is Revset && revset_failure(r->Err_0),
{
    let ids = match take_ids(w, limit) {
        Ok(ids) => ids,
        Err(e) => return Err(e),
    };
    let ghost lim = limited(pending_ids(*old(w)), limit as int);
    proof {
        assert forall|i: int| 0 <= i < ids.len() implies #[trigger] ids[i]@ == lim[i] by {
            assert(ids@.map_values(|b: Vec<u8>| b@)[i] == ids[i]@);
        }
    }
    let ordered = if reversed {
        reversed_ids(ids)
    } else {
        ids
    };
    commits_of(repo, &ordered)
}

/// The bytes strings in the opposite order.
pub fn reversed_ids(ids: Vec<Vec<u8>>) -> (r: Vec<Vec<u8>>)
    ensures
        r.len() == ids.len(),
        forall|i: int| 0 <= i < ids.len() ==> #[trigger] r[i]@ == ids[ids.len() - 1 - i]@,
{
    let mut out: Vec<Vec<u8>> = Vec::new();
    let mut i: usize = ids.len();
    while i > 0
        invariant
            i <= ids.len(),
            out.len() == ids.len() - i,
            forall|j: int| 0 <= j < out.len() ==> #[trigger] out[j]@ == ids[ids.len() - 1 - j]@,
        decreases i,
    {
        i = i - 1;
        out.push(ids[i].clone());
    }
    out
}

/// The commits of the log without graph information, in the engine's order
/// or reversed, at most as many as the limit allows.
pub fn evaluate_log_flat(repo: &Arc<ReadonlyRepo>, options: &FfiLogOptions, user_email: &str) -> (r:
    Result<Vec<FfiCommit>, JjError>)
    ensures
        r is Ok ==> r->Ok_0.len() <= limit_of(options.limit),
        r is Err ==> r->Err_0 is Revset && revset_failure(r->Err_0),
{
    let q = match build_query(&options.revisions, user_email) {
        Ok(q) => q,
        Err(e) => return Err(e),
    };
    let rs = match evaluate(repo, &q.query) {
        Ok(rs) => rs,
        Err(e) => return Err(e),
    };
    let limit = log_limit(options.limit);
    let mut walk = walk_ids(&rs);
    flat_from_walk(repo, &mut walk, limit, options.reversed)
}

} // verus!
