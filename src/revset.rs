//! Revset queries in three phases: parse, resolve, evaluate. Each phase fails
//! with a Revset error of its own and stops the query there.
use vstd::prelude::*;
use std::collections::HashMap;
use std::sync::Arc;
use jj_lib::backend::CommitId;
use jj_lib::graph::{GraphEdge, GraphEdgeType, TopoGroupedGraphIterator, reverse_graph};
use jj_lib::object_id::ObjectId;
use jj_lib::repo::ReadonlyRepo;
use jj_lib::revset::{
    ResolvedRevsetExpression, Revset, RevsetAliasesMap, RevsetDiagnostics, RevsetEvaluationError,
    RevsetExpression, RevsetExtensions, RevsetParseContext, RevsetParseError, RevsetResolutionError,
    SymbolResolver, UserRevsetExpression, parse,
};
use jj_lib::time_util::DatePatternContext;
use crate::commit::FfiCommit;
use crate::error::{JjError, joined};
use crate::hexcode::hex_of;
use crate::ids::FfiCommitId;
use crate::store;

verus! {

#[verifier::external_type_specification]
#[verifier::external_body]
pub struct ExRevsetParseError(RevsetParseError);

#[verifier::external_type_specification]
#[verifier::external_body]
pub struct ExRevsetResolutionError(RevsetResolutionError);

#[verifier::external_type_specification]
#[verifier::external_body]
pub struct ExRevsetEvaluationError(RevsetEvaluationError);

#[verifier::external_type_specification]
#[verifier::external_body]
pub struct ExDatePatternContext(DatePatternContext);

#[verifier::external_type_specification]
pub struct ExGraphEdgeType(GraphEdgeType);

/// A parsed query. The engine's expression type is generic over a sealed
/// trait, which cannot be declared here, so the handle is opaque.
#[verifier::external_body]
pub struct Query {
    expr: Arc<UserRevsetExpression>,
}

/// A query as this library builds it: the engine's query, with the texts it
/// was parsed from, in order, and joined by union; every visible commit where
/// there are none.
pub struct BuiltQuery {
    pub query: Query,
    pub texts: Ghost<Seq<Seq<char>>>,
}

/// A query whose symbols were resolved against a repository.
#[verifier::external_body]
pub struct ResolvedQuery {
    expr: Arc<ResolvedRevsetExpression>,
}

/// An evaluated revset; the engine hands it out as a trait object.
#[verifier::external_body]
pub struct EvaluatedRevset<'r> {
    revset: Box<dyn Revset + 'r>,
}

/// The lazy sequence of commit ids of a revset, in the engine's order.
#[verifier::external_body]
pub struct CommitWalk<'r> {
    iter: Box<dyn Iterator<Item = Result<CommitId, RevsetEvaluationError>> + 'r>,
}

/// The lazy sequence of graph nodes of a revset.
#[verifier::external_body]
pub struct GraphWalk<'r> {
    iter: Box<dyn Iterator<Item = Result<(CommitId, Vec<GraphEdge<CommitId>>), RevsetEvaluationError>> + 'r>,
}

/// How many nodes were taken from a walk so far.
pub uninterp spec fn nodes_taken(w: GraphWalk) -> nat;

/// The ids of the nodes that a graph walk has yet to give, up to its first error.
pub uninterp spec fn pending_nodes(w: GraphWalk) -> Seq<Seq<u8>>;

/// How many times a commit walk was advanced so far.
pub uninterp spec fn ids_taken(w: CommitWalk) -> nat;

/// The commit ids that a walk has yet to give, up to its first error.
pub uninterp spec fn pending_ids(w: CommitWalk) -> Seq<Seq<u8>>;

/// How many of `n` items a limit lets through.
pub open spec fn within(limit: int, n: int) -> int {
    if limit < n {
        limit
    } else {
        n
    }
}

/// `out` is the first `within(limit, pending.len())` items of `pending`.
pub open spec fn first_of(out: Seq<Seq<u8>>, pending: Seq<Seq<u8>>, limit: int) -> bool {
    &&& out.len() == within(limit, pending.len() as int)
    &&& forall|i: int| 0 <= i < out.len() ==> #[trigger] out[i] == pending[i]
}

/// An edge from a graph node to one of its parents (or, in a reversed graph,
/// children), with the target's id as bytes.
pub struct RawEdge {
    pub target: Vec<u8>,
    pub edge_type: GraphEdgeType,
}

/// A graph node: a commit's id as bytes and its edges, in the engine's order.
pub struct RawNode {
    pub id: Vec<u8>,
    pub edges: Vec<RawEdge>,
}

/// Relies on chrono's `Local::now`: the present moment, for relative dates in queries.
#[verifier::external_body]
pub(crate) fn date_context_now() -> DatePatternContext {
    DatePatternContext::from(chrono::Local::now())
}

/// Relies on `revset::parse` of jj-lib, with no aliases and no extensions.
#[verifier::external_body]
fn parse_query(text: &str, user_email: &str, date: &DatePatternContext) -> Result<Query, RevsetParseError> {
    let aliases_map = RevsetAliasesMap::new();
    let extensions = RevsetExtensions::new();
    let context = RevsetParseContext {
        aliases_map: &aliases_map,
        local_variables: HashMap::new(),
        user_email,
        date_pattern_context: date.clone(),
        default_ignored_remote: None,
        use_glob_by_default: false,
        extensions: &extensions,
        workspace: None,
    };
    parse(&mut RevsetDiagnostics::new(), text, &context).map(|expr| Query { expr })
}

/// Relies on `RevsetExpression::all` of jj-lib: every visible commit.
#[verifier::external_body]
fn all_query() -> Query {
    Query { expr: RevsetExpression::all() }
}

/// Relies on `RevsetExpression::union` of jj-lib.
#[verifier::external_body]
fn union_query(a: &Query, b: &Query) -> Query {
    Query { expr: a.expr.union(&b.expr) }
}

/// Relies on `RevsetExpression::resolve_user_expression` of jj-lib, with the
/// built-in symbol resolvers.
#[verifier::external_body]
fn resolve_query(repo: &Arc<ReadonlyRepo>, q: &Query) -> Result<ResolvedQuery, RevsetResolutionError> {
    let extensions = RevsetExtensions::new();
    let resolver = SymbolResolver::new(repo.as_ref(), extensions.symbol_resolvers());
    q.expr.resolve_user_expression(repo.as_ref(), &resolver).map(|expr| ResolvedQuery { expr })
}

/// Relies on `ResolvedRevsetExpression::evaluate` of jj-lib.
#[verifier::external_body]
fn evaluate_query<'r>(repo: &'r Arc<ReadonlyRepo>, q: ResolvedQuery) -> Result<EvaluatedRevset<'r>, RevsetEvaluationError> {
    q.expr.evaluate(repo.as_ref()).map(|revset| EvaluatedRevset { revset })
}

/// Relies on `Revset::iter` of jj-lib.
#[verifier::external_body]
fn commit_walk<'r>(rs: &EvaluatedRevset<'r>) -> (r: CommitWalk<'r>)
    ensures
        ids_taken(r) == 0,
{
    CommitWalk { iter: rs.revset.iter() }
}

/// Relies on `Revset::iter_graph` of jj-lib.
#[verifier::external_body]
fn graph_walk<'r>(rs: &EvaluatedRevset<'r>) -> (r: GraphWalk<'r>)
    ensures
        nodes_taken(r) == 0,
{
    GraphWalk { iter: rs.revset.iter_graph() }
}

/// Relies on `TopoGroupedGraphIterator::new` of jj-lib: the same nodes, with
/// linear runs of history kept together.
#[verifier::external_body]
fn topo_grouped<'r>(w: GraphWalk<'r>) -> (r: GraphWalk<'r>)
    ensures
        nodes_taken(r) == 0,
{
    GraphWalk { iter: Box::new(TopoGroupedGraphIterator::new(w.iter, |id: &CommitId| id)) }
}

/// Relies on `Iterator::next` of the engine's commit walk: each call takes the
/// next id, or the walk's error, or nothing once it is done.
#[verifier::external_body]
fn next_commit_id<'r>(w: &mut CommitWalk<'r>) -> (r: Option<Result<Vec<u8>, RevsetEvaluationError>>)
    ensures
        ids_taken(*final(w)) == ids_taken(*old(w)) + 1,
        r is Some && r->Some_0 is Ok ==> pending_ids(*old(w)).len() > 0 && r->Some_0->Ok_0@
            == pending_ids(*old(w))[0] && pending_ids(*final(w)) == pending_ids(*old(w)).drop_first(),
        r is None || (r is Some && r->Some_0 is Err) ==> pending_ids(*old(w)).len() == 0,
{
    match w.iter.next() {
        Some(Ok(id)) => Some(Ok(id.to_bytes())),
        Some(Err(e)) => Some(Err(e)),
        None => None,
    }
}

/// Relies on `Iterator::next` of the engine's graph walk; each call takes one
/// node, or the walk's error, or nothing once it is done.
#[verifier::external_body]
fn next_graph_node<'r>(w: &mut GraphWalk<'r>) -> (r: Option<Result<RawNode, RevsetEvaluationError>>)
    ensures
        nodes_taken(*final(w)) == nodes_taken(*old(w)) + 1,
        r is Some && r->Some_0 is Ok ==> pending_nodes(*old(w)).len() > 0 && r->Some_0->Ok_0.id@
            == pending_nodes(*old(w))[0] && pending_nodes(*final(w)) == pending_nodes(
            *old(w),
        ).drop_first(),
        r is None || (r is Some && r->Some_0 is Err) ==> pending_nodes(*old(w)).len() == 0,
{
    match w.iter.next() {
        Some(Ok((id, edges))) => Some(Ok(RawNode {
            id: id.to_bytes(),
            edges: edges.into_iter().map(|e| RawEdge { target: e.target.to_bytes(), edge_type: e.edge_type }).collect(),
        })),
        Some(Err(e)) => Some(Err(e)),
        None => None,
    }
}

/// Relies on `graph::reverse_graph` of jj-lib: the nodes in the opposite order,
/// each with the edges that pointed at it.
#[verifier::external_body]
pub(crate) fn reverse_nodes(nodes: Vec<RawNode>) -> (r: Vec<RawNode>)
    ensures
        r.len() == nodes.len(),
        forall|i: int| 0 <= i < r.len() ==> #[trigger] r[i].id@ == nodes[r.len() - 1 - i].id@,
{
    let input = nodes.into_iter().map(|n| {
        Ok::<_, std::convert::Infallible>((n.id, n.edges.into_iter().map(|e| GraphEdge { target: e.target, edge_type: e.edge_type }).collect()))
    });
    match reverse_graph(input, |id: &Vec<u8>| id) {
        Ok(items) => items.into_iter().map(|(id, edges)| RawNode {
            id,
            edges: edges.into_iter().map(|e| RawEdge { target: e.target, edge_type: e.edge_type }).collect(),
        }).collect(),
        Err(never) => match never {},
    }
}

/// How the message of a Revset error begins, for each of the three phases.
pub const PARSE_PHASE: &'static str = "Failed to parse revset: ";

pub const RESOLVE_PHASE: &'static str = "Failed to resolve revset: ";

pub const EVALUATE_PHASE: &'static str = "Failed to evaluate revset: ";

/// A Revset error whose message begins with the given phase.
pub open spec fn in_phase(e: JjError, phase: Seq<char>) -> bool {
    e matches JjError::Revset { message } && phase.len() <= message@.len() && message@.subrange(
        0,
        phase.len() as int,
    ) == phase
}

/// A Revset error of one of the three phases.
pub open spec fn revset_failure(e: JjError) -> bool {
    in_phase(e, PARSE_PHASE@) || in_phase(e, RESOLVE_PHASE@) || in_phase(e, EVALUATE_PHASE@)
}

/// A Revset error of the given phase with the engine's text after it.
pub(crate) fn phase_error(phase: &str, text: String) -> (r: JjError)
    ensures
        in_phase(r, phase@),
{
    let message = joined(phase, text.as_str());
    assert(message@.subrange(0, phase@.len() as int) =~= phase@);
    JjError::Revset { message }
}

/// The union of the given queries, parsed in order; every visible commit where
/// there are none. The first that does not parse is a Revset error.
pub fn build_query(revisions: &Vec<String>, user_email: &str) -> (r: Result<BuiltQuery, JjError>)
    ensures
        r is Err ==> r->Err_0 is Revset && in_phase(r->Err_0, PARSE_PHASE@),
        revisions.len() == 0 ==> r is Ok,
        r is Ok ==> r->Ok_0.texts@ == revisions@.map_values(|s: String| s@),
{
    if revisions.len() == 0 {
        let built = BuiltQuery { query: all_query(), texts: Ghost(Seq::empty()) };
        assert(built.texts@ =~= revisions@.map_values(|s: String| s@));
        return Ok(built);
    }
    let date = date_context_now();
    let mut acc: Option<Query> = None;
    let ghost mut texts: Seq<Seq<char>> = Seq::empty();
    let mut i: usize = 0;
    while i < revisions.len()
        invariant
            i <= revisions.len(),
            texts =~= revisions@.map_values(|s: String| s@).take(i as int),
            (i > 0) <==> acc is Some,
        decreases revisions.len() - i,
    {
        let q = match parse_query(revisions[i].as_str(), user_email, &date) {
            Ok(q) => q,
            Err(e) => return Err(phase_error(PARSE_PHASE, e.to_string())),
        };
        acc = match acc {
            Some(a) => Some(union_query(&a, &q)),
            None => Some(q),
        };
        proof {
            texts = texts.push(revisions[i as int]@);
        }
        i = i + 1;
        assert(texts =~= revisions@.map_values(|s: String| s@).take(i as int));
    }
    assert(texts =~= revisions@.map_values(|s: String| s@));
    match acc {
        Some(q) => Ok(BuiltQuery { query: q, texts: Ghost(texts) }),
        None => Ok(BuiltQuery { query: all_query(), texts: Ghost(texts) }),
    }
}

/// Resolves and evaluates a query against a repository.
pub fn evaluate<'r>(repo: &'r Arc<ReadonlyRepo>, q: &Query) -> (r: Result<EvaluatedRevset<'r>, JjError>)
    ensures
        r is Err ==> r->Err_0 is Revset && (in_phase(r->Err_0, RESOLVE_PHASE@) || in_phase(
            r->Err_0,
            EVALUATE_PHASE@,
        )),
{
    let resolved = match resolve_query(repo, q) {
        Ok(x) => x,
        Err(e) => return Err(phase_error(RESOLVE_PHASE, e.to_string())),
    };
    match evaluate_query(repo, resolved) {
        Ok(rs) => Ok(rs),
        Err(e) => Err(phase_error(EVALUATE_PHASE, e.to_string())),
    }
}

/// The first `limit` commit ids of the walk, in its order (all of them where
/// it has fewer); the walk is advanced no more than `limit` times.
pub fn take_ids<'r>(w: &mut CommitWalk<'r>, limit: usize) -> (r: Result<Vec<Vec<u8>>, JjError>)
    ensures
        ids_taken(*final(w)) <= ids_taken(*old(w)) + limit,
        r is Ok ==> first_of(r->Ok_0@.map_values(|b: Vec<u8>| b@), pending_ids(*old(w)), limit as int),
        r is Err ==> r->Err_0 is Revset && revset_failure(r->Err_0),
{
    let ghost start = pending_ids(*w);
    let mut out: Vec<Vec<u8>> = Vec::new();
    while out.len() < limit
        invariant_except_break
            ids_taken(*w) == ids_taken(*old(w)) + out.len(),
            pending_ids(*w) == start.skip(out.len() as int),
        invariant
            out.len() <= limit,
            start == pending_ids(*old(w)),
            out.len() <= start.len(),
            forall|i: int| 0 <= i < out.len() ==> #[trigger] out[i]@ == start[i],
        ensures
            ids_taken(*w) <= ids_taken(*old(w)) + limit,
            out.len() <= limit,
            out.len() == within(limit as int, start.len() as int),
            forall|i: int| 0 <= i < out.len() ==> #[trigger] out[i]@ == start[i],
        decreases limit - out.len(),
    {
        match next_commit_id(w) {
            Some(Ok(id)) => {
                assert(start.skip(out.len() as int)[0] == start[out.len() as int]);
                assert(start.skip(out.len() as int).drop_first() =~= start.skip(out.len() + 1));
                out.push(id);
            },
            Some(Err(e)) => return Err(phase_error(EVALUATE_PHASE, e.to_string())),
            None => break,
        }
    }
    assert(out@.map_values(|b: Vec<u8>| b@).len() == out.len());
    Ok(out)
}

/// The first `limit` nodes of the walk, in its order (all of them where it has
/// fewer); no more than `limit` nodes are taken from it.
pub fn take_nodes<'r>(w: &mut GraphWalk<'r>, limit: usize) -> (r: Result<Vec<RawNode>, JjError>)
    ensures
        nodes_taken(*final(w)) <= nodes_taken(*old(w)) + limit,
        r is Ok ==> first_of(r->Ok_0@.map_values(|n: RawNode| n.id@), pending_nodes(*old(w)), limit as int),
        r is Err ==> r->Err_0 is Revset && revset_failure(r->Err_0),
{
    let ghost start = pending_nodes(*w);
    let mut out: Vec<RawNode> = Vec::new();
    while out.len() < limit
        invariant_except_break
            nodes_taken(*w) == nodes_taken(*old(w)) + out.len(),
            pending_nodes(*w) == start.skip(out.len() as int),
        invariant
            out.len() <= limit,
            start == pending_nodes(*old(w)),
            out.len() <= start.len(),
            forall|i: int| 0 <= i < out.len() ==> #[trigger] out[i].id@ == start[i],
        ensures
            nodes_taken(*w) <= nodes_taken(*old(w)) + limit,
            out.len() <= limit,
            out.len() == within(limit as int, start.len() as int),
            forall|i: int| 0 <= i < out.len() ==> #[trigger] out[i].id@ == start[i],
        decreases limit - out.len(),
    {
        match next_graph_node(w) {
            Some(Ok(n)) => {
                assert(start.skip(out.len() as int)[0] == start[out.len() as int]);
                assert(start.skip(out.len() as int).drop_first() =~= start.skip(out.len() + 1));
                out.push(n);
            },
            Some(Err(e)) => return Err(phase_error(EVALUATE_PHASE, e.to_string())),
            None => break,
        }
    }
    Ok(out)
}

/// Every commit id that the walk gives, in its order.
pub fn ids_of_walk<'r>(w: &mut CommitWalk<'r>) -> (r: Result<Vec<FfiCommitId>, JjError>)
    ensures
        r is Ok ==> r->Ok_0.len() == within(usize::MAX as int, pending_ids(*old(w)).len() as int)
            && forall|i: int| 0 <= i < r->Ok_0.len() ==> #[trigger] r->Ok_0[i].hex@ == hex_of(pending_ids(*old(w))[i]),
        r is Err ==> r->Err_0 is Revset && revset_failure(r->Err_0),
{
    match take_ids(w, usize::MAX) {
        Ok(ids) => {
            let r = crate::commit::commit_ids_from_bytes(&ids);
            assert forall|i: int| 0 <= i < r.len() implies #[trigger] r[i].hex@ == hex_of(pending_ids(*old(w))[i]) by {
                assert(ids@.map_values(|b: Vec<u8>| b@)[i] == ids[i]@);
            }
            Ok(r)
        },
        Err(e) => Err(e),
    }
}

/// Every commit that the walk gives, in its order, read from the store.
pub fn commits_of_walk<'r>(repo: &Arc<ReadonlyRepo>, w: &mut CommitWalk<'r>) -> (r: Result<Vec<FfiCommit>, JjError>)
    ensures
        r is Ok ==> r->Ok_0.len() == within(usize::MAX as int, pending_ids(*old(w)).len() as int)
            && forall|i: int| 0 <= i < r->Ok_0.len() ==> #[trigger] r->Ok_0[i].id.hex@ == hex_of(pending_ids(*old(w))[i]),
        r is Err ==> r->Err_0 is Revset && revset_failure(r->Err_0),
{
    match take_ids(w, usize::MAX) {
        Ok(ids) => {
            let r = commits_of(repo, &ids);
            proof {
                if r is Ok {
                    assert forall|i: int| 0 <= i < ids.len() implies ids[i]@ == pending_ids(*old(w))[i] by {
                        assert(ids@.map_values(|b: Vec<u8>| b@)[i] == ids[i]@);
                    }
                }
            }
            r
        },
        Err(e) => Err(e),
    }
}

/// How many commit ids the walk gives.
pub fn count_of_walk<'r>(w: &mut CommitWalk<'r>) -> (r: Result<u64, JjError>)
    ensures
        r is Ok ==> r->Ok_0 as int == within(u64::MAX as int, pending_ids(*old(w)).len() as int),
        r is Err ==> r->Err_0 is Revset && revset_failure(r->Err_0),
{
    let ghost start = pending_ids(*w);
    let mut count: u64 = 0;
    while count < u64::MAX
        invariant_except_break
            pending_ids(*w) == start.skip(count as int),
        invariant
            start == pending_ids(*old(w)),
            count <= start.len(),
        ensures
            count == within(u64::MAX as int, start.len() as int),
        decreases u64::MAX - count,
    {
        match next_commit_id(w) {
            Some(Ok(_)) => {
                assert(start.skip(count as int).drop_first() =~= start.skip(count + 1));
                count = count + 1;
            },
            Some(Err(e)) => return Err(phase_error(EVALUATE_PHASE, e.to_string())),
            None => break,
        }
    }
    Ok(count)
}

/// The ids of the commits that one query selects, in the engine's order.
pub fn evaluate_revset(repo: &Arc<ReadonlyRepo>, revset_str: &str, user_email: &str) -> (r: Result<
    Vec<FfiCommitId>,
    JjError,
>)
    ensures
        r is Err ==> r->Err_0 is Revset && revset_failure(r->Err_0),
{
    let mut revisions: Vec<String> = Vec::new();
    revisions.push(String::from_str(revset_str));
    let q = match build_query(&revisions, user_email) {
        Ok(q) => q,
        Err(e) => return Err(e),
    };
    let rs = match evaluate(repo, &q.query) {
        Ok(rs) => rs,
        Err(e) => return Err(e),
    };
    let mut walk = commit_walk(&rs);
    ids_of_walk(&mut walk)
}

/// The commits of the given ids, in order; the first that the store cannot
/// give is a Revset error.
pub fn commits_of(repo: &Arc<ReadonlyRepo>, ids: &Vec<Vec<u8>>) -> (r: Result<Vec<FfiCommit>, JjError>)
    ensures
        r is Ok ==> r->Ok_0.len() == ids.len() && forall|i: int|
            0 <= i < ids.len() ==> #[trigger] r->Ok_0[i].id.hex@ == hex_of(ids[i]@),
        r is Err ==> r->Err_0 is Revset && revset_failure(r->Err_0),
{
    let mut out: Vec<FfiCommit> = Vec::new();
    let mut i: usize = 0;
    while i < ids.len()
        invariant
            i <= ids.len(),
            out.len() == i,
            forall|j: int| 0 <= j < i ==> #[trigger] out[j].id.hex@ == hex_of(ids[j]@),
        decreases ids.len() - i,
    {
        match store::get_commit(store::repo_store(repo), &ids[i]) {
            Ok(c) => out.push(FfiCommit::from_stored(&ids[i], &c)),
            Err(e) => return Err(phase_error(EVALUATE_PHASE, e.to_string())),
        }
        i = i + 1;
    }
    Ok(out)
}

/// The commits that one query selects, in the engine's order.
pub fn evaluate_revset_to_commits(repo: &Arc<ReadonlyRepo>, revset_str: &str, user_email: &str) -> (r:
    Result<Vec<FfiCommit>, JjError>)
    ensures
        r is Err ==> r->Err_0 is Revset && revset_failure(r->Err_0),
{
    let mut revisions: Vec<String> = Vec::new();
    revisions.push(String::from_str(revset_str));
    let q = match build_query(&revisions, user_email) {
        Ok(q) => q,
        Err(e) => return Err(e),
    };
    let rs = match evaluate(repo, &q.query) {
        Ok(rs) => rs,
        Err(e) => return Err(e),
    };
    let mut walk = commit_walk(&rs);
    commits_of_walk(repo, &mut walk)
}

/// How many commits one query selects.
pub fn count_revset(repo: &Arc<ReadonlyRepo>, revset_str: &str, user_email: &str) -> (r: Result<
    u64,
    JjError,
>)
    ensures
        r is Err ==> r->Err_0 is Revset && revset_failure(r->Err_0),
{
    let mut revisions: Vec<String> = Vec::new();
    revisions.push(String::from_str(revset_str));
    let q = match build_query(&revisions, user_email) {
        Ok(q) => q,
        Err(e) => return Err(e),
    };
    let rs = match evaluate(repo, &q.query) {
        Ok(rs) => rs,
        Err(e) => return Err(e),
    };
    let mut walk = commit_walk(&rs);
    count_of_walk(&mut walk)
}

/// The walk of a query's graph, grouped topologically, with nothing taken yet.
pub fn grouped_graph<'r>(rs: &EvaluatedRevset<'r>) -> (r: GraphWalk<'r>)
    ensures
        nodes_taken(r) == 0,
{
    topo_grouped(graph_walk(rs))
}

/// The walk of a query's commit ids, with nothing taken yet.
pub fn walk_ids<'r>(rs: &EvaluatedRevset<'r>) -> (r: CommitWalk<'r>)
    ensures
        ids_taken(r) == 0,
{
    commit_walk(rs)
}

} // verus!
