use vstd::prelude::*;
use crate::tree::{node_of, Node, ProgramTree};
use crate::curry::trees_view;
use crate::condition::{
    conditions_view, is_nil, tree_is_nil, Condition, ConditionModel, CREATE_COIN, MELT_SINGLETON,
    UPDATE_METADATA,
};

verus! {

/// The curried arguments of the admin filter: the one puzzle it wraps.
#[derive(Debug, Clone, Copy, PartialEq, Eq)]
pub struct AdminFilterArgs<I> {
    pub inner_puzzle: I,
}

impl<I> AdminFilterArgs<I> {
    pub fn new(inner_puzzle: I) -> (r: Self)
        ensures
            r.inner_puzzle == inner_puzzle,
    {
        Self { inner_puzzle }
    }
}

/// The solution of the admin filter: the solution handed to the wrapped puzzle.
#[derive(Debug, Clone, PartialEq, Eq)]
pub struct AdminFilterSolution<I> {
    pub inner_solution: I,
}

/// The curried arguments of the writer filter: the one puzzle it wraps.
#[derive(Debug, Clone, Copy, PartialEq, Eq)]
pub struct WriterFilterArgs<I> {
    pub inner_puzzle: I,
}

impl<I> WriterFilterArgs<I> {
    pub fn new(inner_puzzle: I) -> (r: Self)
        ensures
            r.inner_puzzle == inner_puzzle,
    {
        Self { inner_puzzle }
    }
}

/// The solution of the writer filter: the solution handed to the wrapped puzzle.
#[derive(Debug, Clone, PartialEq, Eq)]
pub struct WriterFilterSolution<I> {
    pub inner_solution: I,
}

/// Why a filter rejected the conditions of its inner puzzle.
#[derive(Debug, Clone, Copy, PartialEq, Eq, Structural)]
pub enum FilterError {
    DisallowedCondition(i64),
}

/// The second item of a list, where the list has one.
pub open spec fn second_item(n: Node) -> Option<Node> {
    match n {
        Node::Pair(_, rest) => match *rest {
            Node::Pair(item, _) => Some(*item),
            Node::Leaf(_) => None,
        },
        Node::Leaf(_) => None,
    }
}

/// Whether a metadata update keeps the current updater: its second argument is a
/// list `(metadata updater ...)` whose updater is the empty leaf.
pub open spec fn keeps_updater(args: Seq<Node>) -> bool {
    args.len() > 1 && match second_item(args[1]) {
        Some(updater) => is_nil(updater),
        None => false,
    }
}

/// An admin may do anything but create coins, melt the store, or emit a metadata
/// update that does not keep the current updater. A metadata update whose second
/// argument has no second item names no updater at all and is refused too.
pub open spec fn admin_allows(c: ConditionModel) -> bool {
    !(c.opcode == CREATE_COIN || c.opcode == MELT_SINGLETON || (c.opcode == UPDATE_METADATA
        && !keeps_updater(c.args)))
}

/// A writer may do what an admin may, except emit metadata updates of any kind.
pub open spec fn writer_allows(c: ConditionModel) -> bool {
    !(c.opcode == CREATE_COIN || c.opcode == MELT_SINGLETON || c.opcode == UPDATE_METADATA)
}

/// The policy of the admin filter, or else of the writer filter.
pub open spec fn policy_allows(admin: bool, c: ConditionModel) -> bool {
    if admin {
        admin_allows(c)
    } else {
        writer_allows(c)
    }
}
/// The result of filtering `cs` by the admin policy (`admin`) or the writer policy:
/// the list unchanged when every condition is allowed, else the opcode of the first
/// one that is not.
pub open spec fn filtered(cs: Seq<ConditionModel>, r: Result<Seq<ConditionModel>, i64>, admin: bool) -> bool {
    match r {
        Ok(out) => out == cs && forall|i: int| 0 <= i < cs.len() ==> #[trigger] policy_allows(admin, cs[i]),
        Err(op) => exists|i: int|
            0 <= i < cs.len() && !#[trigger] policy_allows(admin, cs[i]) && op == cs[i].opcode && forall|j: int|
                0 <= j < i ==> policy_allows(admin, cs[j]),
    }
}
/// A filter's result, with each condition in its mathematical form.
pub open spec fn filter_outcome(r: Result<Vec<Condition>, FilterError>) -> Result<Seq<ConditionModel>, i64> {
    match r {
        Ok(v) => Ok(conditions_view(v@)),
        Err(FilterError::DisallowedCondition(op)) => Err(op),
    }
}

fn keeps_updater_exec(args: &Vec<ProgramTree>) -> (r: bool)
    ensures
        r == keeps_updater(trees_view(args@)),
{
    proof {
        reveal_with_fuel(node_of, 3);
    }
    if args.len() <= 1 {
        return false;
    }
    match &args[1] {
        ProgramTree::Pair(_, rest) => match &**rest {
            ProgramTree::Pair(updater, _) => tree_is_nil(updater),
            ProgramTree::Leaf(_) => false,
        },
        ProgramTree::Leaf(_) => false,
    }
}

fn admin_allows_exec(c: &Condition) -> (r: bool)
    ensures
        r == admin_allows(c@),
{
    !(c.opcode == CREATE_COIN || c.opcode == MELT_SINGLETON || (c.opcode == UPDATE_METADATA
        && !keeps_updater_exec(&c.args)))
}

fn writer_allows_exec(c: &Condition) -> (r: bool)
    ensures
        r == writer_allows(c@),
{
    !(c.opcode == CREATE_COIN || c.opcode == MELT_SINGLETON || c.opcode == UPDATE_METADATA)
}

fn run_filter(conditions: Vec<Condition>, admin: bool) -> (r: Result<Vec<Condition>, FilterError>)
    ensures
        filtered(conditions_view(conditions@), filter_outcome(r), admin),
{
    let ghost cs = conditions_view(conditions@);
    let mut i: usize = 0;
    while i < conditions.len()
        invariant
            i <= conditions@.len(),
            cs == conditions_view(conditions@),
            forall|j: int| 0 <= j < i ==> #[trigger] policy_allows(admin, cs[j]),
        decreases conditions@.len() - i,
    {
        let c = &conditions[i];
        let ok = if admin { admin_allows_exec(c) } else { writer_allows_exec(c) };
        if !ok {
            let op = c.opcode;
            assert(cs[i as int] == conditions@[i as int]@);
            assert(!policy_allows(admin, cs[i as int]));
            return Err(FilterError::DisallowedCondition(op));
        }
        i = i + 1;
    }
    Ok(conditions)
}

/// Passes the conditions of the admin's inner puzzle through unchanged, or rejects
/// them all at the first one an admin may not emit.
pub fn admin_filter(conditions: Vec<Condition>) -> (r: Result<Vec<Condition>, FilterError>)
    ensures
        filtered(conditions_view(conditions@), filter_outcome(r), true),
{
    run_filter(conditions, true)
}

/// Passes the conditions of the writer's inner puzzle through unchanged, or rejects
/// them all at the first one a writer may not emit.
pub fn writer_filter(conditions: Vec<Condition>) -> (r: Result<Vec<Condition>, FilterError>)
    ensures
        filtered(conditions_view(conditions@), filter_outcome(r), false),
{
    run_filter(conditions, false)
}

/// A list of conditions that an admin may all emit passes the admin filter unchanged.
pub proof fn lemma_admin_passes_allowed(cs: Seq<ConditionModel>, r: Result<Seq<ConditionModel>, i64>)
    requires
        forall|i: int| 0 <= i < cs.len() ==> admin_allows(#[trigger] cs[i]),
        filtered(cs, r, true),
    ensures
        r == Ok::<Seq<ConditionModel>, i64>(cs),
{
    if let Err(op) = r {
        let i = choose|i: int| 0 <= i < cs.len() && !#[trigger] policy_allows(true, cs[i]) && op == cs[i].opcode
            && forall|j: int| 0 <= j < i ==> policy_allows(true, cs[j]);
        assert(admin_allows(cs[i]));
    }
}

/// Whatever a writer may emit, an admin may emit too.
pub proof fn lemma_writer_within_admin(c: ConditionModel)
    ensures
        writer_allows(c) ==> admin_allows(c),
{
}

/// A list holding a condition that an admin may emit and a writer may not never
/// passes the writer filter.
pub proof fn lemma_writer_rejects_admin_only(cs: Seq<ConditionModel>, i: int, r: Result<Seq<ConditionModel>, i64>)
    requires
        0 <= i < cs.len(),
        admin_allows(cs[i]),
        !writer_allows(cs[i]),
        filtered(cs, r, false),
    ensures
        r is Err,
{
    assert(!policy_allows(false, cs[i]));
}

} // verus!
