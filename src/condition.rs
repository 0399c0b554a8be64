use vstd::prelude::*;
use crate::tree::{Node, ProgramTree};
use crate::curry::trees_view;

verus! {

/// Creates a new coin.
pub const CREATE_COIN: i64 = 51;

/// Asserts the puzzle hash of the coin being spent.
pub const ASSERT_MY_PUZZLE_HASH: i64 = 72;

/// Updates the metadata and, when given a new updater, the updater of the store.
pub const UPDATE_METADATA: i64 = -24;

/// Melts the singleton that holds the store.
pub const MELT_SINGLETON: i64 = -113;

/// An effect emitted by a puzzle: an opcode and its arguments.
#[derive(Debug)]
pub struct Condition {
    pub opcode: i64,
    pub args: Vec<ProgramTree>,
}

/// The mathematical form of a condition.
pub struct ConditionModel {
    pub opcode: i64,
    pub args: Seq<Node>,
}

impl View for Condition {
    type V = ConditionModel;

    open spec fn view(&self) -> ConditionModel {
        ConditionModel { opcode: self.opcode, args: trees_view(self.args@) }
    }
}
/// The mathematical form of each condition, in order.
pub open spec fn conditions_view(cs: Seq<Condition>) -> Seq<ConditionModel> {
    cs.map_values(|c: Condition| c@)
}

/// Whether a tree is the empty leaf.
pub open spec fn is_nil(n: Node) -> bool {
    match n {
        Node::Leaf(bytes) => bytes.len() == 0,
        Node::Pair(_, _) => false,
    }
}

/// Whether a tree is the empty leaf.
pub fn tree_is_nil(t: &ProgramTree) -> (r: bool)
    ensures
        r == is_nil(t@),
{
    match t {
        ProgramTree::Leaf(bytes) => bytes.len() == 0,
        ProgramTree::Pair(_, _) => false,
    }
}

} // verus!
