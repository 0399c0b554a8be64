use vstd::prelude::*;
use crate::tree::{atom_hash, atom_hash_of, hash_eq, hash_to_vec, tree_hash, tree_hash_spec, Hash32, Node, ProgramTree};
use crate::curry::{trees_view, curried_hash, curry_tree_hash, hashes_view};
use crate::merkle::{leaf_level, merkle_root, path_of, lemma_member_proof_holds, proof_holds, verify_proof, MerkleProof};
use crate::condition::{conditions_view, Condition, ConditionModel, ASSERT_MY_PUZZLE_HASH};
use crate::puzzles::DELEGATION_LAYER_PUZZLE_HASH;

verus! {

/// The curried arguments of the delegation layer. With `inner_puzzle_hash` the layer
/// has a default inner puzzle; without it, every spend must carry a Merkle proof.
#[derive(Debug, Clone, Copy, PartialEq, Eq)]
pub struct DelegationLayerArgs {
    pub mod_hash: Hash32,
    pub inner_puzzle_hash: Option<Hash32>,
    pub merkle_root: Hash32,
}

/// The solution of the delegation layer: an optional proof that the revealed puzzle
/// is authorized, the puzzle, and the solution handed to it.
#[derive(Debug)]
pub struct DelegationLayerSolution {
    pub merkle_proof: Option<MerkleProof>,
    pub puzzle_reveal: ProgramTree,
    pub puzzle_solution: ProgramTree,
}

/// Why the delegation layer rejected a spend.
#[derive(Debug, Clone, Copy, PartialEq, Eq, Structural)]
pub enum DelegationError {
    InvalidMerkleProof,
    DefaultPathUnsupported,
    DefaultPuzzleMismatch,
}

/// The hashes of the curried arguments, in field order.
pub open spec fn layer_arg_hashes(a: DelegationLayerArgs) -> Seq<Seq<u8>> {
    match a.inner_puzzle_hash {
        Some(h) => seq![atom_hash_of(a.mod_hash@), atom_hash_of(h@), atom_hash_of(a.merkle_root@)],
        None => seq![atom_hash_of(a.mod_hash@), atom_hash_of(a.merkle_root@)],
    }
}

/// The puzzle hash of a delegation layer: its template curried with its arguments.
pub open spec fn layer_puzzle_hash(a: DelegationLayerArgs) -> Seq<u8> {
    curried_hash(a.mod_hash@, layer_arg_hashes(a))
}

/// The condition by which a spend asserts its own puzzle hash.
pub open spec fn self_assertion(puzzle_hash: Seq<u8>) -> ConditionModel {
    ConditionModel { opcode: ASSERT_MY_PUZZLE_HASH, args: seq![Node::Leaf(puzzle_hash)] }
}

/// What the delegation layer yields for a spend whose revealed puzzle produced `inner`.
pub open spec fn layer_outcome(
    a: DelegationLayerArgs,
    given: Option<(nat, Seq<Seq<u8>>)>,
    reveal: Node,
    inner: Seq<ConditionModel>,
) -> Result<Seq<ConditionModel>, DelegationError> {
    match given {
        Some((index, siblings)) => {
            if proof_holds(tree_hash_spec(reveal), index, siblings, a.merkle_root@) {
                Ok(seq![self_assertion(layer_puzzle_hash(a))] + inner)
            } else {
                Err(DelegationError::InvalidMerkleProof)
            }
        },
        None => match a.inner_puzzle_hash {
            None => Err(DelegationError::DefaultPathUnsupported),
            Some(h) => {
                if tree_hash_spec(reveal) == h@ {
                    Ok(inner)
                } else {
                    Err(DelegationError::DefaultPuzzleMismatch)
                }
            },
        },
    }
}
/// The index and sibling hashes of an optional proof.
pub open spec fn proof_view(p: Option<MerkleProof>) -> Option<(nat, Seq<Seq<u8>>)> {
    match p {
        Some(p) => Some((p.index as nat, hashes_view(p.siblings@))),
        None => None,
    }
}
/// The layer's result, with each condition in its mathematical form.
pub open spec fn outcome_view(r: Result<Vec<Condition>, DelegationError>) -> Result<Seq<ConditionModel>, DelegationError> {
    match r {
        Ok(v) => Ok(conditions_view(v@)),
        Err(e) => Err(e),
    }
}

impl DelegationLayerArgs {
    /// The arguments of a layer with a default inner puzzle, over this layer's template.
    pub fn new(inner_puzzle_hash: Hash32, merkle_root: Hash32) -> (r: Self)
        ensures
            r.mod_hash == DELEGATION_LAYER_PUZZLE_HASH,
            r.inner_puzzle_hash == Some(inner_puzzle_hash),
            r.merkle_root == merkle_root,
    {
        Self { mod_hash: DELEGATION_LAYER_PUZZLE_HASH, inner_puzzle_hash: Some(inner_puzzle_hash), merkle_root }
    }

    /// The arguments of a layer without a default inner puzzle, over the template `mod_hash`.
    pub fn new_without_default(mod_hash: Hash32, merkle_root: Hash32) -> (r: Self)
        ensures
            r.mod_hash == mod_hash,
            r.inner_puzzle_hash.is_none(),
            r.merkle_root == merkle_root,
    {
        Self { mod_hash, inner_puzzle_hash: None, merkle_root }
    }

    /// The puzzle hash of this layer.
    pub fn puzzle_hash(&self) -> (r: Hash32)
        ensures
            r@ == layer_puzzle_hash(*self),
    {
        let mut hashes: Vec<Hash32> = Vec::new();
        hashes.push(atom_hash(&self.mod_hash));
        match &self.inner_puzzle_hash {
            Some(h) => hashes.push(atom_hash(h)),
            None => {},
        }
        hashes.push(atom_hash(&self.merkle_root));
        assert(hashes_view(hashes@) =~= layer_arg_hashes(*self));
        curry_tree_hash(&self.mod_hash, &hashes)
    }

    /// The puzzle hash of the layer that `new` builds from the same values.
    pub fn curry_tree_hash(inner_puzzle_hash: Hash32, merkle_root: Hash32) -> (r: Hash32)
        ensures
            r@ == layer_puzzle_hash(
                DelegationLayerArgs {
                    mod_hash: DELEGATION_LAYER_PUZZLE_HASH,
                    inner_puzzle_hash: Some(inner_puzzle_hash),
                    merkle_root,
                },
            ),
    {
        Self::new(inner_puzzle_hash, merkle_root).puzzle_hash()
    }
}

/// Decides a spend of the delegation layer, given the conditions `inner` that the
/// revealed puzzle produced on its solution. With a proof, the revealed puzzle's hash
/// must be a member of the committed set, and the spend then also asserts its own
/// puzzle hash; without one, the revealed puzzle must be the default.
pub fn run_delegation_layer(
    args: &DelegationLayerArgs,
    solution: &DelegationLayerSolution,
    inner: Vec<Condition>,
) -> (r: Result<Vec<Condition>, DelegationError>)
    ensures
        outcome_view(r) == layer_outcome(
            *args,
            proof_view(solution.merkle_proof),
            solution.puzzle_reveal@,
            conditions_view(inner@),
        ),
{
    let reveal_hash = tree_hash(&solution.puzzle_reveal);
    match &solution.merkle_proof {
        Some(proof) => {
            if verify_proof(&reveal_hash, proof, &args.merkle_root) {
                let own = args.puzzle_hash();
                let leaf = ProgramTree::Leaf(hash_to_vec(&own));
                let mut cond_args: Vec<ProgramTree> = Vec::new();
                cond_args.push(leaf);
                let assertion = Condition { opcode: ASSERT_MY_PUZZLE_HASH, args: cond_args };
                assert(trees_view(cond_args@) =~= seq![Node::Leaf(own@)]);
                assert(assertion@ == self_assertion(layer_puzzle_hash(*args)));
                let ghost inner_view = conditions_view(inner@);
                let mut out: Vec<Condition> = Vec::new();
                out.push(assertion);
                let mut rest = inner;
                out.append(&mut rest);
                assert(conditions_view(out@) =~= seq![self_assertion(layer_puzzle_hash(*args))] + inner_view);
                Ok(out)
            } else {
                Err(DelegationError::InvalidMerkleProof)
            }
        },
        None => match &args.inner_puzzle_hash {
            None => Err(DelegationError::DefaultPathUnsupported),
            Some(h) => {
                if hash_eq(&reveal_hash, h) {
                    Ok(inner)
                } else {
                    Err(DelegationError::DefaultPuzzleMismatch)
                }
            },
        },
    }
}

/// A spend whose revealed puzzle hashes to a member of the committed set, with that
/// member's own proof, is accepted: the inner conditions come out behind the layer's
/// assertion of its own puzzle hash. A proof that does not hold is rejected as invalid.
pub proof fn lemma_proof_path(
    a: DelegationLayerArgs,
    leaves: Seq<Seq<u8>>,
    i: int,
    reveal: Node,
    siblings: Seq<Seq<u8>>,
    index: nat,
    inner: Seq<ConditionModel>,
)
    requires
        0 <= i < leaves.len(),
        a.merkle_root@ == merkle_root(leaves),
        leaves[i] == tree_hash_spec(reveal),
    ensures
        layer_outcome(a, Some((i as nat, path_of(leaf_level(leaves), i))), reveal, inner) == Ok::<
            Seq<ConditionModel>,
            DelegationError,
        >(seq![self_assertion(layer_puzzle_hash(a))] + inner),
        !proof_holds(tree_hash_spec(reveal), index, siblings, a.merkle_root@) ==> layer_outcome(
            a,
            Some((index, siblings)),
            reveal,
            inner,
        ) == Err::<Seq<ConditionModel>, DelegationError>(DelegationError::InvalidMerkleProof),
{
    lemma_member_proof_holds(leaves, i);
}

/// Without a proof, a layer with a default accepts exactly the default puzzle and
/// passes its conditions through; any other puzzle is a mismatch. A layer without a
/// default refuses every spend that has no proof.
pub proof fn lemma_default_path(a: DelegationLayerArgs, reveal: Node, inner: Seq<ConditionModel>)
    ensures
        a.inner_puzzle_hash matches Some(h) && tree_hash_spec(reveal) == h@ ==> layer_outcome(a, None, reveal, inner)
            == Ok::<Seq<ConditionModel>, DelegationError>(inner),
        a.inner_puzzle_hash matches Some(h) && tree_hash_spec(reveal) != h@ ==> layer_outcome(a, None, reveal, inner)
            == Err::<Seq<ConditionModel>, DelegationError>(DelegationError::DefaultPuzzleMismatch),
        a.inner_puzzle_hash.is_none() ==> layer_outcome(a, None, reveal, inner) == Err::<
            Seq<ConditionModel>,
            DelegationError,
        >(DelegationError::DefaultPathUnsupported),
{
}

} // verus!
