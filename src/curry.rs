use vstd::prelude::*;
use crate::tree::{atom_hash, atom_hash_of, pair_hash, pair_hash_of, tree_hash_spec, Hash32, Node, ProgramTree};

verus! {

/// The leaf holding the single byte `b`.
pub open spec fn byte_leaf(b: u8) -> Node {
    Node::Leaf(seq![b])
}

/// The empty leaf, which ends a list.
pub open spec fn nil_leaf() -> Node {
    Node::Leaf(Seq::<u8>::empty())
}
/// The pair of two trees.
pub open spec fn pair_of(first: Node, rest: Node) -> Node {
    Node::Pair(Box::new(first), Box::new(rest))
}

/// The environment that binds `args[i..]` in front of the remaining solution:
/// `(c (q . args[i]) ... 1)`.
pub open spec fn bound_args(args: Seq<Node>, i: int) -> Node
    decreases args.len() - i,
{
    if i < 0 || i >= args.len() {
        byte_leaf(1)
    } else {
        pair_of(
            byte_leaf(4),
            pair_of(pair_of(byte_leaf(1), args[i]), pair_of(bound_args(args, i + 1), nil_leaf())),
        )
    }
}

/// The curried program `(a (q . program) (c (q . arg) ... 1))`.
pub open spec fn curried_tree(program: Node, args: Seq<Node>) -> Node {
    pair_of(
        byte_leaf(2),
        pair_of(pair_of(byte_leaf(1), program), pair_of(bound_args(args, 0), nil_leaf())),
    )
}

/// The hash of `bound_args`, given the hash of each argument.
pub open spec fn bound_args_hash(arg_hashes: Seq<Seq<u8>>, i: int) -> Seq<u8>
    decreases arg_hashes.len() - i,
{
    if i < 0 || i >= arg_hashes.len() {
        atom_hash_of(seq![1u8])
    } else {
        pair_hash_of(
            atom_hash_of(seq![4u8]),
            pair_hash_of(
                pair_hash_of(atom_hash_of(seq![1u8]), arg_hashes[i]),
                pair_hash_of(bound_args_hash(arg_hashes, i + 1), atom_hash_of(Seq::<u8>::empty())),
            ),
        )
    }
}

/// The hash of a curried program, from the template's hash and each argument's hash.
pub open spec fn curried_hash(program_hash: Seq<u8>, arg_hashes: Seq<Seq<u8>>) -> Seq<u8> {
    pair_hash_of(
        atom_hash_of(seq![2u8]),
        pair_hash_of(
            pair_hash_of(atom_hash_of(seq![1u8]), program_hash),
            pair_hash_of(bound_args_hash(arg_hashes, 0), atom_hash_of(Seq::<u8>::empty())),
        ),
    )
}
/// The byte sequences of a sequence of digests.
pub open spec fn hashes_view(hs: Seq<Hash32>) -> Seq<Seq<u8>> {
    hs.map_values(|h: Hash32| h@)
}
/// The hash of each tree, in order.
pub open spec fn nodes_hashes(ns: Seq<Node>) -> Seq<Seq<u8>> {
    ns.map_values(|n: Node| tree_hash_spec(n))
}
/// The shape of each executable tree, in order.
pub open spec fn trees_view(ts: Seq<ProgramTree>) -> Seq<Node> {
    ts.map_values(|t: ProgramTree| t@)
}

/// Hashing a curried program equals combining the template's hash with the
/// arguments' hashes: the template's body is never needed.
pub proof fn lemma_curried_hash_of_tree(program: Node, args: Seq<Node>)
    ensures
        tree_hash_spec(curried_tree(program, args)) == curried_hash(tree_hash_spec(program), nodes_hashes(args)),
{
    reveal_with_fuel(tree_hash_spec, 4);
    lemma_bound_args_hash(args, 0);
}

proof fn lemma_bound_args_hash(args: Seq<Node>, i: int)
    requires
        0 <= i <= args.len(),
    ensures
        tree_hash_spec(bound_args(args, i)) == bound_args_hash(nodes_hashes(args), i),
    decreases args.len() - i,
{
    reveal_with_fuel(tree_hash_spec, 4);
    if i < args.len() {
        lemma_bound_args_hash(args, i + 1);
        assert(nodes_hashes(args)[i] == tree_hash_spec(args[i]));
    }
}

pub(crate) fn byte_tree(b: u8) -> (r: ProgramTree)
    ensures
        r@ == byte_leaf(b),
{
    let v = vec![b];
    assert(v@ =~= seq![b]);
    ProgramTree::Leaf(v)
}

pub(crate) fn nil_tree() -> (r: ProgramTree)
    ensures
        r@ == nil_leaf(),
{
    let v: Vec<u8> = Vec::new();
    assert(v@ =~= Seq::<u8>::empty());
    ProgramTree::Leaf(v)
}

pub(crate) fn pair_tree(first: ProgramTree, rest: ProgramTree) -> (r: ProgramTree)
    ensures
        r@ == pair_of(first@, rest@),
{
    ProgramTree::Pair(Box::new(first), Box::new(rest))
}

/// Builds the environment that binds `args`, in order, ahead of the remaining solution.
pub fn bind_args(args: Vec<ProgramTree>) -> (r: ProgramTree)
    ensures
        r@ == bound_args(trees_view(args@), 0),
{
    let ghost all = trees_view(args@);
    let mut rest = args;
    let mut env = byte_tree(1);
    while rest.len() > 0
        invariant
            rest@.len() <= all.len(),
            trees_view(rest@) =~= all.subrange(0, rest@.len() as int),
            env@ == bound_args(all, rest@.len() as int),
        decreases rest@.len(),
    {
        let ghost before = rest@;
        let arg = rest.pop().unwrap();
        assert(trees_view(rest@) =~= all.subrange(0, rest@.len() as int)) by {
            assert(rest@ =~= before.subrange(0, before.len() - 1));
        };
        assert(arg@ == all[rest@.len() as int]) by {
            assert(trees_view(before)[before.len() - 1] == all.subrange(0, before.len() as int)[before.len() - 1]);
        };
        let quoted = pair_tree(byte_tree(1), arg);
        env = pair_tree(byte_tree(4), pair_tree(quoted, pair_tree(env, nil_tree())));
    }
    env
}

/// Builds the curried program that applies `program` to `args`, in order, ahead of
/// the remaining solution.
pub fn curry(program: ProgramTree, args: Vec<ProgramTree>) -> (r: ProgramTree)
    ensures
        r@ == curried_tree(program@, trees_view(args@)),
{
    let env = bind_args(args);
    pair_tree(byte_tree(2), pair_tree(pair_tree(byte_tree(1), program), pair_tree(env, nil_tree())))
}

/// Computes the hash of the curried program from the template's hash and each
/// argument's hash, in order.
pub fn curry_tree_hash(program_hash: &Hash32, arg_hashes: &Vec<Hash32>) -> (r: Hash32)
    ensures
        r@ == curried_hash(program_hash@, hashes_view(arg_hashes@)),
{
    let ghost hs = hashes_view(arg_hashes@);
    let nil = atom_hash(&[]);
    let op_q = atom_hash(&[1u8]);
    let op_a = atom_hash(&[2u8]);
    let op_c = atom_hash(&[4u8]);
    proof {
        assert([1u8]@ =~= seq![1u8]);
        assert([2u8]@ =~= seq![2u8]);
        assert([4u8]@ =~= seq![4u8]);
        let e: [u8; 0] = [];
        assert(e@ =~= Seq::<u8>::empty());
    }
    let mut env = op_q;
    let mut i: usize = arg_hashes.len();
    while i > 0
        invariant
            i <= arg_hashes@.len(),
            hs == hashes_view(arg_hashes@),
            nil@ == atom_hash_of(Seq::<u8>::empty()),
            op_q@ == atom_hash_of(seq![1u8]),
            op_c@ == atom_hash_of(seq![4u8]),
            env@ == bound_args_hash(hs, i as int),
        decreases i,
    {
        i = i - 1;
        let quoted = pair_hash(&op_q, &arg_hashes[i]);
        let tail = pair_hash(&env, &nil);
        let body = pair_hash(&quoted, &tail);
        env = pair_hash(&op_c, &body);
    }
    let quoted_program = pair_hash(&op_q, program_hash);
    let tail = pair_hash(&env, &nil);
    let body = pair_hash(&quoted_program, &tail);
    pair_hash(&op_a, &body)
}

} // verus!
