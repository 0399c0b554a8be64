use clvm_utils::TreeHash;
use clvmr::allocator::{Allocator, NodePtr, SExp};
use dl_puzzles::curry::{curry, curry_tree_hash};
use dl_puzzles::delegation::DelegationLayerArgs;
use dl_puzzles::puzzles::{
    ADMIN_FILTER_PUZZLE, ADMIN_FILTER_PUZZLE_HASH, DELEGATION_LAYER_PUZZLE, DELEGATION_LAYER_PUZZLE_HASH,
    DL_METADATA_UPDATER_PUZZLE, DL_METADATA_UPDATER_PUZZLE_HASH, WRITER_FILTER_PUZZLE, WRITER_FILTER_PUZZLE_HASH,
};
use dl_puzzles::tree::{tree_hash, ProgramTree};

fn to_tree(a: &Allocator, n: NodePtr) -> ProgramTree {
    match a.sexp(n) {
        SExp::Atom => ProgramTree::Leaf(a.atom(n).as_ref().to_vec()),
        SExp::Pair(first, rest) => ProgramTree::Pair(Box::new(to_tree(a, first)), Box::new(to_tree(a, rest))),
    }
}

fn parse(bytes: &[u8]) -> ProgramTree {
    let mut a = Allocator::new();
    let ptr = clvmr::serde::node_from_bytes(&mut a, bytes).unwrap();
    to_tree(&a, ptr)
}

fn clvm_hash(bytes: &[u8]) -> TreeHash {
    let mut a = Allocator::new();
    let ptr = clvmr::serde::node_from_bytes(&mut a, bytes).unwrap();
    clvm_utils::tree_hash(&a, ptr)
}

fn leaf(bytes: &[u8]) -> ProgramTree {
    ProgramTree::Leaf(bytes.to_vec())
}

fn pair(a: ProgramTree, b: ProgramTree) -> ProgramTree {
    ProgramTree::Pair(Box::new(a), Box::new(b))
}

#[test]
fn puzzle_hashes() {
    assert_eq!(TreeHash::new(DELEGATION_LAYER_PUZZLE_HASH), clvm_hash(&DELEGATION_LAYER_PUZZLE));
    assert_eq!(TreeHash::new(ADMIN_FILTER_PUZZLE_HASH), clvm_hash(&ADMIN_FILTER_PUZZLE));
    assert_eq!(TreeHash::new(WRITER_FILTER_PUZZLE_HASH), clvm_hash(&WRITER_FILTER_PUZZLE));
    assert_eq!(TreeHash::new(DL_METADATA_UPDATER_PUZZLE_HASH), clvm_hash(&DL_METADATA_UPDATER_PUZZLE));
}

#[test]
fn own_hasher_matches_published_hashes() {
    assert_eq!(tree_hash(&parse(&DELEGATION_LAYER_PUZZLE)), DELEGATION_LAYER_PUZZLE_HASH);
    assert_eq!(tree_hash(&parse(&ADMIN_FILTER_PUZZLE)), ADMIN_FILTER_PUZZLE_HASH);
    assert_eq!(tree_hash(&parse(&WRITER_FILTER_PUZZLE)), WRITER_FILTER_PUZZLE_HASH);
    assert_eq!(tree_hash(&parse(&DL_METADATA_UPDATER_PUZZLE)), DL_METADATA_UPDATER_PUZZLE_HASH);
}

#[test]
fn empty_leaf_hash() {
    let expected: [u8; 32] = [
        0x4b, 0xf5, 0x12, 0x2f, 0x34, 0x45, 0x54, 0xc5, 0x3b, 0xde, 0x2e, 0xbb, 0x8c, 0xd2, 0xb7, 0xe3, 0xd1, 0x60,
        0x0a, 0xd6, 0x31, 0xc3, 0x85, 0xa5, 0xd7, 0xcc, 0xe2, 0x3c, 0x77, 0x85, 0x45, 0x9a,
    ];
    assert_eq!(tree_hash(&leaf(&[])), expected);
}

#[test]
fn leaf_and_pair_hashes_differ() {
    let l = tree_hash(&leaf(&[1, 2]));
    let p = tree_hash(&pair(leaf(&[1]), leaf(&[2])));
    assert_ne!(l, p);
    let swapped = tree_hash(&pair(leaf(&[2]), leaf(&[1])));
    assert_ne!(p, swapped);
}

#[test]
fn curried_hash_matches_built_tree() {
    let template = parse(&ADMIN_FILTER_PUZZLE);
    let args = vec![leaf(&[7, 8, 9]), pair(leaf(&[1]), leaf(&[])), leaf(&[])];
    let arg_hashes: Vec<[u8; 32]> = args.iter().map(tree_hash).collect();
    let built = curry(parse(&ADMIN_FILTER_PUZZLE), args);
    let by_hash = curry_tree_hash(&tree_hash(&template), &arg_hashes);
    assert_eq!(tree_hash(&built), by_hash);
    let lib: Vec<TreeHash> = arg_hashes.iter().map(|h| TreeHash::new(*h)).collect();
    assert_eq!(
        clvm_utils::curry_tree_hash(TreeHash::new(ADMIN_FILTER_PUZZLE_HASH), &lib).to_bytes(),
        by_hash
    );
}

#[test]
fn curried_hash_depends_on_argument_order() {
    let a = tree_hash(&leaf(&[1]));
    let b = tree_hash(&leaf(&[2]));
    let t = DELEGATION_LAYER_PUZZLE_HASH;
    assert_ne!(curry_tree_hash(&t, &vec![a, b]), curry_tree_hash(&t, &vec![b, a]));
    assert_ne!(curry_tree_hash(&t, &vec![]), curry_tree_hash(&t, &vec![a]));
}

#[test]
fn curry_without_arguments() {
    let built = curry(leaf(&[5]), vec![]);
    let expected = pair(leaf(&[2]), pair(pair(leaf(&[1]), leaf(&[5])), pair(leaf(&[1]), leaf(&[]))));
    assert_eq!(tree_hash(&built), tree_hash(&expected));
}

#[test]
fn layer_hash_matches_curried_puzzle_tree() {
    let inner = [0x21u8; 32];
    let root = [0x42u8; 32];
    let args = vec![
        ProgramTree::Leaf(DELEGATION_LAYER_PUZZLE_HASH.to_vec()),
        ProgramTree::Leaf(inner.to_vec()),
        ProgramTree::Leaf(root.to_vec()),
    ];
    let full = curry(parse(&DELEGATION_LAYER_PUZZLE), args);
    assert_eq!(tree_hash(&full), DelegationLayerArgs::curry_tree_hash(inner, root));
}
