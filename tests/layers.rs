use dl_puzzles::condition::{Condition, ASSERT_MY_PUZZLE_HASH, CREATE_COIN, MELT_SINGLETON, UPDATE_METADATA};
use dl_puzzles::curry::curry_tree_hash;
use dl_puzzles::delegation::{run_delegation_layer, DelegationError, DelegationLayerArgs, DelegationLayerSolution};
use dl_puzzles::encode::{decode_index, encode_index, MalformedEncoding};
use dl_puzzles::filter::{
    admin_filter, writer_filter, AdminFilterArgs, AdminFilterSolution, FilterError, WriterFilterArgs,
    WriterFilterSolution,
};
use dl_puzzles::merkle::{build_proof, build_root, verify_proof, MerkleProof};
use dl_puzzles::puzzles::DELEGATION_LAYER_PUZZLE_HASH;
use dl_puzzles::tree::{tree_hash, ProgramTree};

fn leaf(bytes: &[u8]) -> ProgramTree {
    ProgramTree::Leaf(bytes.to_vec())
}

fn pair(a: ProgramTree, b: ProgramTree) -> ProgramTree {
    ProgramTree::Pair(Box::new(a), Box::new(b))
}

fn same(a: &ProgramTree, b: &ProgramTree) -> bool {
    match (a, b) {
        (ProgramTree::Leaf(x), ProgramTree::Leaf(y)) => x == y,
        (ProgramTree::Pair(a1, a2), ProgramTree::Pair(b1, b2)) => same(a1, b1) && same(a2, b2),
        _ => false,
    }
}

fn leaves(n: u8) -> Vec<[u8; 32]> {
    (0..n).map(|i| [i.wrapping_mul(37).wrapping_add(1); 32]).collect()
}

fn cond(opcode: i64, args: Vec<ProgramTree>) -> Condition {
    Condition { opcode, args }
}

fn metadata_update(updater: ProgramTree) -> Condition {
    cond(UPDATE_METADATA, vec![leaf(&[11]), pair(leaf(&[1, 2, 3]), pair(updater, leaf(&[])))])
}

fn puzzle(n: u8) -> ProgramTree {
    pair(leaf(&[1]), leaf(&[n]))
}

#[test]
fn every_member_proof_verifies() {
    for n in 1..=9u8 {
        let ls = leaves(n);
        let root = build_root(&ls).unwrap();
        for i in 0..n as u32 {
            let p = build_proof(&ls, i).unwrap();
            assert_eq!(p.index, i);
            assert!(verify_proof(&ls[i as usize], &p, &root), "n={} i={}", n, i);
        }
        assert!(build_proof(&ls, n as u32).is_none());
    }
}

#[test]
fn empty_set_has_no_root() {
    assert!(build_root(&vec![]).is_none());
    assert!(build_proof(&vec![], 0).is_none());
}

#[test]
fn single_leaf_root_is_leaf_hash() {
    let ls = leaves(1);
    let root = build_root(&ls).unwrap();
    assert_eq!(root, tree_hash(&ProgramTree::Leaf(ls[0].to_vec())));
    assert!(build_proof(&ls, 0).unwrap().siblings.is_empty());
}

#[test]
fn two_leaf_root_is_pair_hash() {
    let ls = leaves(2);
    let root = build_root(&ls).unwrap();
    let expected = tree_hash(&pair(ProgramTree::Leaf(ls[0].to_vec()), ProgramTree::Leaf(ls[1].to_vec())));
    assert_eq!(root, expected);
}

#[test]
fn corrupted_proofs_fail() {
    let ls = leaves(6);
    let root = build_root(&ls).unwrap();
    for i in 0..6u32 {
        let p = build_proof(&ls, i).unwrap();
        for s in 0..p.siblings.len() {
            for bit in [0usize, 100, 255] {
                let mut bad = p.clone();
                bad.siblings[s][bit / 8] ^= 1 << (bit % 8);
                assert!(!verify_proof(&ls[i as usize], &bad, &root));
            }
        }
        for bit in 0..4u32 {
            let bad = MerkleProof { index: i ^ (1 << bit), siblings: p.siblings.clone() };
            assert!(!verify_proof(&ls[i as usize], &bad, &root));
        }
        let mut short = p.clone();
        short.siblings.pop();
        assert!(!verify_proof(&ls[i as usize], &short, &root));
        assert!(!verify_proof(&ls[(i as usize + 1) % 6], &p, &root));
    }
}

#[test]
fn proof_path_accepts_member_and_asserts_own_hash() {
    let reveal = puzzle(3);
    let reveal_hash = tree_hash(&reveal);
    let ls = vec![[9u8; 32], reveal_hash, [7u8; 32]];
    let root = build_root(&ls).unwrap();
    let args = DelegationLayerArgs::new([5u8; 32], root);
    let proof = build_proof(&ls, 1).unwrap();
    let solution = DelegationLayerSolution { merkle_proof: Some(proof), puzzle_reveal: reveal, puzzle_solution: leaf(&[]) };
    let inner = vec![cond(60, vec![leaf(&[1, 2])])];
    let out = run_delegation_layer(&args, &solution, inner).unwrap();
    assert_eq!(out.len(), 2);
    assert_eq!(out[0].opcode, ASSERT_MY_PUZZLE_HASH);
    let own = DelegationLayerArgs::curry_tree_hash([5u8; 32], root);
    assert!(same(&out[0].args[0], &ProgramTree::Leaf(own.to_vec())));
    assert_eq!(out[1].opcode, 60);
}

#[test]
fn proof_path_rejects_bad_proof() {
    let reveal = puzzle(3);
    let ls = vec![[9u8; 32], tree_hash(&reveal), [7u8; 32]];
    let root = build_root(&ls).unwrap();
    let args = DelegationLayerArgs::new([5u8; 32], root);
    let proof = build_proof(&ls, 0).unwrap();
    let solution = DelegationLayerSolution { merkle_proof: Some(proof), puzzle_reveal: reveal, puzzle_solution: leaf(&[]) };
    let r = run_delegation_layer(&args, &solution, vec![]);
    assert_eq!(r.unwrap_err(), DelegationError::InvalidMerkleProof);
}

#[test]
fn default_path_outcomes() {
    let reveal = puzzle(4);
    let default_hash = tree_hash(&reveal);
    let args = DelegationLayerArgs::new(default_hash, [1u8; 32]);
    let ok = DelegationLayerSolution { merkle_proof: None, puzzle_reveal: puzzle(4), puzzle_solution: leaf(&[]) };
    let out = run_delegation_layer(&args, &ok, vec![cond(51, vec![])]).unwrap();
    assert_eq!(out.len(), 1);
    assert_eq!(out[0].opcode, 51);
    let other = DelegationLayerSolution { merkle_proof: None, puzzle_reveal: puzzle(5), puzzle_solution: leaf(&[]) };
    assert_eq!(run_delegation_layer(&args, &other, vec![]).unwrap_err(), DelegationError::DefaultPuzzleMismatch);
    let no_default = DelegationLayerArgs::new_without_default(DELEGATION_LAYER_PUZZLE_HASH, [1u8; 32]);
    assert_eq!(run_delegation_layer(&no_default, &ok, vec![]).unwrap_err(), DelegationError::DefaultPathUnsupported);
}

#[test]
fn layer_hash_is_curried_template() {
    let args = DelegationLayerArgs::new([2u8; 32], [3u8; 32]);
    assert_eq!(args.mod_hash, DELEGATION_LAYER_PUZZLE_HASH);
    let arg_hashes: Vec<[u8; 32]> = [args.mod_hash, [2u8; 32], [3u8; 32]]
        .iter()
        .map(|h| tree_hash(&ProgramTree::Leaf(h.to_vec())))
        .collect();
    let expected = curry_tree_hash(&DELEGATION_LAYER_PUZZLE_HASH, &arg_hashes);
    assert_eq!(DelegationLayerArgs::curry_tree_hash([2u8; 32], [3u8; 32]), expected);
    assert_eq!(args.puzzle_hash(), expected);
    let lib: Vec<clvm_utils::TreeHash> = arg_hashes.iter().map(|h| clvm_utils::TreeHash::new(*h)).collect();
    let by_lib = clvm_utils::curry_tree_hash(clvm_utils::TreeHash::new(DELEGATION_LAYER_PUZZLE_HASH), &lib);
    assert_eq!(by_lib.to_bytes(), expected);
}

#[test]
fn admin_filter_passes_allowed_conditions() {
    let cs = vec![cond(60, vec![]), metadata_update(leaf(&[])), cond(73, vec![leaf(&[9])])];
    let out = admin_filter(cs).unwrap();
    assert_eq!(out.iter().map(|c| c.opcode).collect::<Vec<_>>(), vec![60, UPDATE_METADATA, 73]);
    assert!(admin_filter(vec![]).unwrap().is_empty());
}

#[test]
fn admin_filter_rejects_first_disallowed() {
    let cs = vec![cond(60, vec![]), cond(MELT_SINGLETON, vec![]), cond(CREATE_COIN, vec![])];
    assert_eq!(admin_filter(cs).unwrap_err(), FilterError::DisallowedCondition(MELT_SINGLETON));
    let cs = vec![cond(UPDATE_METADATA, vec![leaf(&[1]), leaf(&[2])])];
    assert_eq!(admin_filter(cs).unwrap_err(), FilterError::DisallowedCondition(UPDATE_METADATA));
}

#[test]
fn admin_metadata_update_keeping_updater_passes() {
    let out = admin_filter(vec![metadata_update(leaf(&[]))]).unwrap();
    assert_eq!(out.len(), 1);
    let bare = cond(UPDATE_METADATA, vec![leaf(&[]), pair(leaf(&[]), pair(leaf(&[]), leaf(&[])))]);
    assert!(admin_filter(vec![bare]).is_ok());
}

#[test]
fn admin_metadata_update_changing_or_missing_updater_fails() {
    let new_updater = metadata_update(leaf(&[0x0b]));
    assert_eq!(admin_filter(vec![new_updater]).unwrap_err(), FilterError::DisallowedCondition(UPDATE_METADATA));
    let pair_updater = metadata_update(pair(leaf(&[1]), leaf(&[])));
    assert_eq!(admin_filter(vec![pair_updater]).unwrap_err(), FilterError::DisallowedCondition(UPDATE_METADATA));
    for args in [
        vec![],
        vec![leaf(&[1])],
        vec![leaf(&[1]), leaf(&[])],
        vec![leaf(&[1]), leaf(&[5])],
        vec![leaf(&[1]), pair(leaf(&[5]), leaf(&[]))],
    ] {
        assert_eq!(
            admin_filter(vec![cond(UPDATE_METADATA, args)]).unwrap_err(),
            FilterError::DisallowedCondition(UPDATE_METADATA)
        );
    }
}

#[test]
fn writer_filter_rejects_admin_only_condition() {
    let cs = vec![cond(60, vec![]), metadata_update(leaf(&[]))];
    assert!(admin_filter(vec![cond(60, vec![]), metadata_update(leaf(&[]))]).is_ok());
    assert!(writer_filter(vec![cond(60, vec![])]).is_ok());
    assert_eq!(writer_filter(cs).unwrap_err(), FilterError::DisallowedCondition(UPDATE_METADATA));
    assert_eq!(
        writer_filter(vec![cond(CREATE_COIN, vec![])]).unwrap_err(),
        FilterError::DisallowedCondition(CREATE_COIN)
    );
}

#[test]
fn filter_args_round_trip() {
    let inner = pair(leaf(&[1]), pair(leaf(&[2, 3]), leaf(&[])));
    let t = AdminFilterArgs::new(pair(leaf(&[1]), pair(leaf(&[2, 3]), leaf(&[])))).to_tree();
    let back = AdminFilterArgs::from_tree(t).unwrap();
    assert!(same(&back.inner_puzzle, &inner));
    let t = WriterFilterArgs::new(leaf(&[7])).to_tree();
    assert!(same(&WriterFilterArgs::from_tree(t).unwrap().inner_puzzle, &leaf(&[7])));
    let t = AdminFilterSolution { inner_solution: leaf(&[4]) }.to_tree();
    assert!(same(&t, &pair(leaf(&[4]), leaf(&[]))));
    assert!(same(&AdminFilterSolution::from_tree(t).unwrap().inner_solution, &leaf(&[4])));
    let t = WriterFilterSolution { inner_solution: leaf(&[]) }.to_tree();
    assert!(same(&WriterFilterSolution::from_tree(t).unwrap().inner_solution, &leaf(&[])));
}

#[test]
fn filter_args_encoding_shape() {
    let t = AdminFilterArgs::new(leaf(&[7])).to_tree();
    let expected = pair(leaf(&[4]), pair(pair(leaf(&[1]), leaf(&[7])), pair(leaf(&[1]), leaf(&[]))));
    assert!(same(&t, &expected));
}

#[test]
fn malformed_encodings_are_rejected() {
    assert_eq!(AdminFilterArgs::from_tree(leaf(&[2])).unwrap_err(), MalformedEncoding);
    assert_eq!(WriterFilterSolution::from_tree(leaf(&[])).unwrap_err(), MalformedEncoding);
    assert_eq!(DelegationLayerArgs::from_tree(leaf(&[1])).unwrap_err(), MalformedEncoding);
    assert_eq!(DelegationLayerSolution::from_tree(pair(leaf(&[]), leaf(&[]))).unwrap_err(), MalformedEncoding);
}

#[test]
fn layer_args_round_trip() {
    let a = DelegationLayerArgs::new([2u8; 32], [3u8; 32]);
    assert_eq!(DelegationLayerArgs::from_tree(a.to_tree()).unwrap(), a);
    let b = DelegationLayerArgs::new_without_default([8u8; 32], [3u8; 32]);
    assert_eq!(DelegationLayerArgs::from_tree(b.to_tree()).unwrap(), b);
}

#[test]
fn layer_solution_round_trip() {
    for index in [0u32, 1, 127, 128, 255, 256, 40000, 0x7fff_ffff, 0x8000_0000, u32::MAX] {
        let s = DelegationLayerSolution {
            merkle_proof: Some(MerkleProof { index, siblings: vec![[1u8; 32], [2u8; 32]] }),
            puzzle_reveal: puzzle(1),
            puzzle_solution: leaf(&[5]),
        };
        let back = DelegationLayerSolution::from_tree(s.to_tree()).unwrap();
        assert_eq!(back.merkle_proof, Some(MerkleProof { index, siblings: vec![[1u8; 32], [2u8; 32]] }));
        assert!(same(&back.puzzle_reveal, &puzzle(1)));
        assert!(same(&back.puzzle_solution, &leaf(&[5])));
    }
    let s = DelegationLayerSolution { merkle_proof: None, puzzle_reveal: leaf(&[]), puzzle_solution: leaf(&[]) };
    assert_eq!(DelegationLayerSolution::from_tree(s.to_tree()).unwrap().merkle_proof, None);
}

#[test]
fn index_atoms() {
    assert_eq!(encode_index(0), Vec::<u8>::new());
    assert_eq!(encode_index(1), vec![1]);
    assert_eq!(encode_index(127), vec![0x7f]);
    assert_eq!(encode_index(128), vec![0x00, 0x80]);
    assert_eq!(encode_index(256), vec![0x01, 0x00]);
    assert_eq!(encode_index(u32::MAX), vec![0x00, 0xff, 0xff, 0xff, 0xff]);
    assert_eq!(decode_index(&vec![0x80]), None);
    assert_eq!(decode_index(&vec![0x01, 0x00, 0x00, 0x00, 0x00]), None);
    assert_eq!(decode_index(&vec![0x01, 0x00]), Some(256));
}
