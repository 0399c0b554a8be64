use vstd::prelude::*;
use crate::tree::{atom_hash, atom_hash_of, hash_eq, pair_hash, pair_hash_of, Hash32};
use crate::curry::hashes_view;

verus! {

/// An inclusion proof: the leaf's position, and the sibling hashes from the leaf level up.
/// Bit `k` of `index` tells whether the running node is the right child at level `k`.
#[derive(Debug, Clone, PartialEq, Eq)]
pub struct MerkleProof {
    pub index: u32,
    pub siblings: Vec<Hash32>,
}

/// The hash that pads a level of odd length: the hash of the empty leaf, which no
/// leaf of 32 bytes and no pair can have.
pub open spec fn pad_hash() -> Seq<u8> {
    atom_hash_of(Seq::<u8>::empty())
}

/// The node hashes one level up. Adjacent nodes are paired; an odd node at the end
/// is paired with the padding hash on its right.
pub open spec fn next_level(hs: Seq<Seq<u8>>) -> Seq<Seq<u8>> {
    Seq::new(
        ((hs.len() + 1) / 2) as nat,
        |k: int| pair_hash_of(hs[2 * k], if 2 * k + 1 < hs.len() { hs[2 * k + 1] } else { pad_hash() }),
    )
}

/// The root over a non-empty level of node hashes.
pub open spec fn root_of(hs: Seq<Seq<u8>>) -> Seq<u8>
    decreases hs.len(),
{
    if hs.len() <= 1 {
        hs[0]
    } else {
        root_of(next_level(hs))
    }
}

/// The leaf level of the tree: each authorized hash, hashed as a leaf.
pub open spec fn leaf_level(leaves: Seq<Seq<u8>>) -> Seq<Seq<u8>> {
    leaves.map_values(|l: Seq<u8>| atom_hash_of(l))
}

/// The root committed to by a non-empty sequence of authorized hashes.
pub open spec fn merkle_root(leaves: Seq<Seq<u8>>) -> Seq<u8> {
    root_of(leaf_level(leaves))
}

/// The node paired with the node at `p` when going one level up.
pub open spec fn sibling_of(hs: Seq<Seq<u8>>, p: int) -> Seq<u8> {
    if p % 2 == 1 {
        hs[p - 1]
    } else if p + 1 < hs.len() {
        hs[p + 1]
    } else {
        pad_hash()
    }
}

/// The sibling hashes from the node at `p` up to the root.
pub open spec fn path_of(hs: Seq<Seq<u8>>, p: int) -> Seq<Seq<u8>>
    decreases hs.len(),
{
    if hs.len() <= 1 {
        Seq::empty()
    } else {
        seq![sibling_of(hs, p)] + path_of(next_level(hs), p / 2)
    }
}

/// Combines a running hash with its sibling, on the side that the low bit of `index` gives.
pub open spec fn step(cur: Seq<u8>, index: nat, sibling: Seq<u8>) -> Seq<u8> {
    if index % 2 == 1 {
        pair_hash_of(sibling, cur)
    } else {
        pair_hash_of(cur, sibling)
    }
}

/// Folds the siblings into the running hash; the result holds the final hash and
/// the index bits left unused.
pub open spec fn fold_path(cur: Seq<u8>, index: nat, siblings: Seq<Seq<u8>>) -> (Seq<u8>, nat)
    decreases siblings.len(),
{
    if siblings.len() == 0 {
        (cur, index)
    } else {
        fold_path(step(cur, index, siblings[0]), index / 2, siblings.drop_first())
    }
}

/// A proof holds when folding it from the leaf reaches `root` with no index bit left over.
pub open spec fn proof_holds(leaf: Seq<u8>, index: nat, siblings: Seq<Seq<u8>>, root: Seq<u8>) -> bool {
    fold_path(atom_hash_of(leaf), index, siblings) == (root, 0nat)
}

/// The number of leaf positions that `n` index bits can name: `2` to the power `n`.
pub open spec fn positions(n: nat) -> nat
    decreases n,
{
    if n == 0 {
        1
    } else {
        2 * positions((n - 1) as nat)
    }
}

proof fn lemma_fold_uses_index(cur: Seq<u8>, index: nat, siblings: Seq<Seq<u8>>)
    requires
        index >= positions(siblings.len()),
    ensures
        fold_path(cur, index, siblings).1 != 0,
    decreases siblings.len(),
{
    if siblings.len() > 0 {
        let half = positions((siblings.len() - 1) as nat);
        assert(index / 2 >= half) by (nonlinear_arith)
            requires
                index >= 2 * half,
        ;
        assert(siblings.drop_first().len() == siblings.len() - 1);
        lemma_fold_uses_index(step(cur, index, siblings[0]), index / 2, siblings.drop_first());
    }
}

/// A proof whose index names a position beyond what its siblings can reach is
/// rejected, whatever the leaf and the root.
pub proof fn lemma_wide_index_rejected(leaf: Seq<u8>, index: nat, siblings: Seq<Seq<u8>>, root: Seq<u8>)
    requires
        index >= positions(siblings.len()),
    ensures
        !proof_holds(leaf, index, siblings, root),
{
    lemma_fold_uses_index(atom_hash_of(leaf), index, siblings);
}

proof fn lemma_path_folds_to_root(hs: Seq<Seq<u8>>, p: int)
    requires
        0 <= p < hs.len(),
    ensures
        fold_path(hs[p], p as nat, path_of(hs, p)) == (root_of(hs), 0nat),
    decreases hs.len(),
{
    if hs.len() > 1 {
        let up = next_level(hs);
        let rest = path_of(up, p / 2);
        let path = path_of(hs, p);
        assert(path[0] == sibling_of(hs, p));
        assert(path.drop_first() =~= rest);
        assert(step(hs[p], p as nat, sibling_of(hs, p)) == up[p / 2]);
        lemma_path_folds_to_root(up, p / 2);
    }
}

/// Every leaf of a non-empty set is proved a member of the set's root by its own path.
pub proof fn lemma_member_proof_holds(leaves: Seq<Seq<u8>>, i: int)
    requires
        0 <= i < leaves.len(),
    ensures
        proof_holds(leaves[i], i as nat, path_of(leaf_level(leaves), i), merkle_root(leaves)),
{
    lemma_path_folds_to_root(leaf_level(leaves), i);
}

fn next_level_exec(hs: &Vec<Hash32>, pad: &Hash32) -> (r: Vec<Hash32>)
    requires
        pad@ == pad_hash(),
    ensures
        hashes_view(r@) =~= next_level(hashes_view(hs@)),
        r@.len() == (hs@.len() + 1) / 2,
{
    let ghost v = hashes_view(hs@);
    let n = hs.len();
    let mut out: Vec<Hash32> = Vec::new();
    let mut j: usize = 0;
    while j < n
        invariant
            n == hs@.len(),
            v == hashes_view(hs@),
            pad@ == pad_hash(),
            j <= n,
            j == 2 * out@.len() || (j == n && n == 2 * out@.len() - 1),
            forall|k: int| 0 <= k < out@.len() ==> #[trigger] out@[k]@ == next_level(v)[k],
        decreases n - j,
    {
        let h = if j + 1 < n { pair_hash(&hs[j], &hs[j + 1]) } else { pair_hash(&hs[j], pad) };
        out.push(h);
        if j + 1 < n {
            j = j + 2;
        } else {
            j = n;
        }
    }
    assert(hashes_view(out@) =~= next_level(v));
    out
}

fn leaf_level_exec(leaves: &Vec<Hash32>) -> (r: Vec<Hash32>)
    ensures
        hashes_view(r@) =~= leaf_level(hashes_view(leaves@)),
        r@.len() == leaves@.len(),
{
    let mut out: Vec<Hash32> = Vec::new();
    let mut i: usize = 0;
    while i < leaves.len()
        invariant
            i <= leaves@.len(),
            out@.len() == i,
            forall|k: int| 0 <= k < i ==> #[trigger] out@[k]@ == atom_hash_of(leaves@[k]@),
        decreases leaves@.len() - i,
    {
        out.push(atom_hash(&leaves[i]));
        i = i + 1;
    }
    out
}

fn pad_exec() -> (r: Hash32)
    ensures
        r@ == pad_hash(),
{
    let empty: [u8; 0] = [];
    assert(empty@ =~= Seq::<u8>::empty());
    atom_hash(&empty)
}

/// Builds the root that commits to `leaves`, in order; an empty set has none.
pub fn build_root(leaves: &Vec<Hash32>) -> (r: Option<Hash32>)
    ensures
        leaves@.len() == 0 <==> r.is_none(),
        r matches Some(root) ==> root@ == merkle_root(hashes_view(leaves@)),
{
    if leaves.len() == 0 {
        return None;
    }
    let pad = pad_exec();
    let mut level = leaf_level_exec(leaves);
    while level.len() > 1
        invariant
            pad@ == pad_hash(),
            level@.len() >= 1,
            root_of(hashes_view(level@)) == merkle_root(hashes_view(leaves@)),
        decreases level@.len(),
    {
        level = next_level_exec(&level, &pad);
    }
    Some(level[0])
}

/// Builds the inclusion proof of the leaf at `index`; an index outside the set has none.
pub fn build_proof(leaves: &Vec<Hash32>, index: u32) -> (r: Option<MerkleProof>)
    ensures
        index as int >= leaves@.len() <==> r.is_none(),
        r matches Some(p) ==> p.index == index
            && hashes_view(p.siblings@) == path_of(leaf_level(hashes_view(leaves@)), index as int),
{
    if index as usize >= leaves.len() {
        return None;
    }
    let ghost full = path_of(leaf_level(hashes_view(leaves@)), index as int);
    let pad = pad_exec();
    let mut level = leaf_level_exec(leaves);
    let mut p: usize = index as usize;
    let mut siblings: Vec<Hash32> = Vec::new();
    while level.len() > 1
        invariant
            pad@ == pad_hash(),
            p < level@.len(),
            full == hashes_view(siblings@) + path_of(hashes_view(level@), p as int),
        decreases level@.len(),
    {
        let ghost v = hashes_view(level@);
        let s = if p % 2 == 1 {
            level[p - 1]
        } else if p + 1 < level.len() {
            level[p + 1]
        } else {
            pad
        };
        assert(s@ == sibling_of(v, p as int));
        siblings.push(s);
        level = next_level_exec(&level, &pad);
        p = p / 2;
        assert(hashes_view(siblings@) + path_of(hashes_view(level@), p as int) =~= full);
    }
    assert(hashes_view(siblings@) =~= full);
    Some(MerkleProof { index, siblings })
}

/// Whether `proof` shows that `leaf` is a member of the set committed to by `root`.
pub fn verify_proof(leaf: &Hash32, proof: &MerkleProof, root: &Hash32) -> (r: bool)
    ensures
        r == proof_holds(leaf@, proof.index as nat, hashes_view(proof.siblings@), root@),
{
    let ghost all = hashes_view(proof.siblings@);
    let mut cur = atom_hash(leaf);
    let mut index: u32 = proof.index;
    let mut i: usize = 0;
    assert(all.subrange(0, all.len() as int) =~= all);
    while i < proof.siblings.len()
        invariant
            i <= all.len(),
            all == hashes_view(proof.siblings@),
            fold_path(cur@, index as nat, all.subrange(i as int, all.len() as int))
                == fold_path(atom_hash_of(leaf@), proof.index as nat, all),
        decreases all.len() - i,
    {
        let ghost rest = all.subrange(i as int, all.len() as int);
        assert(rest.drop_first() =~= all.subrange(i + 1, all.len() as int));
        let s = &proof.siblings[i];
        if index % 2 == 1 {
            cur = pair_hash(s, &cur);
        } else {
            cur = pair_hash(&cur, s);
        }
        index = index / 2;
        i = i + 1;
    }
    assert(all.subrange(all.len() as int, all.len() as int) =~= Seq::<Seq<u8>>::empty());
    index == 0 && hash_eq(&cur, root)
}

} // verus!
