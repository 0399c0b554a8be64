use vstd::prelude::*;

verus! {

/// A 32-byte digest naming a program tree.
pub type Hash32 = [u8; 32];

/// A program tree: a leaf holding a byte string, or a pair of two trees.
#[derive(Debug)]
pub enum ProgramTree {
    Leaf(Vec<u8>),
    Pair(Box<ProgramTree>, Box<ProgramTree>),
}

/// The mathematical shape of a program tree.
pub enum Node {
    Leaf(Seq<u8>),
    Pair(Box<Node>, Box<Node>),
}

/// The shape of an executable tree.
pub open spec fn node_of(t: ProgramTree) -> Node
    decreases t,
{
    match t {
        ProgramTree::Leaf(bytes) => Node::Leaf(bytes@),
        ProgramTree::Pair(first, rest) => Node::Pair(Box::new(node_of(*first)), Box::new(node_of(*rest))),
    }
}

impl View for ProgramTree {
    type V = Node;

    open spec fn view(&self) -> Node {
        node_of(*self)
    }
}

/// The digest of a leaf holding `bytes`: the digest of the tag byte 1 followed by `bytes`.
pub uninterp spec fn atom_hash_of(bytes: Seq<u8>) -> Seq<u8>;

/// The digest of a pair whose halves have the digests `first` and `rest`:
/// the digest of the tag byte 2 followed by both.
pub uninterp spec fn pair_hash_of(first: Seq<u8>, rest: Seq<u8>) -> Seq<u8>;

/// Relies on clvm_utils::tree_hash_atom: the tree hash of a leaf, a function of its bytes.
#[verifier::external_body]
pub(crate) fn atom_hash(bytes: &[u8]) -> (r: Hash32)
    ensures
        r@ == atom_hash_of(bytes@),
{
    clvm_utils::tree_hash_atom(bytes).to_bytes()
}

/// Relies on clvm_utils::tree_hash_pair: the tree hash of a pair, a function of the
/// hashes of its two halves.
#[verifier::external_body]
pub(crate) fn pair_hash(first: &Hash32, rest: &Hash32) -> (r: Hash32)
    ensures
        r@ == pair_hash_of(first@, rest@),
{
    clvm_utils::tree_hash_pair(clvm_utils::TreeHash::new(*first), clvm_utils::TreeHash::new(*rest)).to_bytes()
}

/// The canonical hash of a program tree.
pub open spec fn tree_hash_spec(t: Node) -> Seq<u8>
    decreases t,
{
    match t {
        Node::Leaf(bytes) => atom_hash_of(bytes),
        Node::Pair(first, rest) => pair_hash_of(tree_hash_spec(*first), tree_hash_spec(*rest)),
    }
}

/// Computes the canonical hash of a program tree, left half before right half.
pub fn tree_hash(t: &ProgramTree) -> (r: Hash32)
    ensures
        r@ == tree_hash_spec(t@),
    decreases t,
{
    match t {
        ProgramTree::Leaf(bytes) => atom_hash(bytes.as_slice()),
        ProgramTree::Pair(first, rest) => {
            let a = tree_hash(first);
            let b = tree_hash(rest);
            pair_hash(&a, &b)
        },
    }
}

/// The bytes of a digest, as a vector.
pub fn hash_to_vec(h: &Hash32) -> (r: Vec<u8>)
    ensures
        r@ == h@,
{
    let mut out: Vec<u8> = Vec::new();
    let mut i: usize = 0;
    while i < 32
        invariant
            0 <= i <= 32,
            h@.len() == 32,
            out@ =~= h@.subrange(0, i as int),
        decreases 32 - i,
    {
        out.push(h[i]);
        i = i + 1;
    }
    out
}

/// Whether two digests hold the same bytes.
pub fn hash_eq(a: &Hash32, b: &Hash32) -> (r: bool)
    ensures
        r == (a@ == b@),
{
    let mut i: usize = 0;
    while i < 32
        invariant
            0 <= i <= 32,
            a@.len() == 32,
            b@.len() == 32,
            forall|j: int| 0 <= j < i ==> a@[j] == b@[j],
        decreases 32 - i,
    {
        if a[i] != b[i] {
            return false;
        }
        i = i + 1;
    }
    assert(a@ =~= b@);
    true
}

} // verus!
