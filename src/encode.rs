use vstd::prelude::*;
use crate::tree::{hash_to_vec, node_of, Hash32, Node, ProgramTree};
use crate::curry::{bind_args, hashes_view};
use crate::merkle::MerkleProof;
use crate::delegation::{DelegationLayerArgs, DelegationLayerSolution};
use crate::filter::{AdminFilterArgs, AdminFilterSolution, WriterFilterArgs, WriterFilterSolution};
use crate::curry::{bound_args, byte_leaf, nil_leaf, nil_tree, pair_of, pair_tree, trees_view};
use crate::condition::{is_nil, tree_is_nil};

verus! {

/// A tree that does not have the shape its type is encoded as.
#[derive(Debug, Clone, Copy, PartialEq, Eq, Structural)]
pub struct MalformedEncoding;

/// The list `(xs[i] xs[i+1] ...)`, ended by the empty leaf.
pub open spec fn list_from(xs: Seq<Node>, i: int) -> Node
    decreases xs.len() - i,
{
    if i < 0 || i >= xs.len() {
        nil_leaf()
    } else {
        pair_of(xs[i], list_from(xs, i + 1))
    }
}

/// The items of a list ended by the empty leaf.
pub open spec fn parse_list(n: Node) -> Option<Seq<Node>>
    decreases n,
{
    match n {
        Node::Leaf(bytes) => if bytes.len() == 0 {
            Some(Seq::empty())
        } else {
            None
        },
        Node::Pair(first, rest) => match parse_list(*rest) {
            Some(items) => Some(seq![*first] + items),
            None => None,
        },
    }
}

/// The values bound by an environment `(c (q . x) ... 1)`.
pub open spec fn parse_bound(n: Node) -> Option<Seq<Node>>
    decreases n,
{
    match n {
        Node::Leaf(bytes) => if bytes == seq![1u8] {
            Some(Seq::empty())
        } else {
            None
        },
        Node::Pair(op, body) => match *body {
            Node::Pair(quoted, tail) => match *quoted {
                Node::Pair(q, value) => match *tail {
                    Node::Pair(env, end) => if *op == byte_leaf(4) && *q == byte_leaf(1) && is_nil(*end) {
                        match parse_bound(*env) {
                            Some(items) => Some(seq![*value] + items),
                            None => None,
                        }
                    } else {
                        None
                    },
                    Node::Leaf(_) => None,
                },
                Node::Leaf(_) => None,
            },
            Node::Leaf(_) => None,
        },
    }
}
/// Parsing a list built from `xs[i..]` gives back `xs[i..]`.
pub proof fn lemma_parse_list(xs: Seq<Node>, i: int)
    requires
        0 <= i <= xs.len(),
    ensures
        parse_list(list_from(xs, i)) == Some(xs.subrange(i, xs.len() as int)),
    decreases xs.len() - i,
{
    if i < xs.len() {
        lemma_parse_list(xs, i + 1);
        assert(seq![xs[i]] + xs.subrange(i + 1, xs.len() as int) =~= xs.subrange(i, xs.len() as int));
    } else {
        assert(xs.subrange(i, xs.len() as int) =~= Seq::<Node>::empty());
    }
}
/// Parsing an environment that binds `xs[i..]` gives back `xs[i..]`.
pub proof fn lemma_parse_bound(xs: Seq<Node>, i: int)
    requires
        0 <= i <= xs.len(),
    ensures
        parse_bound(bound_args(xs, i)) == Some(xs.subrange(i, xs.len() as int)),
    decreases xs.len() - i,
{
    if i < xs.len() {
        lemma_parse_bound(xs, i + 1);
        assert(seq![xs[i]] + xs.subrange(i + 1, xs.len() as int) =~= xs.subrange(i, xs.len() as int));
    } else {
        assert(xs.subrange(i, xs.len() as int) =~= Seq::<Node>::empty());
    }
}

fn is_byte_leaf(t: &ProgramTree, b: u8) -> (r: bool)
    ensures
        r == (t@ == byte_leaf(b)),
{
    match t {
        ProgramTree::Leaf(bytes) => {
            if bytes.len() == 1 && bytes[0] == b {
                assert(bytes@ =~= seq![b]);
                true
            } else {
                assert(bytes@.len() != 1 || bytes@[0] != seq![b][0]);
                false
            }
        },
        ProgramTree::Pair(_, _) => false,
    }
}

/// Builds the list of `items`, in order, ended by the empty leaf.
pub fn list_tree(items: Vec<ProgramTree>) -> (r: ProgramTree)
    ensures
        r@ == list_from(trees_view(items@), 0),
{
    let ghost all = trees_view(items@);
    let mut rest = items;
    let mut out = nil_tree();
    while rest.len() > 0
        invariant
            rest@.len() <= all.len(),
            trees_view(rest@) =~= all.subrange(0, rest@.len() as int),
            out@ == list_from(all, rest@.len() as int),
        decreases rest@.len(),
    {
        let ghost before = rest@;
        let item = rest.pop().unwrap();
        assert(trees_view(rest@) =~= all.subrange(0, rest@.len() as int)) by {
            assert(rest@ =~= before.subrange(0, before.len() - 1));
        };
        assert(item@ == all[rest@.len() as int]) by {
            assert(trees_view(before)[before.len() - 1] == all.subrange(0, before.len() as int)[before.len() - 1]);
        };
        out = pair_tree(item, out);
    }
    out
}

/// The items of a list ended by the empty leaf, or `None` for any other shape.
pub fn split_list(t: ProgramTree) -> (r: Option<Vec<ProgramTree>>)
    ensures
        r.is_some() == parse_list(t@).is_some(),
        r matches Some(v) ==> trees_view(v@) == parse_list(t@).unwrap(),
    decreases t,
{
    match t {
        ProgramTree::Leaf(bytes) => {
            if bytes.len() == 0 {
                let v: Vec<ProgramTree> = Vec::new();
                assert(trees_view(v@) =~= Seq::<Node>::empty());
                Some(v)
            } else {
                None
            }
        },
        ProgramTree::Pair(first, rest) => {
            let first = *first;
            match split_list(*rest) {
                Some(mut items) => {
                    let ghost tail = items@;
                    items.insert(0, first);
                    assert(trees_view(items@) =~= seq![first@] + trees_view(tail));
                    Some(items)
                },
                None => None,
            }
        },
    }
}

/// The values bound by an environment `(c (q . x) ... 1)`, or `None` for any other shape.
pub fn split_bound(t: ProgramTree) -> (r: Option<Vec<ProgramTree>>)
    ensures
        r.is_some() == parse_bound(t@).is_some(),
        r matches Some(v) ==> trees_view(v@) == parse_bound(t@).unwrap(),
    decreases t,
{
    proof {
        reveal_with_fuel(node_of, 4);
    }
    match t {
        ProgramTree::Leaf(bytes) => {
            if bytes.len() == 1 && bytes[0] == 1 {
                assert(bytes@ =~= seq![1u8]);
                let v: Vec<ProgramTree> = Vec::new();
                assert(trees_view(v@) =~= Seq::<Node>::empty());
                Some(v)
            } else {
                assert(bytes@.len() != 1 || bytes@[0] != seq![1u8][0]);
                None
            }
        },
        ProgramTree::Pair(op, body) => match *body {
            ProgramTree::Pair(quoted, tail) => match *quoted {
                ProgramTree::Pair(q, value) => match *tail {
                    ProgramTree::Pair(env, end) => {
                        if is_byte_leaf(&op, 4) && is_byte_leaf(&q, 1) && tree_is_nil(&end) {
                            let value = *value;
                            match split_bound(*env) {
                                Some(mut items) => {
                                    let ghost tail_items = items@;
                                    items.insert(0, value);
                                    assert(trees_view(items@) =~= seq![value@] + trees_view(tail_items));
                                    Some(items)
                                },
                                None => None,
                            }
                        } else {
                            None
                        }
                    },
                    ProgramTree::Leaf(_) => None,
                },
                ProgramTree::Leaf(_) => None,
            },
            ProgramTree::Leaf(_) => None,
        },
    }
}

/// The big-endian bytes of `v`, with no leading zero byte.
pub open spec fn be_bytes(v: nat) -> Seq<u8>
    decreases v,
{
    if v == 0 {
        Seq::empty()
    } else {
        be_bytes(v / 256).push((v % 256) as u8)
    }
}

/// The unsigned big-endian value of `b`.
pub open spec fn num_of(b: Seq<u8>) -> nat
    decreases b.len(),
{
    if b.len() == 0 {
        0
    } else {
        (num_of(b.drop_last()) * 256 + b.last()) as nat
    }
}

/// `256` to the power `k`.
pub open spec fn byte_bound(k: nat) -> nat
    decreases k,
{
    if k == 0 {
        1
    } else {
        256 * byte_bound((k - 1) as nat)
    }
}

/// The atom of a proof index: its shortest big-endian form, with a zero byte in front
/// where the top bit would otherwise read as a sign.
pub open spec fn index_bytes(v: u32) -> Seq<u8> {
    let b = be_bytes(v as nat);
    if b.len() > 0 && b[0] >= 0x80 {
        seq![0u8] + b
    } else {
        b
    }
}

/// The proof index that an atom holds: a non-negative number of at most five bytes
/// that fits in 32 bits.
pub open spec fn index_of(b: Seq<u8>) -> Option<u32> {
    if b.len() <= 5 && (b.len() == 0 || b[0] < 0x80) && num_of(b) <= u32::MAX {
        Some(num_of(b) as u32)
    } else {
        None
    }
}

proof fn lemma_num_of_be_bytes(v: nat)
    ensures
        num_of(be_bytes(v)) == v,
    decreases v,
{
    if v > 0 {
        lemma_num_of_be_bytes(v / 256);
        assert(be_bytes(v).drop_last() =~= be_bytes(v / 256));
        assert((v / 256) * 256 + v % 256 == v) by (nonlinear_arith);
    }
}

proof fn lemma_be_bytes_len(v: nat, k: nat)
    requires
        v < byte_bound(k),
    ensures
        be_bytes(v).len() <= k,
    decreases k,
{
    if v > 0 {
        assert(k > 0);
        let b = byte_bound((k - 1) as nat);
        assert(v / 256 < b) by (nonlinear_arith)
            requires
                v < 256 * b,
        ;
        lemma_be_bytes_len(v / 256, (k - 1) as nat);
    }
}

proof fn lemma_num_of_leading_zero(b: Seq<u8>)
    ensures
        num_of(seq![0u8] + b) == num_of(b),
    decreases b.len(),
{
    if b.len() > 0 {
        assert((seq![0u8] + b).drop_last() =~= seq![0u8] + b.drop_last());
        lemma_num_of_leading_zero(b.drop_last());
    } else {
        assert((seq![0u8] + b).drop_last() =~= b);
    }
}

/// Decoding the atom of a proof index gives the index back.
pub proof fn lemma_index_round_trip(v: u32)
    ensures
        index_of(index_bytes(v)) == Some(v),
{
    lemma_num_of_be_bytes(v as nat);
    reveal_with_fuel(byte_bound, 5);
    lemma_be_bytes_len(v as nat, 4);
    lemma_num_of_leading_zero(be_bytes(v as nat));
}

/// The atom of a proof index.
pub fn encode_index(v: u32) -> (r: Vec<u8>)
    ensures
        r@ == index_bytes(v),
{
    let mut out: Vec<u8> = Vec::new();
    let mut x: u32 = v;
    while x > 0
        invariant
            be_bytes(v as nat) =~= be_bytes(x as nat) + out@,
        decreases x,
    {
        let ghost before = out@;
        let low = (x % 256) as u8;
        out.insert(0, low);
        assert(be_bytes(x as nat) == be_bytes((x / 256) as nat).push(low));
        assert(be_bytes(x as nat) + before =~= be_bytes((x / 256) as nat) + out@);
        x = x / 256;
    }
    assert(out@ =~= be_bytes(v as nat));
    if out.len() > 0 && out[0] >= 0x80 {
        out.insert(0, 0u8);
        assert(out@ =~= seq![0u8] + be_bytes(v as nat));
    }
    out
}

/// The proof index that an atom holds, or `None` where it holds none.
pub fn decode_index(b: &Vec<u8>) -> (r: Option<u32>)
    ensures
        r == index_of(b@),
{
    if b.len() > 5 || (b.len() > 0 && b[0] >= 0x80) {
        return None;
    }
    let mut acc: u64 = 0;
    let mut i: usize = 0;
    proof {
        reveal_with_fuel(byte_bound, 6);
        assert(b@.subrange(0, 0) =~= Seq::<u8>::empty());
    }
    while i < b.len()
        invariant
            i <= b@.len() <= 5,
            acc == num_of(b@.subrange(0, i as int)),
            acc < byte_bound(i as nat),
            byte_bound(5) == 1099511627776,
        decreases b@.len() - i,
    {
        let ghost bound = byte_bound(i as nat);
        assert(b@.subrange(0, i + 1).drop_last() =~= b@.subrange(0, i as int));
        let ghost byte = b@[i as int];
        assert(acc * 256 + byte < 256 * bound) by (nonlinear_arith)
            requires
                acc < bound,
                byte < 256,
        ;
        assert(bound <= byte_bound(5)) by {
            lemma_byte_bound_grows(i as nat, 5);
        };
        acc = acc * 256 + b[i] as u64;
        i = i + 1;
    }
    assert(b@.subrange(0, b@.len() as int) =~= b@);
    if acc > 0xffff_ffff {
        None
    } else {
        Some(acc as u32)
    }
}

proof fn lemma_byte_bound_grows(i: nat, k: nat)
    requires
        i <= k,
    ensures
        byte_bound(i) <= byte_bound(k),
    decreases k,
{
    if i < k {
        lemma_byte_bound_grows(i, (k - 1) as nat);
    }
}

/// Whether a tree is a leaf of 32 bytes.
pub open spec fn is_hash_leaf(n: Node) -> bool {
    match n {
        Node::Leaf(bytes) => bytes.len() == 32,
        Node::Pair(_, _) => false,
    }
}

/// The bytes of a leaf.
pub open spec fn leaf_bytes(n: Node) -> Seq<u8> {
    match n {
        Node::Leaf(bytes) => bytes,
        Node::Pair(_, _) => Seq::empty(),
    }
}
/// A leaf for each hash, in order.
pub open spec fn hash_leaves(hs: Seq<Seq<u8>>) -> Seq<Node> {
    hs.map_values(|h: Seq<u8>| Node::Leaf(h))
}

/// The hashes held by a sequence of trees, where each is a 32-byte leaf.
pub open spec fn hashes_of(xs: Seq<Node>) -> Option<Seq<Seq<u8>>> {
    if forall|i: int| 0 <= i < xs.len() ==> is_hash_leaf(#[trigger] xs[i]) {
        Some(xs.map_values(|n: Node| leaf_bytes(n)))
    } else {
        None
    }
}

proof fn lemma_hashes_of_leaves(hs: Seq<Seq<u8>>)
    requires
        forall|i: int| 0 <= i < hs.len() ==> (#[trigger] hs[i]).len() == 32,
    ensures
        hashes_of(hash_leaves(hs)) == Some(hs),
{
    let xs = hash_leaves(hs);
    assert forall|i: int| 0 <= i < xs.len() implies is_hash_leaf(#[trigger] xs[i]) by {
        assert(xs[i] == Node::Leaf(hs[i]));
    }
    assert(xs.map_values(|n: Node| leaf_bytes(n)) =~= hs);
}

fn hash_leaf(h: &Hash32) -> (r: ProgramTree)
    ensures
        r@ == Node::Leaf(h@),
{
    ProgramTree::Leaf(hash_to_vec(h))
}

fn leaf_hash(t: &ProgramTree) -> (r: Option<Hash32>)
    ensures
        r.is_some() == is_hash_leaf(t@),
        r matches Some(h) ==> h@ == leaf_bytes(t@),
{
    match t {
        ProgramTree::Leaf(bytes) => {
            if bytes.len() != 32 {
                return None;
            }
            let mut h: Hash32 = [0u8; 32];
            let mut i: usize = 0;
            while i < 32
                invariant
                    0 <= i <= 32,
                    bytes@.len() == 32,
                    h@.len() == 32,
                    forall|j: int| 0 <= j < i ==> h@[j] == bytes@[j],
                decreases 32 - i,
            {
                h[i] = bytes[i];
                i = i + 1;
            }
            assert(h@ =~= bytes@);
            Some(h)
        },
        ProgramTree::Pair(_, _) => None,
    }
}

fn hash_leaf_list(hs: &Vec<Hash32>) -> (r: Vec<ProgramTree>)
    ensures
        trees_view(r@) =~= hash_leaves(hashes_view(hs@)),
{
    let mut out: Vec<ProgramTree> = Vec::new();
    let mut i: usize = 0;
    while i < hs.len()
        invariant
            i <= hs@.len(),
            out@.len() == i,
            forall|j: int| 0 <= j < i ==> (#[trigger] out@[j])@ == Node::Leaf(hs@[j]@),
        decreases hs@.len() - i,
    {
        out.push(hash_leaf(&hs[i]));
        i = i + 1;
    }
    out
}

fn leaf_hash_list(ts: &Vec<ProgramTree>) -> (r: Option<Vec<Hash32>>)
    ensures
        r.is_some() == hashes_of(trees_view(ts@)).is_some(),
        r matches Some(v) ==> hashes_view(v@) == hashes_of(trees_view(ts@)).unwrap() && v@.len() == ts@.len(),
{
    let ghost xs = trees_view(ts@);
    let mut out: Vec<Hash32> = Vec::new();
    let mut i: usize = 0;
    while i < ts.len()
        invariant
            i <= ts@.len(),
            xs == trees_view(ts@),
            out@.len() == i,
            forall|j: int| 0 <= j < i ==> is_hash_leaf(#[trigger] xs[j]),
            forall|j: int| 0 <= j < i ==> (#[trigger] out@[j])@ == leaf_bytes(xs[j]),
        decreases ts@.len() - i,
    {
        match leaf_hash(&ts[i]) {
            Some(h) => out.push(h),
            None => {
                assert(!is_hash_leaf(xs[i as int]));
                return None;
            },
        }
        i = i + 1;
    }
    assert(hashes_view(out@) =~= xs.map_values(|n: Node| leaf_bytes(n)));
    Some(out)
}

/// The environment that binds a filter's one inner puzzle.
pub open spec fn filter_args_tree(inner: Node) -> Node {
    bound_args(seq![inner], 0)
}

/// The inner puzzle bound by a filter's environment.
pub open spec fn filter_args_of(n: Node) -> Option<Node> {
    match parse_bound(n) {
        Some(xs) => if xs.len() == 1 {
            Some(xs[0])
        } else {
            None
        },
        None => None,
    }
}

/// The list holding a filter's one inner solution.
pub open spec fn filter_solution_tree(inner: Node) -> Node {
    list_from(seq![inner], 0)
}

/// The inner solution held by a filter's solution list.
pub open spec fn filter_solution_of(n: Node) -> Option<Node> {
    match parse_list(n) {
        Some(xs) => if xs.len() == 1 {
            Some(xs[0])
        } else {
            None
        },
        None => None,
    }
}

/// A filter's arguments and solution decode to what was encoded.
pub proof fn lemma_filter_round_trip(inner: Node)
    ensures
        filter_args_of(filter_args_tree(inner)) == Some(inner),
        filter_solution_of(filter_solution_tree(inner)) == Some(inner),
{
    lemma_parse_bound(seq![inner], 0);
    lemma_parse_list(seq![inner], 0);
    assert(seq![inner].subrange(0, 1) =~= seq![inner]);
}

fn one_bound(inner: ProgramTree) -> (r: ProgramTree)
    ensures
        r@ == filter_args_tree(inner@),
{
    let mut v: Vec<ProgramTree> = Vec::new();
    v.push(inner);
    assert(trees_view(v@) =~= seq![v@[0]@]);
    bind_args(v)
}

fn one_bound_of(t: ProgramTree) -> (r: Result<ProgramTree, MalformedEncoding>)
    ensures
        r is Ok == filter_args_of(t@).is_some(),
        r matches Ok(x) ==> Some(x@) == filter_args_of(t@),
{
    match split_bound(t) {
        Some(mut v) => {
            if v.len() == 1 {
                let x = v.pop().unwrap();
                Ok(x)
            } else {
                Err(MalformedEncoding)
            }
        },
        None => Err(MalformedEncoding),
    }
}

fn one_list(inner: ProgramTree) -> (r: ProgramTree)
    ensures
        r@ == filter_solution_tree(inner@),
{
    let mut v: Vec<ProgramTree> = Vec::new();
    v.push(inner);
    assert(trees_view(v@) =~= seq![v@[0]@]);
    list_tree(v)
}

fn one_list_of(t: ProgramTree) -> (r: Result<ProgramTree, MalformedEncoding>)
    ensures
        r is Ok == filter_solution_of(t@).is_some(),
        r matches Ok(x) ==> Some(x@) == filter_solution_of(t@),
{
    match split_list(t) {
        Some(mut v) => {
            if v.len() == 1 {
                let x = v.pop().unwrap();
                Ok(x)
            } else {
                Err(MalformedEncoding)
            }
        },
        None => Err(MalformedEncoding),
    }
}

impl AdminFilterArgs<ProgramTree> {
    /// The environment that curries these arguments.
    pub fn to_tree(self) -> (r: ProgramTree)
        ensures
            r@ == filter_args_tree(self.inner_puzzle@),
    {
        one_bound(self.inner_puzzle)
    }

    /// The arguments that an environment curries.
    pub fn from_tree(t: ProgramTree) -> (r: Result<Self, MalformedEncoding>)
        ensures
            r is Ok == filter_args_of(t@).is_some(),
            r matches Ok(a) ==> Some(a.inner_puzzle@) == filter_args_of(t@),
    {
        match one_bound_of(t) {
            Ok(inner_puzzle) => Ok(Self { inner_puzzle }),
            Err(e) => Err(e),
        }
    }
}

impl WriterFilterArgs<ProgramTree> {
    /// The environment that curries these arguments.
    pub fn to_tree(self) -> (r: ProgramTree)
        ensures
            r@ == filter_args_tree(self.inner_puzzle@),
    {
        one_bound(self.inner_puzzle)
    }

    /// The arguments that an environment curries.
    pub fn from_tree(t: ProgramTree) -> (r: Result<Self, MalformedEncoding>)
        ensures
            r is Ok == filter_args_of(t@).is_some(),
            r matches Ok(a) ==> Some(a.inner_puzzle@) == filter_args_of(t@),
    {
        match one_bound_of(t) {
            Ok(inner_puzzle) => Ok(Self { inner_puzzle }),
            Err(e) => Err(e),
        }
    }
}

impl AdminFilterSolution<ProgramTree> {
    /// The list that holds this solution.
    pub fn to_tree(self) -> (r: ProgramTree)
        ensures
            r@ == filter_solution_tree(self.inner_solution@),
    {
        one_list(self.inner_solution)
    }

    /// The solution that a list holds.
    pub fn from_tree(t: ProgramTree) -> (r: Result<Self, MalformedEncoding>)
        ensures
            r is Ok == filter_solution_of(t@).is_some(),
            r matches Ok(a) ==> Some(a.inner_solution@) == filter_solution_of(t@),
    {
        match one_list_of(t) {
            Ok(inner_solution) => Ok(Self { inner_solution }),
            Err(e) => Err(e),
        }
    }
}

impl WriterFilterSolution<ProgramTree> {
    /// The list that holds this solution.
    pub fn to_tree(self) -> (r: ProgramTree)
        ensures
            r@ == filter_solution_tree(self.inner_solution@),
    {
        one_list(self.inner_solution)
    }

    /// The solution that a list holds.
    pub fn from_tree(t: ProgramTree) -> (r: Result<Self, MalformedEncoding>)
        ensures
            r is Ok == filter_solution_of(t@).is_some(),
            r matches Ok(a) ==> Some(a.inner_solution@) == filter_solution_of(t@),
    {
        match one_list_of(t) {
            Ok(inner_solution) => Ok(Self { inner_solution }),
            Err(e) => Err(e),
        }
    }
}

/// The hashes that a delegation layer's arguments hold, in field order.
pub open spec fn layer_fields(a: DelegationLayerArgs) -> Seq<Seq<u8>> {
    match a.inner_puzzle_hash {
        Some(h) => seq![a.mod_hash@, h@, a.merkle_root@],
        None => seq![a.mod_hash@, a.merkle_root@],
    }
}

/// The environment that curries a delegation layer's arguments: each hash as a leaf.
pub open spec fn layer_args_tree(fields: Seq<Seq<u8>>) -> Node {
    bound_args(hash_leaves(fields), 0)
}

/// The hashes that a delegation layer's environment curries: two or three 32-byte leaves.
pub open spec fn layer_args_of(n: Node) -> Option<Seq<Seq<u8>>> {
    match parse_bound(n) {
        Some(xs) => if xs.len() == 2 || xs.len() == 3 {
            hashes_of(xs)
        } else {
            None
        },
        None => None,
    }
}

/// The tree of an optional Merkle proof: the empty leaf for none, else the index atom
/// paired with the list of sibling hashes.
pub open spec fn proof_tree(p: Option<(u32, Seq<Seq<u8>>)>) -> Node {
    match p {
        None => nil_leaf(),
        Some((index, siblings)) => pair_of(Node::Leaf(index_bytes(index)), list_from(hash_leaves(siblings), 0)),
    }
}

/// The optional Merkle proof that a tree holds.
pub open spec fn proof_tree_of(n: Node) -> Option<Option<(u32, Seq<Seq<u8>>)>> {
    match n {
        Node::Leaf(bytes) => if bytes.len() == 0 {
            Some(None)
        } else {
            None
        },
        Node::Pair(first, rest) => match *first {
            Node::Leaf(bytes) => match index_of(bytes) {
                Some(index) => match parse_list(*rest) {
                    Some(xs) => match hashes_of(xs) {
                        Some(hs) => Some(Some((index, hs))),
                        None => None,
                    },
                    None => None,
                },
                None => None,
            },
            Node::Pair(_, _) => None,
        },
    }
}

/// The list that holds a delegation layer's solution, in field order.
pub open spec fn layer_solution_tree(p: Option<(u32, Seq<Seq<u8>>)>, reveal: Node, solution: Node) -> Node {
    list_from(seq![proof_tree(p), reveal, solution], 0)
}

/// The proof, revealed puzzle and solution that a list holds.
pub open spec fn layer_solution_of(n: Node) -> Option<(Option<(u32, Seq<Seq<u8>>)>, Node, Node)> {
    match parse_list(n) {
        Some(xs) => if xs.len() == 3 {
            match proof_tree_of(xs[0]) {
                Some(p) => Some((p, xs[1], xs[2])),
                None => None,
            }
        } else {
            None
        },
        None => None,
    }
}
/// The index and sibling hashes of an optional proof.
pub open spec fn proof_fields(p: Option<MerkleProof>) -> Option<(u32, Seq<Seq<u8>>)> {
    match p {
        Some(p) => Some((p.index, hashes_view(p.siblings@))),
        None => None,
    }
}

/// A delegation layer's arguments decode to the hashes that were encoded.
pub proof fn lemma_layer_args_round_trip(a: DelegationLayerArgs)
    ensures
        layer_args_of(layer_args_tree(layer_fields(a))) == Some(layer_fields(a)),
{
    let fields = layer_fields(a);
    lemma_parse_bound(hash_leaves(fields), 0);
    assert(hash_leaves(fields).subrange(0, hash_leaves(fields).len() as int) =~= hash_leaves(fields));
    lemma_hashes_of_leaves(fields);
}

/// A delegation layer's solution decodes to the proof, puzzle and solution that were
/// encoded, for every proof whose siblings are 32-byte hashes.
pub proof fn lemma_layer_solution_round_trip(p: Option<(u32, Seq<Seq<u8>>)>, reveal: Node, solution: Node)
    requires
        p matches Some((_, hs)) ==> forall|i: int| 0 <= i < hs.len() ==> (#[trigger] hs[i]).len() == 32,
    ensures
        layer_solution_of(layer_solution_tree(p, reveal, solution)) == Some((p, reveal, solution)),
{
    let items = seq![proof_tree(p), reveal, solution];
    lemma_parse_list(items, 0);
    assert(items.subrange(0, 3) =~= items);
    if let Some((index, hs)) = p {
        lemma_index_round_trip(index);
        lemma_parse_list(hash_leaves(hs), 0);
        assert(hash_leaves(hs).subrange(0, hash_leaves(hs).len() as int) =~= hash_leaves(hs));
        lemma_hashes_of_leaves(hs);
    }
}

impl DelegationLayerArgs {
    /// The environment that curries these arguments.
    pub fn to_tree(&self) -> (r: ProgramTree)
        ensures
            r@ == layer_args_tree(layer_fields(*self)),
    {
        let mut hs: Vec<Hash32> = Vec::new();
        hs.push(self.mod_hash);
        match &self.inner_puzzle_hash {
            Some(h) => hs.push(*h),
            None => {},
        }
        hs.push(self.merkle_root);
        assert(hashes_view(hs@) =~= layer_fields(*self));
        bind_args(hash_leaf_list(&hs))
    }

    /// The arguments that an environment curries: two hashes for a layer without a
    /// default inner puzzle, three for one with it.
    pub fn from_tree(t: ProgramTree) -> (r: Result<Self, MalformedEncoding>)
        ensures
            r is Ok == layer_args_of(t@).is_some(),
            r matches Ok(a) ==> Some(layer_fields(a)) == layer_args_of(t@),
    {
        let items = match split_bound(t) {
            Some(items) => items,
            None => return Err(MalformedEncoding),
        };
        if items.len() != 2 && items.len() != 3 {
            return Err(MalformedEncoding);
        }
        let hs = match leaf_hash_list(&items) {
            Some(hs) => hs,
            None => return Err(MalformedEncoding),
        };
        if hs.len() == 3 {
            let a = Self { mod_hash: hs[0], inner_puzzle_hash: Some(hs[1]), merkle_root: hs[2] };
            assert(layer_fields(a) =~= hashes_view(hs@));
            Ok(a)
        } else {
            let a = Self { mod_hash: hs[0], inner_puzzle_hash: None, merkle_root: hs[1] };
            assert(layer_fields(a) =~= hashes_view(hs@));
            Ok(a)
        }
    }
}

fn proof_to_tree(p: Option<MerkleProof>) -> (r: ProgramTree)
    ensures
        r@ == proof_tree(proof_fields(p)),
{
    match p {
        None => nil_tree(),
        Some(p) => {
            let index = ProgramTree::Leaf(encode_index(p.index));
            let siblings = list_tree(hash_leaf_list(&p.siblings));
            pair_tree(index, siblings)
        },
    }
}

fn proof_from_tree(t: ProgramTree) -> (r: Result<Option<MerkleProof>, MalformedEncoding>)
    ensures
        r is Ok == proof_tree_of(t@).is_some(),
        r matches Ok(p) ==> Some(proof_fields(p)) == proof_tree_of(t@),
{
    proof {
        reveal_with_fuel(node_of, 3);
    }
    match t {
        ProgramTree::Leaf(bytes) => {
            if bytes.len() == 0 {
                Ok(None)
            } else {
                Err(MalformedEncoding)
            }
        },
        ProgramTree::Pair(first, rest) => {
            let index = match &*first {
                ProgramTree::Leaf(bytes) => match decode_index(bytes) {
                    Some(index) => index,
                    None => return Err(MalformedEncoding),
                },
                ProgramTree::Pair(_, _) => return Err(MalformedEncoding),
            };
            let items = match split_list(*rest) {
                Some(items) => items,
                None => return Err(MalformedEncoding),
            };
            match leaf_hash_list(&items) {
                Some(siblings) => Ok(Some(MerkleProof { index, siblings })),
                None => Err(MalformedEncoding),
            }
        },
    }
}

impl DelegationLayerSolution {
    /// The list that holds this solution.
    pub fn to_tree(self) -> (r: ProgramTree)
        ensures
            r@ == layer_solution_tree(proof_fields(self.merkle_proof), self.puzzle_reveal@, self.puzzle_solution@),
    {
        let mut items: Vec<ProgramTree> = Vec::new();
        items.push(proof_to_tree(self.merkle_proof));
        items.push(self.puzzle_reveal);
        items.push(self.puzzle_solution);
        assert(trees_view(items@) =~= seq![items@[0]@, items@[1]@, items@[2]@]);
        list_tree(items)
    }

    /// The solution that a list holds.
    pub fn from_tree(t: ProgramTree) -> (r: Result<Self, MalformedEncoding>)
        ensures
            r is Ok == layer_solution_of(t@).is_some(),
            r matches Ok(s) ==> Some((proof_fields(s.merkle_proof), s.puzzle_reveal@, s.puzzle_solution@))
                == layer_solution_of(t@),
    {
        let mut items = match split_list(t) {
            Some(items) => items,
            None => return Err(MalformedEncoding),
        };
        if items.len() != 3 {
            return Err(MalformedEncoding);
        }
        let ghost xs = trees_view(items@);
        let puzzle_solution = items.pop().unwrap();
        let puzzle_reveal = items.pop().unwrap();
        let first = items.pop().unwrap();
        assert(first@ == xs[0] && puzzle_reveal@ == xs[1] && puzzle_solution@ == xs[2]);
        match proof_from_tree(first) {
            Ok(merkle_proof) => Ok(Self { merkle_proof, puzzle_reveal, puzzle_solution }),
            Err(e) => Err(e),
        }
    }
}

} // verus!
