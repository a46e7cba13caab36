use vstd::prelude::*;
use vstd::utf8::encode_utf8;
use crate::bytes::append_bytes;
use crate::digest::{keccak, keccak_of};

verus! {

/// One block record as the data source reports it. Only `hash` takes part in
/// the commitment; the other fields are carried along unused.
pub struct Block {
    pub hash: String,
    pub number: String,
    pub timestamp: String,
    pub transactions_root: String,
    pub parent_hash: String,
}

/// The envelope that the data source answers with.
pub struct ApiResponse {
    pub status: String,
    pub message: String,
    pub data: Vec<Block>,
}

/// The UTF-8 bytes of a block's `hash` field.
pub open spec fn hash_bytes(b: Block) -> Seq<u8> {
    encode_utf8(b.hash@)
}

/// The `hash` fields of the blocks, in the given order, joined with no
/// separator, as bytes.
pub open spec fn joined_hashes(blocks: Seq<Block>) -> Seq<u8>
    decreases blocks.len(),
{
    if blocks.len() == 0 {
        Seq::empty()
    } else {
        joined_hashes(blocks.drop_last()) + hash_bytes(blocks.last())
    }
}

/// The commitment of an ordered sequence of blocks.
pub open spec fn commitment_of(blocks: Seq<Block>) -> Seq<u8> {
    keccak_of(joined_hashes(blocks))
}

/// Joins the `hash` fields of `blocks`, in order and with no separator.
pub fn joined_hash_bytes(blocks: &Vec<Block>) -> (r: Vec<u8>)
    ensures
        r@ == joined_hashes(blocks@),
{
    let mut out: Vec<u8> = Vec::new();
    let mut i: usize = 0;
    while i < blocks.len()
        invariant
            i <= blocks@.len(),
            out@ == joined_hashes(blocks@.subrange(0, i as int)),
        decreases blocks@.len() - i,
    {
        let b = blocks[i].hash.as_str().as_bytes();
        append_bytes(&mut out, b);
        assert(blocks@.subrange(0, i + 1).drop_last() =~= blocks@.subrange(0, i as int));
        i = i + 1;
    }
    assert(blocks@.subrange(0, blocks@.len() as int) =~= blocks@);
    out
}

/// Reduces an ordered list of blocks to its commitment: the Keccak-256 digest
/// of the joined `hash` fields. No block list is rejected; an empty one gives
/// the digest of the empty byte string.
pub fn block_commitment(blocks: &Vec<Block>) -> (r: [u8; 32])
    ensures
        r@ == commitment_of(blocks@),
        blocks@.len() == 0 ==> r@ == keccak_of(Seq::empty()),
{
    let joined = joined_hash_bytes(blocks);
    keccak(joined.as_slice())
}

impl ApiResponse {
    /// The commitment of the response's blocks, in the order they came in.
    pub fn commitment(&self) -> (r: [u8; 32])
        ensures
            r@ == commitment_of(self.data@),
    {
        block_commitment(&self.data)
    }
}

/// Two block lists of the same length whose `hash` fields agree position by
/// position join to the same bytes; the other fields play no part.
pub proof fn lemma_joined_depends_on_hashes_only(a: Seq<Block>, b: Seq<Block>)
    requires
        a.len() == b.len(),
        forall|i: int| 0 <= i < a.len() ==> #[trigger] a[i].hash@ == b[i].hash@,
    ensures
        joined_hashes(a) == joined_hashes(b),
    decreases a.len(),
{
    if a.len() > 0 {
        assert forall|i: int| 0 <= i < a.drop_last().len() implies
            #[trigger] a.drop_last()[i].hash@ == b.drop_last()[i].hash@ by {
            assert(a[i].hash@ == b[i].hash@);
        }
        lemma_joined_depends_on_hashes_only(a.drop_last(), b.drop_last());
        assert(a.last().hash@ == b[b.len() - 1].hash@);
    }
}

/// Determinism of the commitment: block lists whose `hash` fields agree, in
/// the same order, have the same commitment.
pub proof fn lemma_commitment_deterministic(a: Seq<Block>, b: Seq<Block>)
    requires
        a.len() == b.len(),
        forall|i: int| 0 <= i < a.len() ==> #[trigger] a[i].hash@ == b[i].hash@,
    ensures
        commitment_of(a) == commitment_of(b),
{
    lemma_joined_depends_on_hashes_only(a, b);
}

/// Order sensitivity of what is digested: for two blocks whose hashes are
/// distinct and of equal byte length, the two orders join to different bytes.
pub proof fn lemma_order_changes_joined_bytes(x: Block, y: Block)
    requires
        hash_bytes(x).len() == hash_bytes(y).len(),
        hash_bytes(x) != hash_bytes(y),
    ensures
        joined_hashes(seq![x, y]) != joined_hashes(seq![y, x]),
{
    let xy = seq![x, y];
    let yx = seq![y, x];
    assert(xy.drop_last() =~= seq![x]);
    assert(yx.drop_last() =~= seq![y]);
    assert(seq![x].drop_last() =~= Seq::<Block>::empty());
    assert(seq![y].drop_last() =~= Seq::<Block>::empty());
    assert(seq![x].last() == x);
    assert(seq![y].last() == y);
    assert(joined_hashes(Seq::<Block>::empty()) =~= Seq::<u8>::empty());
    assert(joined_hashes(seq![x]) == joined_hashes(seq![x].drop_last()) + hash_bytes(seq![x].last()));
    assert(joined_hashes(seq![y]) == joined_hashes(seq![y].drop_last()) + hash_bytes(seq![y].last()));
    assert(joined_hashes(seq![x]) =~= hash_bytes(x));
    assert(joined_hashes(seq![y]) =~= hash_bytes(y));
    let n = hash_bytes(x).len();
    if joined_hashes(xy) == joined_hashes(yx) {
        assert(joined_hashes(xy).subrange(0, n as int) =~= hash_bytes(x));
        assert(joined_hashes(yx).subrange(0, n as int) =~= hash_bytes(y));
    }
}

} // verus!
