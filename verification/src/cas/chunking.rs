use vstd::prelude::*;
use crate::cas::hash::{blake3_digest, hash_bytes, ContentId};
use vstd::arithmetic::div_mod::{lemma_fundamental_div_mod, lemma_fundamental_div_mod_converse};

verus! {

pub const DEFAULT_CHUNK_SIZE: usize = 1024 * 1024;

/// One fixed-size piece of a byte stream, with its content id and position.
#[derive(Debug, Clone)]
pub struct Chunk {
    pub id: ContentId,
    pub data: Vec<u8>,
    pub index: u64,
}

/// Splits byte streams into chunks of a fixed, non-zero size.
#[derive(Debug)]
pub struct Chunker {
    chunk_size: usize,
}

/// Number of chunks a stream of `len` bytes splits into.
pub open spec fn chunk_count(len: nat, size: nat) -> nat
    recommends
        size > 0,
{
    if len == 0 {
        0
    } else {
        ((len - 1) as nat / size) + 1
    }
}

pub open spec fn min_int(a: int, b: int) -> int {
    if a <= b {
        a
    } else {
        b
    }
}

/// The bytes of chunk `i`: `size` bytes from `i * size`, fewer for the last one.
pub open spec fn chunk_slice(data: Seq<u8>, size: nat, i: int) -> Seq<u8> {
    data.subrange(i * size, min_int((i + 1) * size, data.len() as int))
}

/// All chunks of `data`, in stream order.
pub open spec fn chunk_slices(data: Seq<u8>, size: nat) -> Seq<Seq<u8>> {
    Seq::new(chunk_count(data.len(), size), |i: int| chunk_slice(data, size, i))
}

impl Clone for Chunker {
    fn clone(&self) -> (r: Self)
        ensures
            r.size() == self.size(),
    {
        proof {
            use_type_invariant(self);
        }
        Chunker { chunk_size: self.chunk_size }
    }
}

impl Default for Chunker {
    fn default() -> (r: Self)
        ensures
            r.size() == DEFAULT_CHUNK_SIZE,
    {
        Chunker { chunk_size: DEFAULT_CHUNK_SIZE }
    }
}

impl Chunker {
    #[verifier::type_invariant]
    spec fn inv(self) -> bool {
        self.chunk_size > 0
    }

    /// The chunk size in bytes.
    pub closed spec fn size(self) -> nat {
        self.chunk_size as nat
    }

    /// A chunker for `chunk_size`-byte chunks; `None` for a size of zero.
    pub fn new(chunk_size: usize) -> (r: Option<Self>)
        ensures
            r is Some <==> chunk_size > 0,
            r matches Some(c) ==> c.size() == chunk_size,
    {
        if chunk_size > 0 {
            Some(Chunker { chunk_size })
        } else {
            None
        }
    }

    /// Split `data` into chunks; chunk `i` holds `chunk_slice(data, size, i)`, its BLAKE3 id
    /// and `i` as its index. An empty input gives no chunks.
    pub fn chunk(&self, data: &[u8]) -> (r: Vec<Chunk>)
        ensures
            self.size() > 0,
            r.len() == chunk_count(data@.len(), self.size()),
            forall|i: int|
                0 <= i < r.len() ==> {
                    &&& (#[trigger] r[i]).data@ == chunk_slice(data@, self.size(), i)
                    &&& r[i].id@ == blake3_digest(r[i].data@)
                    &&& r[i].index == i
                },
    {
        proof {
            use_type_invariant(self);
        }
        let size = self.chunk_size;
        let n = data.len();
        let mut out: Vec<Chunk> = Vec::new();
        let mut start: usize = 0;
        let mut i: usize = 0;
        while start < n
            invariant
                size == self.size(),
                size > 0,
                n == data@.len(),
                start <= n,
                start == min_int(i * size, n as int),
                i <= n,
                out.len() == i,
                i > 0 ==> (i - 1) * size < n,
                forall|k: int|
                    0 <= k < out.len() ==> {
                        &&& (#[trigger] out[k]).data@ == chunk_slice(data@, size as nat, k)
                        &&& out[k].id@ == blake3_digest(out[k].data@)
                        &&& out[k].index == k
                    },
            decreases n - start,
        {
            let end: usize = if n - start > size {
                start + size
            } else {
                n
            };
            let slice = &data[start..end];
            proof {
                assert(start == i * size);
                assert(i * size >= i) by (nonlinear_arith)
                    requires
                        size > 0,
                ;
                assert((i + 1) * size == i * size + size) by (nonlinear_arith);
                assert(slice@ == chunk_slice(data@, size as nat, i as int));
            }
            let id = hash_bytes(slice);
            let bytes = vstd::slice::slice_to_vec(slice);
            out.push(Chunk { id, data: bytes, index: i as u64 });
            start = end;
            i = i + 1;
        }
        proof {
            lemma_count_bounds(n as nat, size as nat, i as nat);
        }
        out
    }
}

/// If `(q - 1) * size < len <= q * size` (and `len > 0`), then `q` is the chunk count.
proof fn lemma_count_bounds(len: nat, size: nat, q: nat)
    requires
        size > 0,
        len <= q * size,
        q > 0 ==> (q - 1) * size < len,
    ensures
        q == chunk_count(len, size),
{
    if q == 0 {
        assert(len == 0) by (nonlinear_arith)
            requires
                len <= q * size,
                q == 0,
        ;
    } else {
        assert(len > 0);
        let r = (len - 1) - (q - 1) * size;
        assert(0 <= r < size) by (nonlinear_arith)
            requires
                (q - 1) * size < len,
                len <= q * size,
                r == (len - 1) - (q - 1) * size,
                q > 0,
        ;
        lemma_fundamental_div_mod_converse((len - 1) as int, size as int, (q - 1) as int, r);
    }
}

/// Chunk `i` of a non-final position starts inside the stream, and the chunk count covers it.
pub proof fn lemma_count_facts(len: nat, size: nat)
    requires
        size > 0,
    ensures
        chunk_count(len, size) * size >= len,
        chunk_count(len, size) > 0 ==> (chunk_count(len, size) - 1) * size < len,
{
    if len > 0 {
        let q = (len - 1) as nat / size;
        let r = (len - 1) as nat % size;
        lemma_fundamental_div_mod((len - 1) as int, size as int);
        vstd::arithmetic::div_mod::lemma_mod_pos_bound((len - 1) as int, size as int);
        assert(q * size == size * q) by (nonlinear_arith);
        assert((q + 1) * size == q * size + size) by (nonlinear_arith);
        assert(chunk_count(len, size) == q + 1);
    }
}

/// The first `k` chunks of `data`, joined, are the first `min(k * size, len)` bytes.
proof fn lemma_prefix_reassemble(data: Seq<u8>, size: nat, k: nat)
    requires
        size > 0,
        k <= chunk_count(data.len(), size),
    ensures
        chunk_slices(data, size).take(k as int).flatten() == data.take(
            min_int((k * size) as int, data.len() as int),
        ),
    decreases k,
{
    let s = chunk_slices(data, size);
    let count = chunk_count(data.len(), size);
    lemma_count_facts(data.len(), size);
    if k == 0 {
        assert(s.take(0) =~= Seq::<Seq<u8>>::empty());
        assert(data.take(0) =~= Seq::<u8>::empty());
    } else {
        let j = (k - 1) as nat;
        lemma_prefix_reassemble(data, size, j);
        assert(s.take(k as int) =~= s.take(j as int).push(s[j as int]));
        s.take(j as int).lemma_flatten_push(s[j as int]);
        assert(j * size < data.len()) by (nonlinear_arith)
            requires
                j < count,
                count > 0,
                (count - 1) * size < data.len(),
        ;
        assert(k * size == j * size + size) by (nonlinear_arith)
            requires
                k == j + 1,
        ;
        assert(data.take(min_int((j * size) as int, data.len() as int)) + chunk_slice(
            data,
            size,
            j as int,
        ) =~= data.take(min_int((k * size) as int, data.len() as int)));
    }
}

/// The chunks, laid end to end, reach exactly the end of the stream.
pub proof fn lemma_count_cover(len: nat, size: nat)
    requires
        size > 0,
    ensures
        min_int((chunk_count(len, size) * size) as int, len as int) == len,
{
    lemma_count_facts(len, size);
}

/// Joining the chunks of `data` back together, in order, gives `data`.
pub proof fn lemma_chunks_reassemble(data: Seq<u8>, size: nat)
    requires
        size > 0,
    ensures
        chunk_slices(data, size).flatten() == data,
{
    let s = chunk_slices(data, size);
    let count = chunk_count(data.len(), size);
    lemma_count_facts(data.len(), size);
    lemma_prefix_reassemble(data, size, count);
    assert(s.take(count as int) =~= s);
    assert(data.take(min_int((count * size) as int, data.len() as int)) =~= data);
}

/// Every chunk but the last holds exactly `size` bytes; the last one holds between one and
/// `size` bytes.
pub proof fn lemma_chunk_lengths(data: Seq<u8>, size: nat, i: int)
    requires
        size > 0,
        0 <= i < chunk_count(data.len(), size),
    ensures
        i < chunk_count(data.len(), size) - 1 ==> chunk_slice(data, size, i).len() == size,
        i == chunk_count(data.len(), size) - 1 ==> 0 < chunk_slice(data, size, i).len() <= size,
{
    let count = chunk_count(data.len(), size);
    lemma_count_facts(data.len(), size);
    assert((i + 1) * size == i * size + size) by (nonlinear_arith);
    assert(i * size < data.len()) by (nonlinear_arith)
        requires
            i < count,
            0 <= i,
            (count - 1) * size < data.len(),
    ;
    if i < count - 1 {
        assert((i + 1) * size <= (count - 1) * size) by (nonlinear_arith)
            requires
                i + 1 <= count - 1,
                size > 0,
        ;
    } else {
        assert(count * size >= data.len());
    }
}

} // verus!
