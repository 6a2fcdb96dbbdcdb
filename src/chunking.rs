//! How a source image is cut into chunks, and the wraparound checksum of a chunk.

use vstd::arithmetic::div_mod::lemma_fundamental_div_mod;
use vstd::prelude::*;

verus! {

/// 2^32, the modulus of the checksum.
pub open spec fn checksum_modulus() -> nat {
    0x1_0000_0000
}

/// The plain (unbounded) sum of the byte values of `s`.
pub open spec fn byte_sum(s: Seq<u8>) -> nat
    decreases s.len(),
{
    if s.len() == 0 {
        0
    } else {
        byte_sum(s.drop_last()) + s.last() as nat
    }
}

/// The checksum of a chunk: the sum of its byte values modulo 2^32.
pub open spec fn wrapping_sum(s: Seq<u8>) -> u32 {
    (byte_sum(s) % checksum_modulus()) as u32
}

/// Computes the wraparound checksum of `data`.
pub fn checksum(data: &[u8]) -> (r: u32)
    ensures
        r == wrapping_sum(data@),
{
    let mut acc: u32 = 0;
    let mut i: usize = 0;
    while i < data.len()
        invariant
            i <= data@.len(),
            acc as nat == byte_sum(data@.take(i as int)) % checksum_modulus(),
        decreases data@.len() - i,
    {
        let b = data[i];
        proof {
            assert(data@.take(i + 1).drop_last() == data@.take(i as int));
        }
        acc = acc.wrapping_add(b as u32);
        i = i + 1;
    }
    proof {
        assert(data@.take(data@.len() as int) == data@);
    }
    acc
}


proof fn lemma_byte_sum_remove(s: Seq<u8>, i: int)
    requires
        0 <= i < s.len(),
    ensures
        byte_sum(s) == byte_sum(s.remove(i)) + s[i] as nat,
    decreases s.len(),
{
    if i == s.len() - 1 {
        assert(s.remove(i) == s.drop_last());
    } else {
        lemma_byte_sum_remove(s.drop_last(), i);
        assert(s.remove(i).drop_last() == s.drop_last().remove(i));
        assert(s.remove(i).last() == s.last());
    }
}

proof fn lemma_byte_sum_permutation(a: Seq<u8>, b: Seq<u8>)
    requires
        a.to_multiset() == b.to_multiset(),
    ensures
        byte_sum(a) == byte_sum(b),
    decreases a.len(),
{
    broadcast use vstd::seq_lib::group_to_multiset_ensures;

    if a.len() == 0 {
        assert(a.to_multiset().len() == 0);
        assert(b.to_multiset().len() == b.len());
        assert(b.len() == 0);
    } else {
        let x = a.last();
        let rest = a.drop_last();
        assert(a == rest.push(x));
        assert(a.to_multiset().count(x) > 0);
        assert(b.contains(x));
        let j = choose|j: int| 0 <= j < b.len() && b[j] == x;
        lemma_byte_sum_remove(b, j);
        assert(rest.to_multiset() == b.remove(j).to_multiset()) by {
            assert(a.to_multiset() == rest.to_multiset().insert(x));
            assert(rest.to_multiset() =~= a.to_multiset().remove(x));
        }
        lemma_byte_sum_permutation(rest, b.remove(j));
    }
}

/// The checksum does not depend on the order of the bytes: two chunks that
/// hold the same bytes, each as many times, have the same checksum.
pub proof fn lemma_checksum_order_independent(a: Seq<u8>, b: Seq<u8>)
    requires
        a.to_multiset() == b.to_multiset(),
    ensures
        wrapping_sum(a) == wrapping_sum(b),
{
    lemma_byte_sum_permutation(a, b);
}

/// How many chunks of `size` bytes a file of `total` bytes is cut into:
/// `total / size` rounded up.
pub open spec fn chunk_count_of(total: nat, size: nat) -> nat
    recommends
        size > 0,
{
    if total % size == 0 {
        total / size
    } else {
        total / size + 1
    }
}

/// The offset in the file at which chunk `i` starts.
pub open spec fn chunk_start_of(size: nat, i: nat) -> nat {
    i * size
}

/// The length of chunk `i`: `size`, except for a last chunk that the end of
/// the file cuts short.
pub open spec fn chunk_len_of(total: nat, size: nat, i: nat) -> nat {
    if (i + 1) * size <= total {
        size
    } else {
        (total - i * size) as nat
    }
}

/// The summed lengths of the first `n` chunks.
pub open spec fn chunk_lengths_sum(total: nat, size: nat, n: nat) -> nat
    decreases n,
{
    if n == 0 {
        0
    } else {
        chunk_lengths_sum(total, size, (n - 1) as nat) + chunk_len_of(total, size, (n - 1) as nat)
    }
}

/// While whole chunks fit, the first `n` chunks hold `n * size` bytes.
pub proof fn lemma_full_chunks_sum(total: nat, size: nat, n: nat)
    requires
        n * size <= total,
    ensures
        chunk_lengths_sum(total, size, n) == n * size,
    decreases n,
{
    if n > 0 {
        let m = (n - 1) as nat;
        assert(m * size <= n * size) by (nonlinear_arith)
            requires
                m + 1 == n,
        ;
        assert((m + 1) * size == m * size + size) by (nonlinear_arith);
        assert(chunk_len_of(total, size, m) == size);
        lemma_full_chunks_sum(total, size, m);
        assert(chunk_lengths_sum(total, size, n) == chunk_lengths_sum(total, size, m)
            + chunk_len_of(total, size, m));
        assert(m * size + size == n * size) by (nonlinear_arith)
            requires
                m + 1 == n,
        ;
    } else {
        assert(n * size == 0) by (nonlinear_arith)
            requires
                n == 0,
        ;
    }
}

/// Every chunk of the plan starts inside the file.
pub proof fn lemma_chunk_starts_inside(total: nat, size: nat, i: nat)
    requires
        size > 0,
        i < chunk_count_of(total, size),
    ensures
        i * size < total,
        0 < chunk_len_of(total, size, i) <= size,
        i * size + chunk_len_of(total, size, i) <= total,
{
    lemma_fundamental_div_mod(total as int, size as int);
    let q = total / size;
    if total % size == 0 {
        assert(i * size < q * size) by (nonlinear_arith)
            requires
                i < q,
                size > 0,
        ;
    } else {
        assert(i * size <= q * size) by (nonlinear_arith)
            requires
                i <= q,
                size > 0,
        ;
    }
    assert((i + 1) * size == i * size + size) by (nonlinear_arith);
}

/// The chunk plan covers the file exactly: there are `ceil(total / size)`
/// chunks, their lengths add up to `total`, and every chunk but the last is
/// `size` bytes long.
pub proof fn lemma_chunk_plan_covers_file(total: nat, size: nat)
    requires
        size > 0,
    ensures
        chunk_count_of(total, size) * size >= total,
        chunk_count_of(total, size) > 0 ==> (chunk_count_of(total, size) - 1) * size < total,
        chunk_lengths_sum(total, size, chunk_count_of(total, size)) == total,
        forall|i: nat|
            i + 1 < chunk_count_of(total, size) ==> #[trigger] chunk_len_of(total, size, i) == size,
        chunk_count_of(total, size) > 0 ==> 0 < chunk_len_of(
            total,
            size,
            (chunk_count_of(total, size) - 1) as nat,
        ) <= size,
{
    lemma_fundamental_div_mod(total as int, size as int);
    let q = total / size;
    let n = chunk_count_of(total, size);
    assert(q * size == size * q) by (nonlinear_arith);
    if total % size == 0 {
        lemma_full_chunks_sum(total, size, q);
    } else {
        lemma_full_chunks_sum(total, size, q);
        assert((q + 1) * size == q * size + size) by (nonlinear_arith);
        assert(chunk_len_of(total, size, q) == total - q * size);
    }
    if n > 0 {
        lemma_chunk_starts_inside(total, size, (n - 1) as nat);
        assert((n - 1) * size == n * size - size) by (nonlinear_arith)
            requires
                n > 0,
        ;
    }
    assert forall|i: nat| i + 1 < n implies #[trigger] chunk_len_of(total, size, i) == size by {
        assert((i + 1) * size <= q * size) by (nonlinear_arith)
            requires
                i + 1 <= q,
                size > 0,
        ;
    }
}

/// The number of chunks of `chunk_size` bytes that a file of `total` bytes
/// is cut into.
pub fn chunk_count(total: usize, chunk_size: usize) -> (r: usize)
    requires
        chunk_size > 0,
    ensures
        r == chunk_count_of(total as nat, chunk_size as nat),
{
    let q = total / chunk_size;
    if total % chunk_size != 0 {
        assert(q < total) by {
            lemma_fundamental_div_mod(total as int, chunk_size as int);
            assert(chunk_size > 1);
            assert(q * chunk_size >= q) by (nonlinear_arith)
                requires
                    chunk_size > 0,
            ;
        }
        q + 1
    } else {
        q
    }
}

/// The range `[start, end)` of the file that chunk `index` covers.
pub fn chunk_bounds(total: usize, chunk_size: usize, index: usize) -> (r: (usize, usize))
    requires
        chunk_size > 0,
        index < chunk_count_of(total as nat, chunk_size as nat),
    ensures
        r.0 == chunk_start_of(chunk_size as nat, index as nat),
        r.1 == r.0 + chunk_len_of(total as nat, chunk_size as nat, index as nat),
        r.0 < r.1 <= total,
{
    proof {
        lemma_chunk_starts_inside(total as nat, chunk_size as nat, index as nat);
    }
    let start = index * chunk_size;
    let remaining = total - start;
    let len = if remaining > chunk_size {
        chunk_size
    } else {
        remaining
    };
    proof {
        assert((index + 1) * chunk_size == index * chunk_size + chunk_size) by (nonlinear_arith);
    }
    (start, start + len)
}

} // verus!
