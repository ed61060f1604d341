use vstd::prelude::*;
use vstd::arithmetic::div_mod::lemma_fundamental_div_mod;

verus! {

/// The part of stream `s` that belongs to vertex `v`: `size` components
/// starting at `v * size`.
pub open spec fn chunk(s: Seq<u32>, size: nat, v: int) -> Seq<u32> {
    s.subrange(v * size, v * size + size)
}

/// Vertices `0..n` of two streams packed into one buffer: for each vertex in
/// turn, its chunk of the first stream followed by its chunk of the second.
pub open spec fn interleaved(a: Seq<u32>, a_size: nat, b: Seq<u32>, b_size: nat, n: nat) -> Seq<u32>
    decreases n,
{
    if n == 0 {
        Seq::empty()
    } else {
        interleaved(a, a_size, b, b_size, (n - 1) as nat) + chunk(a, a_size, n - 1) + chunk(
            b,
            b_size,
            n - 1,
        )
    }
}

/// Packs two streams of equal vertex count into one interleaved buffer.
pub fn interleave(first: &Vec<u32>, first_size: usize, second: &Vec<u32>, second_size: usize) -> (r:
    Vec<u32>)
    requires
        first_size > 0,
        second_size > 0,
        first.len() % first_size == 0,
        second.len() % second_size == 0,
        first.len() / first_size == second.len() / second_size,
    ensures
        r@ == interleaved(
            first@,
            first_size as nat,
            second@,
            second_size as nat,
            (first.len() / first_size) as nat,
        ),
{
    let n: usize = first.len() / first_size;
    proof {
        lemma_fundamental_div_mod(first.len() as int, first_size as int);
        lemma_fundamental_div_mod(second.len() as int, second_size as int);
    }
    let mut out: Vec<u32> = Vec::new();
    let mut v: usize = 0;
    let mut a_start: usize = 0;
    let mut b_start: usize = 0;
    while v < n
        invariant
            v <= n,
            n == first.len() / first_size,
            n == second.len() / second_size,
            n * first_size == first.len(),
            n * second_size == second.len(),
            a_start == v * first_size,
            b_start == v * second_size,
            out@ == interleaved(first@, first_size as nat, second@, second_size as nat, v as nat),
        decreases n - v,
    {
        proof {
            assert((v + 1) * first_size <= n * first_size) by (nonlinear_arith)
                requires
                    v < n,
            ;
            assert((v + 1) * second_size <= n * second_size) by (nonlinear_arith)
                requires
                    v < n,
            ;
            assert((v + 1) * first_size == v * first_size + first_size) by (nonlinear_arith);
            assert((v + 1) * second_size == v * second_size + second_size) by (nonlinear_arith);
        }
        let ghost before = out@;
        let mut j: usize = 0;
        while j < first_size
            invariant
                j <= first_size,
                a_start + first_size <= first.len(),
                out@ == before + first@.subrange(a_start as int, a_start + j),
            decreases first_size - j,
        {
            out.push(first[a_start + j]);
            j += 1;
            proof {
                assert(out@ =~= before + first@.subrange(a_start as int, a_start + j));
            }
        }
        let ghost middle = out@;
        let mut k: usize = 0;
        while k < second_size
            invariant
                k <= second_size,
                b_start + second_size <= second.len(),
                out@ == middle + second@.subrange(b_start as int, b_start + k),
            decreases second_size - k,
        {
            out.push(second[b_start + k]);
            k += 1;
            proof {
                assert(out@ =~= middle + second@.subrange(b_start as int, b_start + k));
            }
        }
        v += 1;
        a_start += first_size;
        b_start += second_size;
    }
    out
}

/// Interleaving keeps each stream's order and alternates the streams one
/// vertex chunk at a time: the buffer holds `a_size + b_size` components per
/// vertex, component `j` of vertex `v` of the first stream sits at
/// `v * (a_size + b_size) + j`, and component `j` of vertex `v` of the second
/// stream sits right after that vertex's chunk of the first.
pub proof fn lemma_interleaved_layout(
    a: Seq<u32>,
    a_size: nat,
    b: Seq<u32>,
    b_size: nat,
    n: nat,
    v: int,
    j: int,
)
    requires
        a.len() >= n * a_size,
        b.len() >= n * b_size,
        0 <= v < n,
        0 <= j,
    ensures
        interleaved(a, a_size, b, b_size, n).len() == n * (a_size + b_size),
        j < a_size ==> interleaved(a, a_size, b, b_size, n)[v * (a_size + b_size) + j] == a[v
            * a_size + j],
        j < b_size ==> interleaved(a, a_size, b, b_size, n)[v * (a_size + b_size) + a_size + j]
            == b[v * b_size + j],
    decreases n,
{
    let m = (n - 1) as nat;
    assert(m * a_size + a_size == n * a_size) by (nonlinear_arith)
        requires
            m == n - 1,
    ;
    assert(m * b_size + b_size == n * b_size) by (nonlinear_arith)
        requires
            m == n - 1,
    ;
    assert(m * a_size <= n * a_size && m * b_size <= n * b_size) by (nonlinear_arith)
        requires
            m == n - 1,
    ;
    lemma_interleaved_len(a, a_size, b, b_size, m);
    assert(m * (a_size + b_size) + a_size + b_size == n * (a_size + b_size)) by (nonlinear_arith)
        requires
            m == n - 1,
    ;
    if v < m {
        lemma_interleaved_layout(a, a_size, b, b_size, m, v, j);
        assert(v * (a_size + b_size) + a_size + b_size <= m * (a_size + b_size)) by (
        nonlinear_arith)
            requires
                v < m,
        ;
    } else {
        assert(v * (a_size + b_size) == m * (a_size + b_size));
        assert(v * a_size == m * a_size);
        assert(v * b_size == m * b_size);
    }
}

/// The first `n` vertices of two streams fill `n * (a_size + b_size)` components.
pub proof fn lemma_interleaved_len(a: Seq<u32>, a_size: nat, b: Seq<u32>, b_size: nat, n: nat)
    requires
        a.len() >= n * a_size,
        b.len() >= n * b_size,
    ensures
        interleaved(a, a_size, b, b_size, n).len() == n * (a_size + b_size),
    decreases n,
{
    if n > 0 {
        let m = (n - 1) as nat;
        assert(m * a_size + a_size == n * a_size && m * b_size + b_size == n * b_size) by (
        nonlinear_arith)
            requires
                m == n - 1,
        ;
        assert(m * (a_size + b_size) + a_size + b_size == n * (a_size + b_size)) by (
        nonlinear_arith)
            requires
                m == n - 1,
        ;
        lemma_interleaved_len(a, a_size, b, b_size, m);
        assert(chunk(a, a_size, m as int).len() == a_size);
        assert(chunk(b, b_size, m as int).len() == b_size);
    } else {
        assert(n * (a_size + b_size) == 0) by (nonlinear_arith)
            requires
                n == 0,
        ;
    }
}

} // verus!
