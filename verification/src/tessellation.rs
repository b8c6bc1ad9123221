//! Triangle indices of the shapes the renderer draws: quads, fans around a
//! centre vertex, and closed rings of vertex pairs. Every index refers to
//! one of the shape's own vertices, which start at `base`.

use vstd::prelude::*;

verus! {

/// The two triangles of a quad whose four corners start at `base`, in
/// order around the quad.
pub open spec fn quad_index_seq(base: int) -> Seq<int> {
    seq![base, base + 1, base + 2, base, base + 2, base + 3]
}

/// Triangle `i` of a fan: the centre vertex `base`, then outline vertices
/// `i` and `i + 1` (wrapping to the first after the last of `n`).
pub open spec fn fan_triangle(base: int, n: int, i: int) -> Seq<int> {
    seq![base, base + 1 + i, base + 1 + (i + 1) % n]
}

/// Segment `i` of a ring whose vertices come in (outer, inner) pairs: two
/// triangles joining pair `i` to pair `i + 1` (wrapping after the last of
/// `n`).
pub open spec fn ring_segment(base: int, n: int, i: int) -> Seq<int> {
    let i0 = base + i * 2;
    let i2 = base + ((i + 1) % n) * 2;
    seq![i0, i2, i0 + 1, i0 + 1, i2, i2 + 1]
}

/// The view of a list of indices as integers.
pub open spec fn index_ints(v: Seq<u32>) -> Seq<int> {
    v.map_values(|x: u32| x as int)
}

/// The indices of a quad whose four corners start at `base`.
pub fn quad_indices(base: u32) -> (r: Vec<u32>)
    requires
        base + 3 <= u32::MAX,
    ensures
        index_ints(r@) == quad_index_seq(base as int),
{
    let r = vec![base, base + 1, base + 2, base, base + 2, base + 3];
    assert(index_ints(r@) =~= quad_index_seq(base as int));
    r
}

/// The indices of a fan: a centre vertex at `base` followed by `n` outline
/// vertices, one triangle per outline vertex.
pub fn fan_indices(base: u32, n: u32) -> (r: Vec<u32>)
    requires
        n >= 1,
        base + n <= u32::MAX,
    ensures
        r@.len() == 3 * n,
        forall|i: int, k: int|
            0 <= i < n && 0 <= k < 3 ==> #[trigger] r@[3 * i + k] as int == fan_triangle(
                base as int,
                n as int,
                i,
            )[k],
        forall|j: int| 0 <= j < r@.len() ==> base <= #[trigger] r@[j] <= base + n,
{
    let mut r: Vec<u32> = Vec::new();
    let mut i: u32 = 0;
    while i < n
        invariant
            n >= 1,
            base + n <= u32::MAX,
            i <= n,
            r@.len() == 3 * i,
            forall|t: int, k: int|
                0 <= t < i && 0 <= k < 3 ==> #[trigger] r@[3 * t + k] as int == fan_triangle(
                    base as int,
                    n as int,
                    t,
                )[k],
            forall|j: int| 0 <= j < r@.len() ==> base <= #[trigger] r@[j] <= base + n,
        decreases n - i,
    {
        let next = (i + 1) % n;
        let ghost before = r@;
        r.push(base);
        r.push(base + 1 + i);
        r.push(base + 1 + next);
        assert forall|t: int, k: int| 0 <= t < i + 1 && 0 <= k < 3 implies #[trigger] r@[3 * t
            + k] as int == fan_triangle(base as int, n as int, t)[k] by {
            if t < i {
                assert(r@[3 * t + k] == before[3 * t + k]);
            }
        }
        i = i + 1;
    }
    r
}

/// The indices of a closed ring of `n` vertex pairs starting at `base`,
/// two triangles per segment.
pub fn ring_indices(base: u32, n: u32) -> (r: Vec<u32>)
    requires
        n >= 1,
        base + 2 * n <= u32::MAX,
    ensures
        r@.len() == 6 * n,
        forall|i: int, k: int|
            0 <= i < n && 0 <= k < 6 ==> #[trigger] r@[6 * i + k] as int == ring_segment(
                base as int,
                n as int,
                i,
            )[k],
        forall|j: int| 0 <= j < r@.len() ==> base <= #[trigger] r@[j] < base + 2 * n,
{
    let mut r: Vec<u32> = Vec::new();
    let mut i: u32 = 0;
    while i < n
        invariant
            n >= 1,
            base + 2 * n <= u32::MAX,
            i <= n,
            r@.len() == 6 * i,
            forall|t: int, k: int|
                0 <= t < i && 0 <= k < 6 ==> #[trigger] r@[6 * t + k] as int == ring_segment(
                    base as int,
                    n as int,
                    t,
                )[k],
            forall|j: int| 0 <= j < r@.len() ==> base <= #[trigger] r@[j] < base + 2 * n,
        decreases n - i,
    {
        let next = (i + 1) % n;
        let i0 = base + i * 2;
        let i1 = base + i * 2 + 1;
        let i2 = base + next * 2;
        let i3 = base + next * 2 + 1;
        let ghost before = r@;
        r.push(i0);
        r.push(i2);
        r.push(i1);
        r.push(i1);
        r.push(i2);
        r.push(i3);
        assert forall|t: int, k: int| 0 <= t < i + 1 && 0 <= k < 6 implies #[trigger] r@[6 * t
            + k] as int == ring_segment(base as int, n as int, t)[k] by {
            if t < i {
                assert(r@[6 * t + k] == before[6 * t + k]);
            }
        }
        i = i + 1;
    }
    r
}

/// The ring is a closed band: segment `i` starts with the outer and inner
/// vertices of pair `i` (`base + 2i`, `base + 2i + 1`) and reaches the pair
/// that comes next around the ring, `(i + 1) mod n`, whose two vertices
/// are the ones the next segment starts with. Spelled out, segment `i` is
/// `[base+2i, base+2j, base+2i+1, base+2i+1, base+2j, base+2j+1]` with
/// `j = (i + 1) mod n`.
pub proof fn lemma_ring_joins_next_pair(base: int, n: int, i: int)
    requires
        n >= 1,
        0 <= i < n,
    ensures
        ring_segment(base, n, i).len() == 6,
        ring_segment(base, n, i)[0] == base + 2 * i,
        ring_segment(base, n, i)[2] == base + 2 * i + 1,
        ring_segment(base, n, i)[3] == base + 2 * i + 1,
        ring_segment(base, n, i)[1] == ring_segment(base, n, (i + 1) % n)[0],
        ring_segment(base, n, i)[4] == ring_segment(base, n, (i + 1) % n)[0],
        ring_segment(base, n, i)[5] == ring_segment(base, n, (i + 1) % n)[2],
        i + 1 < n ==> ring_segment(base, n, i)[1] == base + 2 * (i + 1),
        i + 1 == n ==> ring_segment(base, n, i)[1] == base,
        ring_segment(base, n, i) == seq![
            base + 2 * i,
            base + 2 * ((i + 1) % n),
            base + 2 * i + 1,
            base + 2 * i + 1,
            base + 2 * ((i + 1) % n),
            base + 2 * ((i + 1) % n) + 1,
        ],
{
    let j = (i + 1) % n;
    assert(0 <= j < n);
    if i + 1 < n {
        vstd::arithmetic::div_mod::lemma_small_mod((i + 1) as nat, n as nat);
    } else {
        vstd::arithmetic::div_mod::lemma_mod_self_0(n);
    }
}

/// A fan turns around its centre: triangle `i` is the centre `base`, the
/// outline vertex `base + 1 + i`, and the outline vertex that the next
/// triangle starts from, wrapping from the last outline vertex to the
/// first.
pub proof fn lemma_fan_joins_next_vertex(base: int, n: int, i: int)
    requires
        n >= 1,
        0 <= i < n,
    ensures
        fan_triangle(base, n, i).len() == 3,
        fan_triangle(base, n, i)[0] == base,
        fan_triangle(base, n, i)[1] == base + 1 + i,
        fan_triangle(base, n, i)[2] == fan_triangle(base, n, (i + 1) % n)[1],
        i + 1 < n ==> fan_triangle(base, n, i)[2] == base + 2 + i,
        i + 1 == n ==> fan_triangle(base, n, i)[2] == base + 1,
{
    let j = (i + 1) % n;
    assert(0 <= j < n);
    if i + 1 < n {
        vstd::arithmetic::div_mod::lemma_small_mod((i + 1) as nat, n as nat);
    } else {
        vstd::arithmetic::div_mod::lemma_mod_self_0(n);
    }
}

/// The quad's two triangles share the diagonal from its first corner to
/// its third, and together use each of the four corners `base..base+3`.
pub proof fn lemma_quad_shares_diagonal(base: int)
    ensures
        quad_index_seq(base) == seq![base, base + 1, base + 2, base, base + 2, base + 3],
        quad_index_seq(base)[0] == quad_index_seq(base)[3],
        quad_index_seq(base)[2] == quad_index_seq(base)[4],
{
}

} // verus!
