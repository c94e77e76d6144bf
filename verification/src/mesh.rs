//! Triangle topology of the ring and band meshes behind gradient borders and
//! inner glows.
use vstd::prelude::*;

verus! {

/// The vertex after `k` around a closed ring of `n` vertices.
pub open spec fn ring_next(n: nat, k: nat) -> nat {
    if k + 1 == n { 0 } else { k + 1 }
}

/// The two triangles of quad `k` of a ring strip: outer vertices are `0..n`,
/// the matching inner vertices `n..2n`; the quad joins the outer edge
/// `(k, next)` to the inner edge `(n + next, n + k)`.
pub open spec fn ring_quad(n: nat, k: nat) -> Seq<u32> {
    let next = ring_next(n, k);
    seq![k as u32, next as u32, (n + next) as u32, k as u32, (n + next) as u32, (n + k) as u32]
}

/// The ring closes and visits every vertex once: stepping from each of the
/// `n` outer vertices lands on an outer vertex, the last steps back to the
/// first, and no two vertices step to the same one.
pub proof fn law_ring_closes(n: nat)
    requires
        n > 0,
    ensures
        forall|k: nat| k < n ==> #[trigger] ring_next(n, k) < n,
        ring_next(n, (n - 1) as nat) == 0,
        forall|k: nat| k + 1 < n ==> #[trigger] ring_next(n, k) == k + 1,
        forall|j: nat, k: nat| j < n && k < n && #[trigger] ring_next(n, j) == #[trigger] ring_next(n, k) ==> j == k,
{
}

/// Each quad of a ring strip is two triangles over the same four vertices:
/// outer `k` and its successor, and the inner vertices matching them. The two
/// triangles share the diagonal from outer `k` to the inner successor, and
/// every index is a vertex of the `2n`-vertex mesh.
pub proof fn law_ring_quad_shape(n: nat, k: nat)
    requires
        0 < n <= 0x1000_0000,
        k < n,
    ensures
        ({
            let q = ring_quad(n, k);
            let next = ring_next(n, k);
            &&& q.len() == 6
            &&& forall|i: int| 0 <= i < 6 ==> q[i] < 2 * n
            &&& q[0] == k && q[1] == next
            &&& q[3] == q[0] && q[4] == q[2]
            &&& q[2] == n + next && q[5] == n + k
            &&& q[0] < n && q[1] < n && q[2] >= n && q[5] >= n
        }),
{
}

/// Triangle indices of a closed strip between an outer ring of `n` vertices
/// (indices `0..n`) and an inner ring of `n` matching vertices (`n..2n`):
/// two triangles per quad, every index a vertex of the mesh.
pub fn ring_strip_indices(n: u32) -> (idx: Vec<u32>)
    requires
        n <= 0x1000_0000,
    ensures
        idx@.len() == 6 * n,
        forall|k: int| 0 <= k < n ==> #[trigger] idx@.subrange(6 * k, 6 * k + 6) == ring_quad(n as nat, k as nat),
        forall|i: int| 0 <= i < idx@.len() ==> #[trigger] idx@[i] < 2 * n,
{
    let mut idx: Vec<u32> = Vec::new();
    let mut k: u32 = 0;
    while k < n
        invariant
            k <= n,
            n <= 0x1000_0000,
            idx@.len() == 6 * k,
            forall|j: int| 0 <= j < k ==> #[trigger] idx@.subrange(6 * j, 6 * j + 6) == ring_quad(n as nat, j as nat),
            forall|i: int| 0 <= i < idx@.len() ==> #[trigger] idx@[i] < 2 * n,
        decreases n - k,
    {
        let next = if k + 1 == n { 0 } else { k + 1 };
        let ghost before = idx@;
        idx.push(k);
        idx.push(next);
        idx.push(n + next);
        idx.push(k);
        idx.push(n + next);
        idx.push(n + k);
        proof {
            assert(idx@.subrange(6 * k as int, 6 * k as int + 6) =~= ring_quad(n as nat, k as nat));
            assert forall|j: int| 0 <= j < k + 1 implies #[trigger] idx@.subrange(6 * j, 6 * j + 6)
                == ring_quad(n as nat, j as nat) by {
                if j < k {
                    assert(idx@.subrange(6 * j, 6 * j + 6) =~= before.subrange(6 * j, 6 * j + 6));
                }
            }
        }
        k = k + 1;
    }
    idx
}

/// Triangle indices of the mitered picture-frame ring: outer corners `0..8`
/// (each corner duplicated per edge), inner corners `8..16`; one quad per
/// edge (top, right, bottom, left), two triangles each.
pub fn mitered_ring_indices() -> (idx: Vec<u32>)
    ensures
        idx@ == seq![
            0u32, 1, 9, 0, 9, 8,
            2, 3, 11, 2, 11, 10,
            4, 5, 13, 4, 13, 12,
            6, 7, 15, 6, 15, 14,
        ],
        forall|i: int| 0 <= i < idx@.len() ==> #[trigger] idx@[i] < 16,
{
    let mut idx: Vec<u32> = Vec::new();
    let mut a: u32 = 0;
    while a < 8
        invariant
            a % 2 == 0,
            a <= 8,
            idx@.len() == 3 * a,
            forall|q: int| 0 <= q < a / 2 ==> #[trigger] idx@.subrange(6 * q, 6 * q + 6)
                == seq![(2 * q) as u32, (2 * q + 1) as u32, (2 * q + 9) as u32,
                        (2 * q) as u32, (2 * q + 9) as u32, (2 * q + 8) as u32],
        decreases 8 - a,
    {
        let b = a + 1;
        let ghost before = idx@;
        idx.push(a);
        idx.push(b);
        idx.push(b + 8);
        idx.push(a);
        idx.push(b + 8);
        idx.push(a + 8);
        proof {
            let q = a / 2;
            assert(idx@.subrange(6 * q as int, 6 * q as int + 6) =~= seq![(2 * q) as u32, (2 * q + 1) as u32,
                (2 * q + 9) as u32, (2 * q) as u32, (2 * q + 9) as u32, (2 * q + 8) as u32]);
            assert forall|j: int| 0 <= j < q + 1 implies #[trigger] idx@.subrange(6 * j, 6 * j + 6)
                == seq![(2 * j) as u32, (2 * j + 1) as u32, (2 * j + 9) as u32,
                        (2 * j) as u32, (2 * j + 9) as u32, (2 * j + 8) as u32] by {
                if j < q {
                    assert(idx@.subrange(6 * j, 6 * j + 6) =~= before.subrange(6 * j, 6 * j + 6));
                }
            }
        }
        a = a + 2;
    }
    proof {
        let target = seq![
            0u32, 1, 9, 0, 9, 8,
            2, 3, 11, 2, 11, 10,
            4, 5, 13, 4, 13, 12,
            6, 7, 15, 6, 15, 14,
        ];
        assert forall|i: int| 0 <= i < 24 implies idx@[i] == target[i] by {
            let q = i / 6;
            assert(idx@.subrange(6 * q, 6 * q + 6)[i - 6 * q] == idx@[i]);
        }
        assert(idx@ =~= target);
    }
    idx
}

/// The two triangles of a straight glow band whose four vertices were
/// appended at `base`: outer pair `base, base + 1`, inner pair
/// `base + 2, base + 3`.
pub fn band_indices(base: u32) -> (idx: [u32; 6])
    requires
        base <= u32::MAX - 3,
    ensures
        idx@ == seq![base, (base + 1) as u32, (base + 3) as u32, base, (base + 3) as u32, (base + 2) as u32],
{
    [base, base + 1, base + 3, base, base + 3, base + 2]
}

} // verus!
