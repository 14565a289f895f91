//! Vertex index lists for the GPU renderer.

use vstd::prelude::*;

verus! {

/// The triangle fan over the `n` vertices of an outline that start at
/// `offset`: triangle `i` joins the first vertex with vertices `i` and
/// `i + 1`, for `i` from 0 to `n - 2`.
pub open spec fn spec_fan_indices(n: nat, offset: nat) -> Seq<u32> {
    Seq::new((3 * (n - 1)) as nat, |k: int| {
        let i = k / 3;
        if k % 3 == 0 {
            offset as u32
        } else if k % 3 == 1 {
            (i + offset) as u32
        } else {
            (i + 1 + offset) as u32
        }
    })
}

/// The indices of the triangle fan over `num_vertices` vertices (taken as a
/// `u32`), numbered from `offset`.
pub fn indices_for_outline(num_vertices: usize, offset: u32) -> (r: Vec<u32>)
    requires
        num_vertices as u32 >= 1,
        offset + (num_vertices as u32) - 1 <= u32::MAX,
    ensures
        r@ == spec_fan_indices((num_vertices as u32) as nat, offset as nat),
{
    let n = num_vertices as u32;
    let mut indices: Vec<u32> = Vec::new();
    let mut i: u32 = 0;
    while i < n - 1
        invariant
            n == num_vertices as u32,
            n >= 1,
            offset + n - 1 <= u32::MAX,
            i <= n - 1,
            indices@ == spec_fan_indices((i + 1) as nat, offset as nat),
        decreases n - 1 - i,
    {
        let ghost before = indices@;
        indices.push(offset);
        indices.push(i + offset);
        indices.push(i + 1 + offset);
        proof {
            let next = spec_fan_indices((i + 2) as nat, offset as nat);
            assert forall|k: int| 0 <= k < next.len() implies #[trigger] next[k] == indices@[k] by {
                if k < 3 * i {
                    assert(next[k] == spec_fan_indices((i + 1) as nat, offset as nat)[k]);
                } else {
                    assert(k / 3 == i) by (nonlinear_arith)
                        requires
                            3 * i <= k < 3 * i + 3,
                    ;
                }
            }
            assert(indices@ =~= next);
        }
        i = i + 1;
    }
    indices
}

/// Every index of the fan names one of the `n` vertices of the outline:
/// it lies from `offset` up to `offset + n - 1`.
pub proof fn lemma_fan_indices_in_range(n: nat, offset: nat)
    requires
        n >= 1,
        offset + n - 1 <= u32::MAX,
    ensures
        forall|k: int|
            0 <= k < spec_fan_indices(n, offset).len() ==> offset <= #[trigger] spec_fan_indices(n, offset)[k]
                < offset + n,
{
    assert forall|k: int| 0 <= k < spec_fan_indices(n, offset).len() implies offset
        <= #[trigger] spec_fan_indices(n, offset)[k] < offset + n by {
        let i = k / 3;
        assert(0 <= i < n - 1) by (nonlinear_arith)
            requires
                0 <= k < 3 * (n - 1),
                i == k / 3,
        ;
    }
}

} // verus!
