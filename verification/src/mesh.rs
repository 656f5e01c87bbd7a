//! The fan triangulation of a brick's outline: vertex 0 is the brick's centre,
//! vertices `1..=n` walk the outline, and triangle `t` joins the centre with
//! outline vertex `t` and the next one, wrapping around after the last.

use vstd::prelude::*;

verus! {

/// The second corner of triangle `t` of a fan over an outline of `n` vertices.
pub open spec fn fan_second(t: int) -> int {
    t + 1
}

/// The third corner of triangle `t` of a fan over an outline of `n` vertices.
pub open spec fn fan_third(t: int, n: int) -> int {
    (t + 1) % n + 1
}

/// The triangle list of the fan: for each outline vertex `t` (0-based), the
/// corners centre, outline vertex `t` and outline vertex `t + 1` (the first again
/// after the last), numbered as mesh vertices with the centre at 0. Indices are
/// 32-bit and wrap around for outlines of more than `u32::MAX` vertices.
pub fn fan_triangle_indices(n: usize) -> (indices: Vec<u32>)
    ensures
        indices@.len() == 3 * n,
        forall|t: int|
            0 <= t < n ==> {
                &&& #[trigger] indices@[3 * t] == 0
                &&& indices@[3 * t + 1] == fan_second(t) as u32
                &&& indices@[3 * t + 2] == fan_third(t, n as int) as u32
            },
{
    let mut indices: Vec<u32> = Vec::new();
    let mut i: usize = 0;
    while i < n
        invariant
            i <= n,
            indices@.len() == 3 * i,
            forall|t: int|
                0 <= t < i ==> {
                    &&& #[trigger] indices@[3 * t] == 0
                    &&& indices@[3 * t + 1] == fan_second(t) as u32
                    &&& indices@[3 * t + 2] == fan_third(t, n as int) as u32
                },
        decreases n - i,
    {
        let ghost old_indices = indices@;
        let a = #[verifier::truncate] ((i + 1) as u32);
        let b = #[verifier::truncate] ((((i + 1) % n) + 1) as u32);
        indices.push(0);
        indices.push(a);
        indices.push(b);
        assert forall|t: int| 0 <= t < i + 1 implies {
            &&& #[trigger] indices@[3 * t] == 0
            &&& indices@[3 * t + 1] == fan_second(t) as u32
            &&& indices@[3 * t + 2] == fan_third(t, n as int) as u32
        } by {
            if t < i {
                assert(indices@[3 * t] == old_indices[3 * t]);
                assert(indices@[3 * t + 1] == old_indices[3 * t + 1]);
                assert(indices@[3 * t + 2] == old_indices[3 * t + 2]);
            }
        }
        i += 1;
    }
    indices
}

/// Every index of the fan names a vertex of the mesh (the centre and the `n`
/// outline vertices).
pub proof fn fan_indices_are_in_range(n: int, t: int)
    requires
        0 <= t < n,
    ensures
        1 <= fan_second(t) <= n,
        1 <= fan_third(t, n) <= n,
{
}

/// The fan closes: each triangle ends on the outline vertex where the next
/// begins, and the last ends where the first begins, so the triangles cover the
/// whole outline once around.
pub proof fn fan_closes(n: int, t: int)
    requires
        0 <= t < n,
    ensures
        fan_third(t, n) == fan_second((t + 1) % n),
        t == n - 1 ==> fan_third(t, n) == fan_second(0),
{
    if t == n - 1 {
        vstd::arithmetic::div_mod::lemma_mod_self_0(n);
    }
}


/// Triangle `t` joins the centre with outline vertex `t + 1` and the next
/// outline vertex, `t + 2`, or vertex 1 again after the last: so every outline
/// vertex `1..=n` starts exactly one triangle and ends exactly one.
pub proof fn fan_walks_the_whole_outline(n: int, t: int)
    requires
        0 <= t < n,
    ensures
        fan_second(t) == t + 1,
        fan_third(t, n) == if t + 1 < n { t + 2 } else { 1 },
{
    if t + 1 < n {
        vstd::arithmetic::div_mod::lemma_small_mod((t + 1) as nat, n as nat);
    } else {
        vstd::arithmetic::div_mod::lemma_mod_self_0(n);
    }
}

} // verus!
