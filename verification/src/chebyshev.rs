use vstd::prelude::*;

verus! {

/// The Chebyshev basis value `T_k(t)` by the standard three-term
/// recurrence `T_0 = 1`, `T_1 = t`, `T_k = 2 t T_{k-1} - T_{k-2}`,
/// stated over the integers.  At the integer arguments `-1`, `0` and `1`
/// — the edges and the midpoint of a normalized window — every
/// intermediate value of the recurrence is a small integer, so these are
/// also exactly the values IEEE-754 evaluation of the recurrence
/// produces there.
pub open spec fn cheb_basis(k: nat, t: int) -> int
    decreases k,
{
    if k == 0 {
        1
    } else if k == 1 {
        t
    } else {
        2 * t * cheb_basis((k - 1) as nat, t) - cheb_basis((k - 2) as nat, t)
    }
}

/// The zeroth basis polynomial is one at every argument: evaluating a
/// window at any offset always reproduces the zeroth-order coefficient
/// with unit weight.
pub proof fn lemma_cheb_basis_zeroth(t: int)
    ensures
        cheb_basis(0, t) == 1,
{
}

/// Every basis polynomial is one at the right window edge:
/// `T_k(1) == 1` for all `k`.
pub proof fn lemma_cheb_basis_at_one(k: nat)
    ensures
        cheb_basis(k, 1) == 1,
    decreases k,
{
    if k >= 2 {
        lemma_cheb_basis_at_one((k - 1) as nat);
        lemma_cheb_basis_at_one((k - 2) as nat);
    }
}

/// At the left window edge the basis alternates:
/// `T_k(-1) == (-1)^k` for all `k`.
pub proof fn lemma_cheb_basis_at_minus_one(k: nat)
    ensures
        cheb_basis(k, -1) == if k % 2 == 0 {
            1int
        } else {
            -1int
        },
    decreases k,
{
    if k >= 2 {
        lemma_cheb_basis_at_minus_one((k - 1) as nat);
        lemma_cheb_basis_at_minus_one((k - 2) as nat);
    }
}

/// At the window midpoint the basis cycles with period four:
/// `T_k(0)` is `1, 0, -1, 0` as `k % 4` is `0, 1, 2, 3`.
pub proof fn lemma_cheb_basis_at_zero(k: nat)
    ensures
        cheb_basis(k, 0) == if k % 4 == 0 {
            1int
        } else if k % 4 == 2 {
            -1int
        } else {
            0int
        },
    decreases k,
{
    if k >= 2 {
        lemma_cheb_basis_at_zero((k - 2) as nat);
        vstd::arithmetic::div_mod::lemma_mod_adds((k - 2) as int, 2, 4);
        let m: int = (k - 2) as int % 4;
        assert(0 <= m && m < 4);
        assert(k % 4 == if m < 2 {
            m + 2
        } else {
            m - 2
        });
        assert(cheb_basis(k, 0) == -cheb_basis((k - 2) as nat, 0));
    }
}

/// The exact basis values `T_0(t) .. T_{degree-1}(t)` at an integer
/// argument `t` in `{-1, 0, 1}`: the window edges and the midpoint,
/// where floating-point evaluation of the recurrence is exact.
pub fn chebyshev_edge_values(degree: usize, t: i64) -> (r: Vec<i64>)
    requires
        -1 <= t && t <= 1,
    ensures
        r@.len() == degree as int,
        forall|k: int| 0 <= k < degree as int ==> r@[k] == cheb_basis(k as nat, t as int),
{
    let mut r: Vec<i64> = Vec::new();
    if degree == 0 {
        return r;
    }
    r.push(1);
    if degree == 1 {
        return r;
    }
    r.push(t);
    let mut i: usize = 2;
    while i < degree
        invariant
            2 <= i && i <= degree,
            r@.len() == i as int,
            -1 <= t && t <= 1,
            forall|k: int| 0 <= k < i as int ==> r@[k] == cheb_basis(k as nat, t as int),
            forall|k: int| 0 <= k < i as int ==> -1 <= #[trigger] r@[k] && r@[k] <= 1,
        decreases degree - i,
    {
        let a = r[i - 1];
        let b = r[i - 2];
        proof {
            assert(-2 <= 2 * t * a && 2 * t * a <= 2) by (nonlinear_arith)
                requires
                    -1 <= t && t <= 1,
                    -1 <= a && a <= 1,
            ;
        }
        let v = 2 * t * a - b;
        proof {
            assert(v == cheb_basis(i as nat, t as int));
            if t == 1 {
                lemma_cheb_basis_at_one(i as nat);
            } else if t == 0 {
                lemma_cheb_basis_at_zero(i as nat);
            } else {
                lemma_cheb_basis_at_minus_one(i as nat);
            }
        }
        r.push(v);
        i = i + 1;
    }
    r
}

} // verus!
