//! Enumeration of the spanning set: every combination of the downside and
//! upside outcomes of independent binary risk factors.
use vstd::arithmetic::div_mod::{lemma_div_denominator, lemma_fundamental_div_mod};
use vstd::arithmetic::power2::{lemma2_to64, lemma_pow2_pos, lemma_pow2_unfold, pow2};
use vstd::bits::{lemma_usize_pow2_no_overflow, lemma_usize_shl_is_mul, lemma_usize_shr_is_div};
use vstd::prelude::*;

use crate::error::{CrcError, CrcErrorView};

verus! {

/// The number of branches allowed when the caller sets no limit.
pub open spec fn default_branch_limit() -> usize {
    1048576
}

/// The outcome of sizing the spanning set of `factors` binary factors under
/// an optional branch limit: no factors is an error; a count of `2^factors`
/// that does not fit in a `usize` (the shift taken modulo `2^32`, as the
/// factor count is given as a `u32` shift) or exceeds the limit is an error;
/// otherwise the count.
pub open spec fn branch_count_outcome(factors: usize, max_branches: Option<usize>) -> Result<
    usize,
    CrcErrorView,
> {
    if factors == 0 {
        Err(CrcErrorView::InvalidInput("at least one binary outcome is required"@))
    } else if (factors as u32) >= usize::BITS {
        Err(
            CrcErrorView::BranchLimitExceeded {
                factors,
                branches: usize::MAX,
                limit: match max_branches {
                    Some(l) => l,
                    None => usize::MAX,
                },
            },
        )
    } else {
        let count = pow2((factors as u32) as nat);
        let limit = match max_branches {
            Some(l) => l,
            None => default_branch_limit(),
        };
        if count > limit {
            Err(CrcErrorView::BranchLimitExceeded { factors, branches: count as usize, limit })
        } else {
            Ok(count as usize)
        }
    }
}

/// The number of branches of the spanning set of `factors` binary factors,
/// or why there are too many (see [`branch_count_outcome`]).
pub fn spanning_branch_count(factors: usize, max_branches: Option<usize>) -> (r: Result<
    usize,
    CrcError,
>)
    ensures
        match r {
            Ok(n) => branch_count_outcome(factors, max_branches) == Ok::<usize, CrcErrorView>(n),
            Err(e) => branch_count_outcome(factors, max_branches) == Err::<usize, CrcErrorView>(e@),
        },
{
    if factors == 0 {
        return Err(
            CrcError::InvalidInput(String::from_str("at least one binary outcome is required")),
        );
    }
    let shift: u32 = factors as u32;
    if shift >= usize::BITS {
        let limit = match max_branches {
            Some(l) => l,
            None => usize::MAX,
        };
        return Err(CrcError::BranchLimitExceeded { factors, branches: usize::MAX, limit });
    }
    let s: usize = shift as usize;
    proof {
        lemma_usize_pow2_no_overflow(s as nat);
        lemma_usize_shl_is_mul(1, s);
    }
    let count: usize = 1usize << s;
    let limit = match max_branches {
        Some(l) => l,
        None => 1048576,
    };
    if count > limit {
        return Err(CrcError::BranchLimitExceeded { factors, branches: count, limit });
    }
    Ok(count)
}

/// The choices of branch `mask` over `n` factors: factor `i` takes its
/// downside exactly when bit `i` of the mask is set.
pub open spec fn choices_of(mask: nat, n: nat) -> Seq<bool> {
    Seq::new(n, |i: int| (mask / pow2(i as nat)) % 2 == 1)
}

/// The downside/upside choices of branch `mask` of the spanning set of
/// `factors` factors (`true` for the downside).
pub fn branch_choices(mask: usize, factors: usize) -> (v: Vec<bool>)
    requires
        factors < usize::BITS,
    ensures
        v@ == choices_of(mask as nat, factors as nat),
{
    let mut choices: Vec<bool> = Vec::new();
    let mut index: usize = 0;
    while index < factors
        invariant
            index <= factors < usize::BITS,
            choices@ =~= choices_of(mask as nat, index as nat),
        decreases factors - index,
    {
        let downside = mask & (1usize << index) != 0;
        proof {
            assert((mask & (1usize << index) != 0) == ((mask >> index) & 1usize == 1usize))
                by (bit_vector)
                requires
                    index < usize::BITS,
            ;
            let shifted = mask >> index;
            assert((shifted & 1usize) == shifted % 2) by (bit_vector);
            lemma_usize_shr_is_div(mask, index);
        }
        choices.push(downside);
        index = index + 1;
    }
    choices
}

/// The mask whose branch makes the choices `c` (bit `i` set for a downside
/// at factor `i`).
pub open spec fn mask_of(c: Seq<bool>) -> nat
    decreases c.len(),
{
    if c.len() == 0 {
        0
    } else {
        (if c[0] {
            1nat
        } else {
            0nat
        }) + 2 * mask_of(c.drop_first())
    }
}

proof fn lemma_choices_step(m: nat, n: nat)
    requires
        n > 0,
    ensures
        choices_of(m, n) =~= seq![m % 2 == 1] + choices_of(m / 2, (n - 1) as nat),
{
    lemma2_to64();
    assert forall|i: int| 0 <= i < n - 1 implies #[trigger] choices_of(m, n)[i + 1] == choices_of(
        m / 2,
        (n - 1) as nat,
    )[i] by {
        lemma_pow2_unfold((i + 1) as nat);
        lemma_pow2_pos(i as nat);
        lemma_div_denominator(m as int, 2, pow2(i as nat) as int);
    }
    assert(choices_of(m, n)[0] == ((m / pow2(0)) % 2 == 1));
    assert(m / 1 == m);
    assert(choices_of(m, n)[0] == (m % 2 == 1));
    let lhs = choices_of(m, n);
    let rhs = seq![m % 2 == 1] + choices_of(m / 2, (n - 1) as nat);
    assert forall|i: int| 0 <= i < n implies lhs[i] == rhs[i] by {
        if i > 0 {
            assert(lhs[(i - 1) + 1] == choices_of(m / 2, (n - 1) as nat)[i - 1]);
        }
    }
}

proof fn lemma_mask_of_choices(m: nat, n: nat)
    requires
        m < pow2(n),
    ensures
        mask_of(choices_of(m, n)) == m,
    decreases n,
{
    lemma2_to64();
    if n == 0 {
        assert(choices_of(m, n) =~= Seq::<bool>::empty());
    } else {
        lemma_choices_step(m, n);
        lemma_pow2_unfold(n);
        lemma_fundamental_div_mod(m as int, 2);
        lemma_mask_of_choices(m / 2, (n - 1) as nat);
        let c = choices_of(m, n);
        assert(c.drop_first() =~= choices_of(m / 2, (n - 1) as nat));
    }
}

proof fn lemma_choices_of_mask(c: Seq<bool>)
    ensures
        mask_of(c) < pow2(c.len()),
        choices_of(mask_of(c), c.len()) == c,
    decreases c.len(),
{
    lemma2_to64();
    if c.len() == 0 {
        assert(choices_of(mask_of(c), 0) =~= c);
    } else {
        let rest = c.drop_first();
        lemma_choices_of_mask(rest);
        lemma_pow2_unfold(c.len());
        let m = mask_of(c);
        assert(m / 2 == mask_of(rest) && m % 2 == (if c[0] {
            1nat
        } else {
            0nat
        })) by {
            lemma_fundamental_div_mod(m as int, 2);
        }
        lemma_choices_step(m, c.len());
        assert(choices_of(m, c.len()) =~= c);
    }
}

/// The branches of `n` factors, one per mask below `2^n`, make every
/// combination of choices: each sequence of `n` choices is the branch of
/// one mask below `2^n`.
pub proof fn law_branches_cover_every_combination(c: Seq<bool>)
    ensures
        mask_of(c) < pow2(c.len()),
        choices_of(mask_of(c), c.len()) == c,
{
    lemma_choices_of_mask(c);
}

/// Different masks below `2^n` give different branches, so the spanning
/// set makes each combination of choices once.
pub proof fn law_branches_distinct(m1: nat, m2: nat, n: nat)
    requires
        m1 < pow2(n),
        m2 < pow2(n),
        choices_of(m1, n) == choices_of(m2, n),
    ensures
        m1 == m2,
{
    lemma_mask_of_choices(m1, n);
    lemma_mask_of_choices(m2, n);
}

/// The largest value that the climate index `index_id` can take, where it
/// is bounded: 300 for the fire-weather index (4), 366 days for the
/// day-counted indices 1, 2 and 8; no bound for any other index.
pub open spec fn hazard_limit_of(index_id: i32) -> Option<u32> {
    if index_id == 4 {
        Some(300)
    } else if index_id == 8 || index_id == 2 || index_id == 1 {
        Some(366)
    } else {
        None
    }
}

/// The bound of the climate index `index_id`, if it has one.
pub fn hazard_limit(index_id: i32) -> (r: Option<u32>)
    ensures
        r == hazard_limit_of(index_id),
{
    match index_id {
        4 => Some(300),
        8 | 2 | 1 => Some(366),
        _ => None,
    }
}

} // verus!
