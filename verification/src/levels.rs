//! The XP-to-level curve and guild-relative ranking.
//!
//! The curve is the well-known one this bot's stored data was built
//! against: going from level `k` to `k + 1` costs `5*k*k + 50*k + 100`
//! XP, so the total XP needed to hold level `l` is the sum of those
//! costs — in closed form `5*l*(2*l*l + 27*l + 91) / 6`.
use vstd::prelude::*;

verus! {

/// The XP needed to go from level `k` to level `k + 1`.
pub open spec fn spec_level_cost(k: nat) -> nat {
    5 * k * k + 50 * k + 100
}

/// The total XP needed to hold level `l`.
pub open spec fn spec_total_xp(l: nat) -> nat
    decreases l,
{
    if l == 0 {
        0
    } else {
        spec_total_xp((l - 1) as nat) + spec_level_cost((l - 1) as nat)
    }
}

/// The total-XP curve grows strictly from level to level.
pub proof fn lemma_total_xp_monotonic(l1: nat, l2: nat)
    requires
        l1 < l2,
    ensures
        spec_total_xp(l1) < spec_total_xp(l2),
    decreases l2,
{
    if l2 - 1 > l1 {
        lemma_total_xp_monotonic(l1, (l2 - 1) as nat);
    }
}

/// Levels cost at least as much as the cube of the level: bounds the
/// level any `u64` XP total can reach.
proof fn lemma_total_xp_cube(l: nat)
    ensures
        spec_total_xp(l) >= l * l * l,
    decreases l,
{
    if l > 0 {
        let k = (l - 1) as nat;
        lemma_total_xp_cube(k);
        assert(spec_total_xp(l) == spec_total_xp(k) + spec_level_cost(k));
        assert(spec_total_xp(l) >= l * l * l) by (nonlinear_arith)
            requires
                l == k + 1,
                spec_total_xp(l) == spec_total_xp(k) + 5 * k * k + 50 * k + 100,
                spec_total_xp(k) >= k * k * k,
        ;
    } else {
        assert(l * l * l == 0) by (nonlinear_arith)
            requires
                l == 0,
        ;
    }
}

/// Below the level cap any `u64` XP total allows, one step's cost fits
/// comfortably in a `u64`.
proof fn lemma_cost_fits(l: nat)
    requires
        l < 0x40_0000,
    ensures
        spec_level_cost(l) <= u64::MAX,
        5 * l * l + 50 * l + 100 <= u64::MAX,
{
    assert(5 * l * l + 50 * l + 100 <= u64::MAX) by (nonlinear_arith)
        requires
            l < 0x40_0000,
    ;
}

/// The level that `xp` earns, characterized exactly: the unique `l`
/// with `spec_total_xp(l) <= xp < spec_total_xp(l + 1)`. Also returns
/// the XP earned toward the next level and that next step's full cost,
/// from which the progress fraction is formed.
pub fn level_info(xp: u64) -> (r: (u64, u64, u64))
    ensures
        spec_total_xp(r.0 as nat) <= xp < spec_total_xp(r.0 as nat + 1),
        r.1 == xp - spec_total_xp(r.0 as nat),
        r.2 == spec_level_cost(r.0 as nat),
        r.1 < r.2,
{
    let mut level: u64 = 0;
    let mut total: u64 = 0;
    loop
        invariant
            total == spec_total_xp(level as nat),
            total <= xp,
            level < 0x40_0000,
        ensures
            total == spec_total_xp(level as nat),
            total <= xp,
            spec_total_xp(level as nat + 1) > xp,
            level < 0x40_0000,
        decreases xp - total,
    {
        proof {
            lemma_cost_fits(level as nat);
        }
        let cost: u64 = 5 * level * level + 50 * level + 100;
        let next: u128 = total as u128 + cost as u128;
        if next > xp as u128 {
            break;
        }
        proof {
            lemma_total_xp_cube(level as nat + 1);
            if level as nat + 1 >= 0x40_0000 {
                assert((level as nat + 1) * (level as nat + 1) * (level as nat + 1) > u64::MAX
                    as nat) by (nonlinear_arith)
                    requires
                        level as nat + 1 >= 0x40_0000,
                ;
            }
        }
        total = next as u64;
        level = level + 1;
    }
    proof {
        lemma_cost_fits(level as nat);
    }
    let cost: u64 = 5 * level * level + 50 * level + 100;
    (level, xp - total, cost)
}

/// The level that `xp` earns.
pub fn level_of(xp: u64) -> (r: u64)
    ensures
        spec_total_xp(r as nat) <= xp < spec_total_xp(r as nat + 1),
{
    let (level, _, _) = level_info(xp);
    level
}

/// The XP-to-level curve is monotonic, non-decreasing: of two XP totals
/// each sitting at its level (as `level_of` characterizes them), the
/// smaller total never earns the greater level.
pub proof fn lemma_level_monotonic(x1: nat, x2: nat, l1: nat, l2: nat)
    requires
        x1 <= x2,
        spec_total_xp(l1) <= x1 < spec_total_xp(l1 + 1),
        spec_total_xp(l2) <= x2 < spec_total_xp(l2 + 1),
    ensures
        l1 <= l2,
{
    if l1 > l2 {
        lemma_total_xp_monotonic(l2 + 1, l1 + 1);
        if l2 + 1 < l1 {
            lemma_total_xp_monotonic(l2 + 1, l1);
        }
    }
}

/// The XP a stored lookup yields: a missing row is zero XP, a handled
/// case and not a storage error.
pub fn effective_xp(row: Option<u64>) -> (r: u64)
    ensures
        r == (match row {
            Some(xp) => xp,
            None => 0u64,
        }),
{
    match row {
        Some(xp) => xp,
        None => 0,
    }
}

/// How many entries of `s` are strictly greater than `x`.
pub open spec fn spec_count_gt(s: Seq<u64>, x: u64) -> nat
    decreases s.len(),
{
    if s.len() == 0 {
        0
    } else {
        spec_count_gt(s.drop_last(), x) + if s.last() > x {
            1nat
        } else {
            0nat
        }
    }
}

/// A user's 1-based rank among the XP totals `xs`: the count of totals
/// strictly greater than the user's own, plus one. Ties collapse to
/// one rank value.
pub fn rank_of(xs: &Vec<u64>, xp: u64) -> (r: u64)
    requires
        xs@.len() < u64::MAX,
    ensures
        r == spec_count_gt(xs@, xp) + 1,
{
    let mut count: u64 = 0;
    let mut i: usize = 0;
    proof {
        lemma_count_gt_le_len(xs@.take(0), xp);
    }
    while i < xs.len()
        invariant
            0 <= i <= xs@.len() < u64::MAX,
            count == spec_count_gt(xs@.take(i as int), xp),
            count <= i,
        decreases xs@.len() - i,
    {
        proof {
            assert(xs@.take(i + 1).drop_last() =~= xs@.take(i as int));
            lemma_count_gt_le_len(xs@.take(i + 1), xp);
        }
        if xs[i] > xp {
            count = count + 1;
        }
        i = i + 1;
    }
    proof {
        assert(xs@.take(xs@.len() as int) =~= xs@);
    }
    count + 1
}

/// No more entries exceed `x` than there are entries.
proof fn lemma_count_gt_le_len(s: Seq<u64>, x: u64)
    ensures
        spec_count_gt(s, x) <= s.len(),
    decreases s.len(),
{
    if s.len() > 0 {
        lemma_count_gt_le_len(s.drop_last(), x);
    }
}

/// Ranking is consistent with the order on XP: a strictly greater XP
/// total never ranks below a smaller one (its rank number is never
/// larger), and equal XP totals always receive the same rank.
pub proof fn lemma_rank_consistent(s: Seq<u64>, xa: u64, xb: u64)
    requires
        xa >= xb,
    ensures
        spec_count_gt(s, xa) + 1 <= spec_count_gt(s, xb) + 1,
        xa == xb ==> spec_count_gt(s, xa) + 1 == spec_count_gt(s, xb) + 1,
    decreases s.len(),
{
    if s.len() > 0 {
        lemma_rank_consistent(s.drop_last(), xa, xb);
    }
}

} // verus!
