use vstd::prelude::*;

use crate::error::CustomError;

verus! {

/// Basis points in a whole: shares of one batch must add up to this.
pub const BPS_DENOMINATOR: u64 = 10000;

/// Largest number of recipients in one batch.
pub const MAX_BATCH_RECIPIENTS: usize = 32;

/// Sum of a sequence of basis-point values.
pub open spec fn bps_total(bps: Seq<u16>) -> int
    decreases bps.len(),
{
    if bps.len() == 0 {
        0
    } else {
        bps_total(bps.drop_last()) + bps.last()
    }
}

/// Sum of a sequence of integers.
pub open spec fn seq_total(s: Seq<int>) -> int
    decreases s.len(),
{
    if s.len() == 0 {
        0
    } else {
        seq_total(s.drop_last()) + s.last()
    }
}

/// `total * bp / 10000`, rounded down.
pub open spec fn floor_share(total: int, bp: int) -> int {
    total * bp / BPS_DENOMINATOR as int
}

/// The rounded-down share of `total` for each entry of `bps`.
pub open spec fn floor_shares(total: int, bps: Seq<u16>) -> Seq<int> {
    Seq::new(bps.len(), |i: int| floor_share(total, bps[i] as int))
}

/// The allocation of `total` over `bps`: every recipient but the last gets its
/// rounded-down share, the last gets what is left.
pub open spec fn allocation(total: int, bps: Seq<u16>) -> Seq<int>
    recommends
        bps.len() > 0,
{
    let head = floor_shares(total, bps.drop_last());
    head.push(total - seq_total(head))
}

/// Why a batch of `bps` cannot distribute `total`, if it cannot.
pub open spec fn allocation_error(total: u64, bps: Seq<u16>) -> Option<CustomError> {
    if bps.len() > MAX_BATCH_RECIPIENTS {
        Some(CustomError::InvalidAmount)
    } else if bps_total(bps) != BPS_DENOMINATOR {
        Some(CustomError::InvalidBasisPointsSum)
    } else if exists|i: int| 0 <= i < bps.len() && #[trigger] allocation(total as int, bps)[i] == 0 {
        Some(CustomError::InvalidAmount)
    } else {
        None
    }
}

proof fn lemma_bps_total_prefix_monotone(bps: Seq<u16>, i: int, j: int)
    requires
        0 <= i <= j <= bps.len(),
    ensures
        bps_total(bps.take(i)) <= bps_total(bps.take(j)),
    decreases j - i,
{
    if i < j {
        lemma_bps_total_prefix_monotone(bps, i, j - 1);
        assert(bps.take(j).drop_last() =~= bps.take(j - 1));
    }
}

proof fn lemma_floor_share_bounds(total: int, bp: int)
    requires
        0 <= total,
        0 <= bp,
    ensures
        floor_share(total, bp) * BPS_DENOMINATOR as int <= total * bp,
        0 <= floor_share(total, bp),
        bp <= BPS_DENOMINATOR ==> floor_share(total, bp) <= total,
{
    let d = BPS_DENOMINATOR as int;
    assert(0 <= total * bp) by (nonlinear_arith)
        requires
            0 <= total,
            0 <= bp,
    ;
    assert((total * bp / d) * d <= total * bp) by (nonlinear_arith)
        requires
            0 <= total * bp,
            d == 10000,
    ;
    assert(0 <= total * bp / d) by (nonlinear_arith)
        requires
            0 <= total * bp,
            d == 10000,
    ;
    if bp <= d {
        assert(total * bp <= total * d) by (nonlinear_arith)
            requires
                0 <= total,
                bp <= d,
        ;
        assert(total * bp / d <= total) by (nonlinear_arith)
            requires
                0 <= total * bp <= total * d,
                d == 10000,
        ;
    }
}

/// The rounded-down shares never add up to more than the exact shares.
proof fn lemma_floor_shares_bound(total: int, bps: Seq<u16>)
    requires
        0 <= total,
    ensures
        seq_total(floor_shares(total, bps)) * BPS_DENOMINATOR as int <= total * bps_total(bps),
        0 <= seq_total(floor_shares(total, bps)),
    decreases bps.len(),
{
    if bps.len() > 0 {
        let prev = bps.drop_last();
        lemma_floor_shares_bound(total, prev);
        assert(floor_shares(total, bps).drop_last() =~= floor_shares(total, prev));
        lemma_floor_share_bounds(total, bps.last() as int);
        let a = seq_total(floor_shares(total, prev));
        let b = floor_share(total, bps.last() as int);
        let d = BPS_DENOMINATOR as int;
        assert((a + b) * d == a * d + b * d) by (nonlinear_arith);
        assert(total * bps_total(bps) == total * bps_total(prev) + total * bps.last()) by (
        nonlinear_arith)
            requires
                bps_total(bps) == bps_total(prev) + bps.last(),
        ;
    }
}

/// For every valid batch the computed shares add up to exactly the batch total.
pub proof fn lemma_allocation_sums_to_total(total: u64, bps: Seq<u16>)
    requires
        bps.len() > 0,
    ensures
        seq_total(allocation(total as int, bps)) == total,
{
    let a = allocation(total as int, bps);
    assert(a.drop_last() =~= floor_shares(total as int, bps.drop_last()));
}

/// Every share of a batch whose basis points add up to the whole lies between zero
/// and the batch total.
proof fn lemma_allocation_in_range(total: u64, bps: Seq<u16>)
    requires
        bps.len() > 0,
        bps_total(bps) == BPS_DENOMINATOR,
    ensures
        forall|i: int| 0 <= i < bps.len() ==> 0 <= #[trigger] allocation(total as int, bps)[i] <= total,
{
    let prev = bps.drop_last();
    lemma_floor_shares_bound(total as int, prev);
    lemma_bps_total_prefix_monotone(bps, bps.len() - 1, bps.len() as int);
    assert(bps.take(bps.len() - 1) =~= prev);
    assert(bps.take(bps.len() as int) =~= bps);
    let s = seq_total(floor_shares(total as int, prev));
    let d = BPS_DENOMINATOR as int;
    assert(total * bps_total(prev) <= total * d) by (nonlinear_arith)
        requires
            bps_total(prev) <= d,
            0 <= total,
    ;
    assert(s <= total) by (nonlinear_arith)
        requires
            s * d <= total * d,
            d == 10000,
    ;
    assert forall|i: int| 0 <= i < bps.len() - 1 implies 0 <= #[trigger] allocation(
        total as int,
        bps,
    )[i] <= total by {
        lemma_bps_total_prefix_monotone(bps, i + 1, bps.len() as int);
        lemma_bps_total_prefix_monotone(bps, 0, i);
        assert(bps.take(i + 1).drop_last() =~= bps.take(i));
        assert(bps.take(0) =~= Seq::<u16>::empty());
        assert(bps.take(bps.len() as int) =~= bps);
        lemma_floor_share_bounds(total as int, bps[i] as int);
    }
}

/// Splits `total` over recipients given in basis points: every recipient but the
/// last gets `floor(total * bps / 10000)`, the last gets the remainder.
pub fn compute_shares(total: u64, bps: &Vec<u16>) -> (r: Result<Vec<u64>, CustomError>)
    ensures
        match r {
            Ok(v) => {
                &&& allocation_error(total, bps@) is None
                &&& v@.len() == bps@.len()
                &&& forall|i: int| 0 <= i < v@.len() ==> v@[i] == allocation(total as int, bps@)[i]
            },
            Err(e) => allocation_error(total, bps@) == Some(e),
        },
{
    let n = bps.len();
    if n > MAX_BATCH_RECIPIENTS {
        return Err(CustomError::InvalidAmount);
    }
    let mut bp_sum: u64 = 0;
    let mut i: usize = 0;
    while i < n
        invariant
            n == bps@.len() <= MAX_BATCH_RECIPIENTS,
            i <= n,
            bp_sum == bps_total(bps@.take(i as int)),
            bp_sum <= i * 65535,
        decreases n - i,
    {
        assert(bps@.take(i + 1).drop_last() =~= bps@.take(i as int));
        bp_sum = bp_sum + bps[i] as u64;
        i = i + 1;
    }
    assert(bps@.take(n as int) =~= bps@);
    if bp_sum != BPS_DENOMINATOR {
        return Err(CustomError::InvalidBasisPointsSum);
    }
    proof {
        lemma_allocation_in_range(total, bps@);
    }
    let ghost alloc = allocation(total as int, bps@);
    let ghost head = floor_shares(total as int, bps@.drop_last());
    let mut shares: Vec<u64> = Vec::new();
    let mut distributed: u64 = 0;
    let mut i: usize = 0;
    while i < n - 1
        invariant
            1 <= n == bps@.len() <= MAX_BATCH_RECIPIENTS,
            bps_total(bps@) == BPS_DENOMINATOR,
            alloc == allocation(total as int, bps@),
            head == floor_shares(total as int, bps@.drop_last()),
            forall|k: int| 0 <= k < n ==> 0 <= #[trigger] alloc[k] <= total,
            forall|k: int| 0 <= k < i ==> alloc[k] != 0,
            i <= n - 1,
            shares@.len() == i,
            forall|k: int| 0 <= k < i ==> shares@[k] == alloc[k],
            distributed == seq_total(head.take(i as int)),
        decreases n - 1 - i,
    {
        assert((total as u128) * (bps[i as int] as u128) <= 0xffff_ffff_ffff_ffffu128 * 0xffffu128)
            by (nonlinear_arith)
            requires
                total <= 0xffff_ffff_ffff_ffffu64,
                bps[i as int] <= 0xffffu16,
        ;
        let wide: u128 = (total as u128) * (bps[i] as u128) / (BPS_DENOMINATOR as u128);
        assert(wide == alloc[i as int]);
        let share = wide as u64;
        assert(share == alloc[i as int]);
        assert(head.take(i + 1).drop_last() =~= head.take(i as int));
        proof {
            lemma_floor_shares_bound(total as int, bps@.drop_last().take(i + 1));
            assert(floor_shares(total as int, bps@.drop_last().take(i + 1)) =~= head.take(i + 1));
            lemma_bps_total_prefix_monotone(bps@, i + 1, n as int);
            assert(bps@.take(n as int) =~= bps@);
            assert(bps@.drop_last().take(i + 1) =~= bps@.take(i + 1));
            let s = seq_total(head.take(i + 1));
            let t = bps_total(bps@.take(i + 1));
            assert(total * t <= total * 10000) by (nonlinear_arith)
                requires
                    t <= 10000,
                    0 <= total,
            ;
            assert(s <= total) by (nonlinear_arith)
                requires
                    s * 10000 <= total * t,
                    total * t <= total * 10000,
            ;
        }
        if share == 0 {
            assert(alloc[i as int] == 0);
            return Err(CustomError::InvalidAmount);
        }
        shares.push(share);
        distributed = distributed + share;
        i = i + 1;
    }
    assert(head.take(n - 1) =~= head);
    assert(alloc[n - 1] == total - distributed);
    let last = total - distributed;
    if last == 0 {
        return Err(CustomError::InvalidAmount);
    }
    shares.push(last);
    Ok(shares)
}

} // verus!
