//! Equal-split royalty computation.

use vstd::prelude::*;
use crate::types::{Address, MinterError};

verus! {

/// The largest admissible royalty, in basis points (100%).
pub const MAX_BASIS_POINTS: u16 = 10000;

/// One recipient of a royalty and the percentage it receives.
#[derive(Clone, Copy, Debug, PartialEq, Eq)]
pub struct Creator {
    pub address: Address,
    pub percentage: u8,
}

/// The percentage each of `n` creators receives: the whole part of `100 / n`.
pub open spec fn share_of(n: nat) -> nat
    recommends
        n > 0,
{
    100nat / n
}

/// The table that gives every address, in its place, the same share.
pub open spec fn equal_split(creators: Seq<Address>) -> Seq<Creator> {
    Seq::new(
        creators.len(),
        |i: int| Creator { address: creators[i], percentage: share_of(creators.len()) as u8 },
    )
}

/// The sum of the percentages of a table.
pub open spec fn percentage_sum(table: Seq<Creator>) -> nat
    decreases table.len(),
{
    if table.len() == 0 {
        0
    } else {
        percentage_sum(table.drop_last()) + table.last().percentage as nat
    }
}

/// What `compute_splits` returns for every input.
pub open spec fn compute_splits_spec(creators: Seq<Address>, basis_points: u16) -> Result<
    Seq<Creator>,
    MinterError,
> {
    if creators.len() == 0 {
        Err(MinterError::InvalidCreatorCount)
    } else if basis_points > MAX_BASIS_POINTS {
        Err(MinterError::InvalidBasisPoints)
    } else {
        Ok(equal_split(creators))
    }
}

/// The view of a result of `compute_splits`.
pub open spec fn splits_view(r: Result<Vec<Creator>, MinterError>) -> Result<
    Seq<Creator>,
    MinterError,
> {
    match r {
        Ok(table) => Ok(table@),
        Err(e) => Err(e),
    }
}

/// Builds the creator table of a royalty: every creator gets `100 / n` percent,
/// in the order given. An empty list and basis points above 10000 are rejected,
/// the empty list first.
pub fn compute_splits(creators: &Vec<Address>, basis_points: u16) -> (r: Result<
    Vec<Creator>,
    MinterError,
>)
    ensures
        splits_view(r) == compute_splits_spec(creators@, basis_points),
        r.is_ok() ==> percentage_sum(r.unwrap()@) == 100 - 100nat % creators@.len(),
{
    let n: usize = creators.len();
    if n == 0 {
        return Err(MinterError::InvalidCreatorCount);
    }
    if basis_points > MAX_BASIS_POINTS {
        return Err(MinterError::InvalidBasisPoints);
    }
    let share: usize = 100 / n;
    let percentage: u8 = share as u8;
    let mut table: Vec<Creator> = Vec::new();
    let mut i: usize = 0;
    while i < n
        invariant
            n == creators.len(),
            n > 0,
            i <= n,
            percentage == share_of(n as nat) as u8,
            table@.len() == i,
            forall|k: int| 0 <= k < i ==> table@[k] == equal_split(creators@)[k],
        decreases n - i,
    {
        table.push(Creator { address: creators[i], percentage });
        i = i + 1;
    }
    assert(table@ =~= equal_split(creators@));
    proof {
        lemma_equal_split_sum(creators@);
    }
    Ok(table)
}

/// Every table of an equal split sums to `n * (100 / n)`, which is 100 less
/// the remainder `100 % n`.
pub proof fn lemma_equal_split_sum(creators: Seq<Address>)
    requires
        creators.len() > 0,
    ensures
        percentage_sum(equal_split(creators)) == creators.len() * share_of(creators.len()),
        percentage_sum(equal_split(creators)) == 100 - 100nat % creators.len(),
{
    let n = creators.len();
    let table = equal_split(creators);
    lemma_constant_sum(table, share_of(n) as u8);
    assert(share_of(n) <= 100) by (nonlinear_arith)
        requires
            n > 0,
            share_of(n) == 100nat / n,
    ;
    assert(n * (100nat / n) == 100 - 100nat % n) by (nonlinear_arith)
        requires
            n > 0,
    ;
}

/// A table whose entries all carry the percentage `p` sums to `len * p`.
proof fn lemma_constant_sum(table: Seq<Creator>, p: u8)
    requires
        forall|k: int| 0 <= k < table.len() ==> (#[trigger] table[k]).percentage == p,
    ensures
        percentage_sum(table) == table.len() * (p as nat),
    decreases table.len(),
{
    if table.len() > 0 {
        let rest = table.drop_last();
        assert forall|k: int| 0 <= k < rest.len() implies (#[trigger] rest[k]).percentage == p by {
            assert(rest[k] == table[k]);
        }
        lemma_constant_sum(rest, p);
        assert(rest.len() * (p as nat) + (p as nat) == table.len() * (p as nat))
            by (nonlinear_arith)
            requires
                rest.len() + 1 == table.len(),
        ;
    }
}

/// Where the number of creators divides 100, the percentages of an equal split
/// sum to exactly 100.
pub proof fn lemma_even_split_is_whole(creators: Seq<Address>)
    requires
        creators.len() > 0,
        100nat % creators.len() == 0,
    ensures
        percentage_sum(equal_split(creators)) == 100,
{
    lemma_equal_split_sum(creators);
}

/// Where the number of creators does not divide 100, the percentages of an
/// equal split fall short of 100 by the remainder `100 % n`: the remainder is
/// not handed out.
pub proof fn lemma_uneven_split_shortfall(creators: Seq<Address>)
    requires
        creators.len() > 0,
        100nat % creators.len() != 0,
    ensures
        percentage_sum(equal_split(creators)) == 100 - 100nat % creators.len(),
        percentage_sum(equal_split(creators)) < 100,
{
    lemma_equal_split_sum(creators);
}

} // verus!
