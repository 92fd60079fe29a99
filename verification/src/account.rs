use vstd::prelude::*;

verus! {

/// An already-authenticated entity identifier. Proving that a caller
/// controls an address, and deriving per-pool or per-user storage
/// locations from one, is the custody layer's concern; the core only
/// compares identifiers for equality.
pub type Address = u64;

/// One participant's account in the trading core.
pub struct UserAccount {
    pub owner: Address,
    /// Holdings of bonding-curve-issued synthetic units.
    pub synthetic_sol_balance: u64,
    /// Accumulated platform-fee credits.
    pub real_sol_balance: u64,
    /// Identifiers of owned NFTs, in acquisition order, without duplicates.
    pub owned_nfts: Vec<Address>,
}

/// A user account is well formed when its owned-NFT list holds no
/// duplicates.
pub open spec fn user_well_formed(u: UserAccount) -> bool {
    forall|i: int, j: int|
        0 <= i < j < u.owned_nfts@.len() ==> u.owned_nfts@[i] != u.owned_nfts@[j]
}

/// Sum of a sequence of synthetic balances, as an unbounded integer.
pub open spec fn sum_balances(s: Seq<u64>) -> int
    decreases s.len(),
{
    if s.len() == 0 {
        0
    } else {
        s[0] + sum_balances(s.drop_first())
    }
}

/// Changing one balance changes the sum by exactly the difference.
pub proof fn lemma_sum_update(s: Seq<u64>, i: int, v: u64)
    requires
        0 <= i < s.len(),
    ensures
        sum_balances(s.update(i, v)) == sum_balances(s) - s[i] + v,
    decreases s.len(),
{
    if i == 0 {
        assert(s.update(0, v).drop_first() =~= s.drop_first());
    } else {
        assert(s.update(i, v).drop_first() =~= s.drop_first().update(i - 1, v));
        lemma_sum_update(s.drop_first(), i - 1, v);
    }
}

} // verus!
