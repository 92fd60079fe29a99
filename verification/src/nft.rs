use vstd::prelude::*;
use crate::account::{user_well_formed, Address, UserAccount};
use crate::backend::{map_backend_error, LedgerBackend};
use crate::errors::CoreError;

verus! {

/// Fixed price of an NFT's primary sale, in the reserve asset's smallest
/// unit.
pub const PRIMARY_SALE_PRICE: u64 = 1_000_000_000;

/// Numerator of the secondary-sale markup: each resale costs 10% more than
/// the last recorded price.
pub const MARKUP_NUMERATOR: u64 = 110;

/// Denominator of the secondary-sale markup.
pub const MARKUP_DENOMINATOR: u64 = 100;

/// Asset identifier under which NFT sale payments move: the reserve
/// asset's native unit.
pub const NATIVE_ASSET: Address = 0;

/// Ownership and pricing state of one collectible.
pub struct NFTData {
    pub owner: Address,
    /// One-way latch, set by the first sale and never unset.
    pub primary_sale_happened: bool,
    pub last_price: u64,
    /// Gate on resale: after the primary sale, a further sale is permitted
    /// only while this is true.
    pub is_mutable: bool,
}

/// Receipt of a settled NFT sale.
#[derive(Clone, Copy, Debug, PartialEq, Eq, Structural)]
pub struct SaleReceipt {
    pub price: u64,
    pub new_owner: Address,
}

/// Sale price the marketplace charges for `n`: the fixed primary price on
/// a first sale, a 10% markup over the last price afterwards, rounded
/// down.
pub open spec fn sale_price_of(n: NFTData) -> int {
    if !n.primary_sale_happened {
        PRIMARY_SALE_PRICE as int
    } else {
        (n.last_price * MARKUP_NUMERATOR) / (MARKUP_DENOMINATOR as int)
    }
}

/// The first failure a sale of `nft_id` runs into, or `None` when the core
/// owes success (the backend may still decline custody).
pub open spec fn nft_sale_error(n: NFTData, seller: UserAccount, nft_id: Address) -> Option<
    CoreError,
> {
    if n.primary_sale_happened && !n.is_mutable {
        Some(CoreError::NftNotMutable)
    } else if n.primary_sale_happened && n.last_price * MARKUP_NUMERATOR > u64::MAX {
        Some(CoreError::MathOverflow)
    } else if !seller.owned_nfts@.contains(nft_id) {
        Some(CoreError::NftPositionNotFound)
    } else {
        None
    }
}

/// Relates NFT, buyer and seller state after a successful sale to the
/// state before it.
pub open spec fn nft_sale_applies(
    n0: NFTData,
    n1: NFTData,
    b0: UserAccount,
    b1: UserAccount,
    s0: UserAccount,
    s1: UserAccount,
    nft_id: Address,
) -> bool {
    &&& n1.owner == b0.owner
    &&& n1.primary_sale_happened
    &&& n1.last_price == sale_price_of(n0)
    &&& n1.is_mutable == n0.is_mutable
    &&& b1.owner == b0.owner
    &&& b1.synthetic_sol_balance == b0.synthetic_sol_balance
    &&& b1.real_sol_balance == b0.real_sol_balance
    &&& b1.owned_nfts@ == b0.owned_nfts@.push(nft_id)
    &&& s1.owner == s0.owner
    &&& s1.synthetic_sol_balance == s0.synthetic_sol_balance
    &&& s1.real_sol_balance == s0.real_sol_balance
    &&& exists|i: int|
        0 <= i < s0.owned_nfts@.len() && s0.owned_nfts@[i] == nft_id && s1.owned_nfts@
            == #[trigger] s0.owned_nfts@.remove(i)
    &&& !s1.owned_nfts@.contains(nft_id)
}

/// Index of the first occurrence of `nft_id` in `list`.
fn find_position(list: &Vec<Address>, nft_id: Address) -> (r: Option<usize>)
    ensures
        match r {
            Some(i) => i < list@.len() && list@[i as int] == nft_id && forall|j: int|
                0 <= j < i ==> list@[j] != nft_id,
            None => !list@.contains(nft_id),
        },
{
    let mut i: usize = 0;
    while i < list.len()
        invariant
            i <= list@.len(),
            forall|j: int| 0 <= j < i ==> list@[j] != nft_id,
        decreases list@.len() - i,
    {
        if list[i] == nft_id {
            return Some(i);
        }
        i = i + 1;
    }
    None
}

/// Settles one NFT sale: the buyer pays the seller the primary or
/// secondary sale price, the NFT's custody token moves from seller to
/// buyer, and only then is ownership bookkeeping updated.
///
/// Both custody movements go through `backend`: the payment under
/// `NATIVE_ASSET` and the collectible itself under its own identifier
/// `nft_id`. The caller hands in the seller's account, which must be the
/// NFT owner's, and a buyer account that does not already list the NFT
/// (an identifier is owned by one account at a time). On any error no
/// account and no NFT field has changed.
pub fn buy_nft<B: LedgerBackend>(
    backend: &mut B,
    nft: &mut NFTData,
    nft_id: Address,
    buyer: &mut UserAccount,
    seller: &mut UserAccount,
) -> (r: Result<SaleReceipt, CoreError>)
    requires
        old(seller).owner == old(nft).owner,
        user_well_formed(*old(buyer)),
        user_well_formed(*old(seller)),
        !old(buyer).owned_nfts@.contains(nft_id),
    ensures
        user_well_formed(*final(buyer)),
        user_well_formed(*final(seller)),
        r is Err ==> *final(nft) == *old(nft) && *final(buyer) == *old(buyer) && *final(seller)
            == *old(seller),
        nft_sale_error(*old(nft), *old(seller), nft_id) matches Some(e) ==> r == Err::<
            SaleReceipt,
            CoreError,
        >(e),
        nft_sale_error(*old(nft), *old(seller), nft_id) is None ==> (r matches Err(e) ==> e
            == CoreError::InsufficientUserBalance || e == CoreError::CustodyTransferFailed),
        r matches Ok(rc) ==> {
            &&& nft_sale_applies(
                *old(nft),
                *final(nft),
                *old(buyer),
                *final(buyer),
                *old(seller),
                *final(seller),
                nft_id,
            )
            &&& rc.price == sale_price_of(*old(nft))
            &&& rc.new_owner == old(buyer).owner
            &&& nft_sale_error(*old(nft), *old(seller), nft_id) is None
        },
{
    if nft.primary_sale_happened && !nft.is_mutable {
        return Err(CoreError::NftNotMutable);
    }
    let price = if !nft.primary_sale_happened {
        PRIMARY_SALE_PRICE
    } else {
        match nft.last_price.checked_mul(MARKUP_NUMERATOR) {
            None => {
                return Err(CoreError::MathOverflow);
            },
            Some(scaled) => scaled / MARKUP_DENOMINATOR,
        }
    };
    let position = match find_position(&seller.owned_nfts, nft_id) {
        Some(i) => i,
        None => {
            return Err(CoreError::NftPositionNotFound);
        },
    };
    if let Err(e) = backend.transfer(NATIVE_ASSET, buyer.owner, seller.owner, price) {
        return Err(map_backend_error(e));
    }
    if let Err(e) = backend.transfer(nft_id, seller.owner, buyer.owner, 1) {
        return Err(map_backend_error(e));
    }
    nft.owner = buyer.owner;
    nft.primary_sale_happened = true;
    nft.last_price = price;
    buyer.owned_nfts.push(nft_id);
    seller.owned_nfts.remove(position);
    proof {
        let b0 = old(buyer).owned_nfts@;
        let b1 = buyer.owned_nfts@;
        assert forall|i: int, j: int| 0 <= i < j < b1.len() implies b1[i] != b1[j] by {
            if j == b1.len() - 1 {
                if b1[i] == nft_id {
                    assert(b0[i] == nft_id);
                    assert(b0.contains(nft_id));
                }
            }
        }
        let s0 = old(seller).owned_nfts@;
        let s1 = seller.owned_nfts@;
        assert(s1 == s0.remove(position as int));
        assert forall|i: int, j: int| 0 <= i < j < s1.len() implies s1[i] != s1[j] by {
            let p = position as int;
            let i0: int = if i < p {
                i
            } else {
                i + 1
            };
            let j0: int = if j < p {
                j
            } else {
                j + 1
            };
            assert(s1[i] == s0[i0]);
            assert(s1[j] == s0[j0]);
        }
        assert forall|k: int| 0 <= k < s1.len() implies s1[k] != nft_id by {
            let p = position as int;
            if k < p {
                assert(s1[k] == s0[k]);
            } else {
                assert(s1[k] == s0[k + 1]);
                assert(s0[p] == nft_id);
            }
        }
        assert(!s1.contains(nft_id));
    }
    Ok(SaleReceipt { price, new_owner: buyer.owner })
}

} // verus!
