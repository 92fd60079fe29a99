use bonding_curve_system::account::UserAccount;
use bonding_curve_system::backend::ScriptedBackend;
use bonding_curve_system::errors::{BackendError, CoreError};
use bonding_curve_system::nft::{buy_nft, NFTData};

const NFT_ID: u64 = 42;

fn new_user(owner: u64, owned_nfts: Vec<u64>) -> UserAccount {
    UserAccount { owner, synthetic_sol_balance: 0, real_sol_balance: 0, owned_nfts }
}

fn ok_backend() -> ScriptedBackend {
    ScriptedBackend { failure: None }
}

#[test]
fn primary_sale_charges_fixed_price() {
    let mut backend = ok_backend();
    let mut nft = NFTData { owner: 7, primary_sale_happened: false, last_price: 0, is_mutable: true };
    let mut buyer = new_user(8, Vec::new());
    let mut seller = new_user(7, vec![NFT_ID]);
    let rc = buy_nft(&mut backend, &mut nft, NFT_ID, &mut buyer, &mut seller).unwrap();
    assert_eq!(rc.price, 1_000_000_000);
    assert_eq!(rc.new_owner, 8);
    assert_eq!(nft.owner, 8);
    assert!(nft.primary_sale_happened);
    assert_eq!(nft.last_price, 1_000_000_000);
    assert!(nft.is_mutable);
    assert_eq!(buyer.owned_nfts, vec![NFT_ID]);
    assert!(seller.owned_nfts.is_empty());
}

#[test]
fn secondary_sale_adds_ten_percent() {
    let mut backend = ok_backend();
    let mut nft =
        NFTData { owner: 8, primary_sale_happened: true, last_price: 1_000_000_000, is_mutable: true };
    let mut buyer = new_user(9, Vec::new());
    let mut seller = new_user(8, vec![5, NFT_ID, 6]);
    let rc = buy_nft(&mut backend, &mut nft, NFT_ID, &mut buyer, &mut seller).unwrap();
    assert_eq!(rc.price, 1_100_000_000);
    assert_eq!(nft.owner, 9);
    assert_eq!(nft.last_price, 1_100_000_000);
    assert_eq!(buyer.owned_nfts, vec![NFT_ID]);
    assert_eq!(seller.owned_nfts, vec![5, 6]);
}

#[test]
fn secondary_markup_rounds_down() {
    let mut backend = ok_backend();
    let mut nft = NFTData { owner: 1, primary_sale_happened: true, last_price: 15, is_mutable: true };
    let mut buyer = new_user(2, Vec::new());
    let mut seller = new_user(1, vec![NFT_ID]);
    let rc = buy_nft(&mut backend, &mut nft, NFT_ID, &mut buyer, &mut seller).unwrap();
    // floor(15 * 110 / 100)
    assert_eq!(rc.price, 16);
}

#[test]
fn immutable_nft_cannot_be_resold() {
    let mut backend = ok_backend();
    let mut nft =
        NFTData { owner: 1, primary_sale_happened: true, last_price: 500, is_mutable: false };
    let mut buyer = new_user(2, Vec::new());
    let mut seller = new_user(1, vec![NFT_ID]);
    let r = buy_nft(&mut backend, &mut nft, NFT_ID, &mut buyer, &mut seller);
    assert_eq!(r, Err(CoreError::NftNotMutable));
    assert_eq!(nft.owner, 1);
    assert_eq!(nft.last_price, 500);
    assert_eq!(seller.owned_nfts, vec![NFT_ID]);
    assert!(buyer.owned_nfts.is_empty());
}

#[test]
fn markup_overflow_fails() {
    let mut backend = ok_backend();
    let mut nft =
        NFTData { owner: 1, primary_sale_happened: true, last_price: u64::MAX, is_mutable: true };
    let mut buyer = new_user(2, Vec::new());
    let mut seller = new_user(1, vec![NFT_ID]);
    let r = buy_nft(&mut backend, &mut nft, NFT_ID, &mut buyer, &mut seller);
    assert_eq!(r, Err(CoreError::MathOverflow));
    assert_eq!(nft.owner, 1);
    assert_eq!(nft.last_price, u64::MAX);
}

#[test]
fn missing_position_is_reported() {
    let mut backend = ok_backend();
    let mut nft = NFTData { owner: 1, primary_sale_happened: false, last_price: 0, is_mutable: true };
    let mut buyer = new_user(2, Vec::new());
    let mut seller = new_user(1, vec![5, 6]);
    let r = buy_nft(&mut backend, &mut nft, NFT_ID, &mut buyer, &mut seller);
    assert_eq!(r, Err(CoreError::NftPositionNotFound));
    assert!(!nft.primary_sale_happened);
    assert_eq!(seller.owned_nfts, vec![5, 6]);
    assert!(buyer.owned_nfts.is_empty());
}

#[test]
fn declined_payment_aborts_sale() {
    let mut backend = ScriptedBackend { failure: Some(BackendError::InsufficientBalance) };
    let mut nft = NFTData { owner: 1, primary_sale_happened: false, last_price: 0, is_mutable: true };
    let mut buyer = new_user(2, Vec::new());
    let mut seller = new_user(1, vec![NFT_ID]);
    let r = buy_nft(&mut backend, &mut nft, NFT_ID, &mut buyer, &mut seller);
    assert_eq!(r, Err(CoreError::InsufficientUserBalance));
    assert_eq!(nft.owner, 1);
    assert!(!nft.primary_sale_happened);
    assert_eq!(seller.owned_nfts, vec![NFT_ID]);
    assert!(buyer.owned_nfts.is_empty());
}

#[test]
fn unavailable_custody_aborts_sale() {
    let mut backend = ScriptedBackend { failure: Some(BackendError::Unavailable) };
    let mut nft = NFTData { owner: 1, primary_sale_happened: false, last_price: 0, is_mutable: true };
    let mut buyer = new_user(2, Vec::new());
    let mut seller = new_user(1, vec![NFT_ID]);
    let r = buy_nft(&mut backend, &mut nft, NFT_ID, &mut buyer, &mut seller);
    assert_eq!(r, Err(CoreError::CustodyTransferFailed));
    assert_eq!(nft.owner, 1);
    assert_eq!(seller.owned_nfts, vec![NFT_ID]);
}

#[test]
fn resale_chain_keeps_lists_consistent() {
    let mut backend = ok_backend();
    let mut nft = NFTData { owner: 1, primary_sale_happened: false, last_price: 0, is_mutable: true };
    let mut alice = new_user(1, vec![NFT_ID]);
    let mut bob = new_user(2, Vec::new());
    let mut carol = new_user(3, Vec::new());
    buy_nft(&mut backend, &mut nft, NFT_ID, &mut bob, &mut alice).unwrap();
    assert_eq!(nft.owner, 2);
    let rc = buy_nft(&mut backend, &mut nft, NFT_ID, &mut carol, &mut bob).unwrap();
    assert_eq!(rc.price, 1_100_000_000);
    assert_eq!(nft.owner, 3);
    assert!(alice.owned_nfts.is_empty());
    assert!(bob.owned_nfts.is_empty());
    assert_eq!(carol.owned_nfts, vec![NFT_ID]);
}
