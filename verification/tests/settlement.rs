//! Shares and terms of sale.

use knowdly_book::ledger::Ledger;
use knowdly_book::settlement::{basis_points, sale_terms};
use knowdly_book::types::{ContractError, Event};
use soroban_sdk::testutils::{Address as _, ContractFunctionSet, EnvTestConfig};
use soroban_sdk::{Address, Env, IntoVal, Symbol, Val};

#[test]
fn shares_are_ten_thousandths() {
    assert_eq!(basis_points(10_000_000, 250), Ok(250_000));
    assert_eq!(basis_points(8_000_000, 500), Ok(400_000));
    assert_eq!(basis_points(10_000, 1), Ok(1));
    assert_eq!(basis_points(1, 10_000), Ok(1));
    assert_eq!(basis_points(1, 20_000), Ok(2));
    assert_eq!(basis_points(0, 5_000), Ok(0));
    assert_eq!(basis_points(123_456, 0), Ok(0));
}

#[test]
fn shares_round_towards_zero() {
    assert_eq!(basis_points(9_999, 1), Ok(0));
    assert_eq!(basis_points(19_999, 1), Ok(1));
    assert_eq!(basis_points(39, 250), Ok(0));
    assert_eq!(basis_points(-9_999, 1), Ok(0));
    assert_eq!(basis_points(-10_000, 1), Ok(-1));
    assert_eq!(basis_points(-19_999, 1), Ok(-1));
    assert_eq!(basis_points(-8_000_000, 500), Ok(-400_000));
}

#[test]
fn shares_of_too_much_overflow() {
    assert_eq!(basis_points(i128::MAX, 1), Ok(i128::MAX / 10_000));
    assert_eq!(basis_points(i128::MIN, 1), Ok(i128::MIN / 10_000));
    assert_eq!(basis_points(i128::MAX, 0), Ok(0));
    assert_eq!(basis_points(i128::MAX, 2), Err(ContractError::FeeOverflow));
    assert_eq!(basis_points(i128::MIN, 2), Err(ContractError::FeeOverflow));
    assert_eq!(basis_points(i128::MAX / 250, 250), Ok(i128::MAX / 250 * 250 / 10_000));
    assert_eq!(basis_points(i128::MAX / 250 + 1, 250), Err(ContractError::FeeOverflow));
    assert_eq!(basis_points(i128::MAX, u32::MAX), Err(ContractError::FeeOverflow));
}

struct Host;

impl ContractFunctionSet for Host {
    fn call(&self, _func: &str, _env: Env, _args: &[Val]) -> Option<Val> {
        None
    }
}

/// Runs `with` on the ledger of a contract whose platform asks 250, and on the
/// addresses of the asset and the platform.
fn with_platform<T>(with: impl FnOnce(&Ledger, &Address, &Address, &Env) -> T) -> T {
    let env = Env::new_with_config(EnvTestConfig { capture_snapshot_at_drop: false });
    let id = env.register(Host, ());
    let platform = Address::generate(&env);
    let asset = Address::generate(&env);
    env.as_contract(&id, || {
        let key = |name: &str| -> Val { (Symbol::new(&env, name),).into_val(&env) };
        env.storage().instance().set(&key("Platform"), &platform);
        env.storage().instance().set(&key("PaymentToken"), &asset);
        with(&Ledger::new(env.clone()), &asset, &platform, &env)
    })
}

#[test]
fn terms_split_the_price() {
    with_platform(|ledger, asset, platform, env| {
        let seller = Address::generate(env);
        let publisher = Address::generate(env);
        let terms = sale_terms(ledger, &seller, &publisher, 8_000_001, 500).ok().unwrap();
        assert_eq!(&terms.asset, asset);
        assert_eq!(&terms.platform, platform);
        assert_eq!(terms.seller, seller);
        assert_eq!(terms.publisher, publisher);
        assert_eq!(terms.royalty_amount, 400_000);
        // 250 is asked where no fee is set
        assert_eq!(terms.platform_amount, 200_000);
        assert_eq!(terms.seller_amount, 7_400_001);
    });
}

#[test]
fn terms_need_a_price_that_covers_the_fees() {
    with_platform(|ledger, _, _, env| {
        let seller = Address::generate(env);
        let refusal = |total: i128, royalty_bps: u32| {
            sale_terms(ledger, &seller, &seller, total, royalty_bps).err()
        };
        assert_eq!(refusal(0, 0), Some(ContractError::SalePriceNotPositive));
        assert_eq!(refusal(-1, 0), Some(ContractError::SalePriceNotPositive));
        assert_eq!(refusal(10_000, 9_751), Some(ContractError::SalePriceTooLow));
        assert_eq!(refusal(10_000, 9_750), None);
        assert_eq!(refusal(i128::MAX, 0), Some(ContractError::FeeOverflow));
        assert_eq!(refusal(1, 10_000), None);
    });
}

#[test]
fn topics_name_the_events() {
    let env = Env::new_with_config(EnvTestConfig { capture_snapshot_at_drop: false });
    let a = Address::generate(&env);
    let topics = [
        (Event::BookRegistered { book_id: 0, publisher: a.clone() }, "reg_book"),
        (Event::ArweaveTxUpdated { book_id: 0 }, "upd_tx"),
        (Event::Purchased { token_id: 0, book_id: 0, buyer: a.clone() }, "purchase"),
        (
            Event::Transferred {
                token_id: 0,
                old_owner: a.clone(),
                new_owner: a.clone(),
                royalty_amount: 0,
                platform_amount: 0,
                seller_amount: 0,
            },
            "transfer",
        ),
        (Event::Listed { token_id: 0, seller: a.clone(), asking_price: 1 }, "listed"),
        (Event::Unlisted { token_id: 0, seller: a.clone() }, "unlisted"),
        (Event::Sold { token_id: 0, old_owner: a.clone(), buyer: a, asking_price: 1 }, "sold"),
    ];
    for (event, topic) in topics.iter() {
        assert_eq!(event.topic(), *topic);
    }
}

#[test]
fn refusals_have_their_messages() {
    let messages = [
        (ContractError::NotInitialised, "Contract not initialised"),
        (ContractError::AlreadyInitialised, "Contract already initialised"),
        (ContractError::PlatformFeeTooHigh, "Platform fee cannot exceed 10%"),
        (ContractError::UpgradeByOther, "Only the platform can upgrade the contract"),
        (ContractError::PaymentTokenByOther, "Only the platform can set the payment token"),
        (ContractError::PaymentTokenNotConfigured, "Payment token not configured"),
        (ContractError::PriceNotPositive, "Price must be positive"),
        (ContractError::RoyaltyTooHigh, "Royalty cannot exceed 50%"),
        (ContractError::BookNotFound, "Book not found"),
        (ContractError::UpdateByOther, "Only the creator can update this book"),
        (ContractError::DeactivationByOther, "Only the creator can deactivate this book"),
        (ContractError::BookNotAvailable, "This book is not available for purchase"),
        (ContractError::AlreadyOwned, "You already own this book"),
        (ContractError::RecipientAlreadyOwns, "Recipient already owns this book"),
        (ContractError::TokenNotFound, "Token not found"),
        (ContractError::NotTokenOwner, "You do not own this token"),
        (ContractError::AskingPriceNotPositive, "Asking price must be positive"),
        (ContractError::ListingNotFound, "Listing not found"),
        (ContractError::ListingByOther, "You did not create this listing"),
        (ContractError::OwnListing, "You cannot buy your own listing"),
        (ContractError::ListingOutdated, "Token owner has changed — listing is invalid"),
        (ContractError::SalePriceNotPositive, "Sale price must be positive"),
        (
            ContractError::SalePriceTooLow,
            "Sale price too low to cover royalty and platform fees",
        ),
        (ContractError::FeeOverflow, "Fee calculation overflowed"),
    ];
    for (refusal, message) in messages.iter() {
        assert_eq!(refusal.message(), *message);
    }
}
