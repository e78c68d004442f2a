//! The contract's requests, run against the test host and a stub asset.

use knowdly_book::contract::{HandoverOrder, KnowdlyBookContract};
use knowdly_book::ledger::Ledger;
use knowdly_book::types::{Book, ContractError, Listing, Signers, Token};
use soroban_sdk::address_payload::AddressPayload;
use soroban_sdk::testutils::{
    Address as _, ContractFunctionSet, EnvTestConfig, Events as _, Ledger as _,
};
use soroban_sdk::token::{StellarAssetClient, TokenClient};
use soroban_sdk::{Address, BytesN, Env, IntoVal, String, Symbol, Val, Vec as HostVec};

/// A contract without entry points: a place for the requests to run in.
struct Host;

impl ContractFunctionSet for Host {
    fn call(&self, _func: &str, _env: Env, _args: &[Val]) -> Option<Val> {
        None
    }
}

struct Shop {
    env: Env,
    id: Address,
}

fn signed_by(addresses: &[&Address]) -> Signers {
    Signers::new(addresses.iter().map(|a| (*a).clone()).collect())
}

impl Shop {
    fn new() -> Shop {
        let env = Env::new_with_config(EnvTestConfig { capture_snapshot_at_drop: false });
        let id = env.register(Host, ());
        env.mock_all_auths_allowing_non_root_auth();
        Shop { env, id }
    }

    fn address(&self) -> Address {
        Address::generate(&self.env)
    }

    fn text(&self, text: &str) -> String {
        String::from_str(&self.env, text)
    }

    fn run<T>(&self, request: impl FnOnce(&mut Ledger) -> T) -> T {
        self.env.as_contract(&self.id, || request(&mut Ledger::new(self.env.clone())))
    }

    fn initialise(&self, platform: &Address, fee_bps: u32) -> Result<(), ContractError> {
        self.run(|ledger| {
            KnowdlyBookContract::initialise(
                ledger,
                &signed_by(&[platform]),
                platform.clone(),
                fee_bps,
            )
        })
    }

    fn set_payment_token(&self, platform: &Address, asset: &Address) -> Result<(), ContractError> {
        self.run(|ledger| {
            KnowdlyBookContract::set_payment_token(
                ledger,
                &signed_by(&[platform]),
                platform.clone(),
                asset.clone(),
            )
        })
    }

    fn register_book(
        &self,
        publisher: &Address,
        price: i128,
        royalty_bps: u32,
        arweave_tx_id: &str,
        title: &str,
    ) -> Result<u64, ContractError> {
        self.run(|ledger| {
            KnowdlyBookContract::register_book(
                ledger,
                &signed_by(&[publisher]),
                publisher.clone(),
                price,
                royalty_bps,
                self.text(arweave_tx_id),
                self.text(title),
            )
        })
    }

    fn update_arweave_tx(
        &self,
        publisher: &Address,
        book_id: u64,
        arweave_tx_id: &str,
    ) -> Result<(), ContractError> {
        self.run(|ledger| {
            KnowdlyBookContract::update_arweave_tx(
                ledger,
                &signed_by(&[publisher]),
                publisher.clone(),
                book_id,
                self.text(arweave_tx_id),
            )
        })
    }

    fn deactivate_book(&self, publisher: &Address, book_id: u64) -> Result<(), ContractError> {
        self.run(|ledger| {
            KnowdlyBookContract::deactivate_book(
                ledger,
                &signed_by(&[publisher]),
                publisher.clone(),
                book_id,
            )
        })
    }

    fn purchase(&self, buyer: &Address, book_id: u64) -> Result<u64, ContractError> {
        self.run(|ledger| {
            KnowdlyBookContract::purchase(ledger, &signed_by(&[buyer]), buyer.clone(), book_id)
        })
    }

    fn transfer_token(
        &self,
        token_id: u64,
        new_owner: &Address,
        sale_price: i128,
    ) -> Result<(), ContractError> {
        self.run(|ledger| {
            let signers = KnowdlyBookContract::transfer_signers(
                ledger,
                token_id,
                new_owner.clone(),
                sale_price,
            )?;
            KnowdlyBookContract::transfer_token(
                ledger,
                &signers,
                token_id,
                new_owner.clone(),
                sale_price,
            )
        })
    }

    fn list_for_sale(
        &self,
        seller: &Address,
        token_id: u64,
        asking_price: i128,
    ) -> Result<(), ContractError> {
        self.run(|ledger| {
            KnowdlyBookContract::list_for_sale(
                ledger,
                &signed_by(&[seller]),
                seller.clone(),
                token_id,
                asking_price,
            )
        })
    }

    fn cancel_listing(&self, seller: &Address, token_id: u64) -> Result<(), ContractError> {
        self.run(|ledger| {
            KnowdlyBookContract::cancel_listing(
                ledger,
                &signed_by(&[seller]),
                seller.clone(),
                token_id,
            )
        })
    }

    fn buy_listing(&self, buyer: &Address, token_id: u64) -> Result<(), ContractError> {
        self.run(|ledger| {
            KnowdlyBookContract::buy_listing(ledger, &signed_by(&[buyer]), buyer.clone(), token_id)
        })
    }

    fn get_payment_token(&self) -> Result<Address, ContractError> {
        self.run(|ledger| KnowdlyBookContract::get_payment_token(ledger))
    }

    fn get_listing(&self, token_id: u64) -> Result<Listing, ContractError> {
        self.run(|ledger| KnowdlyBookContract::get_listing(ledger, token_id))
    }

    fn owns_book(&self, owner: &Address, book_id: u64) -> bool {
        self.run(|ledger| KnowdlyBookContract::owns_book(ledger, owner.clone(), book_id)).unwrap()
    }

    fn get_tokens_by_owner(&self, owner: &Address) -> HostVec<u64> {
        self.run(|ledger| KnowdlyBookContract::get_tokens_by_owner(ledger, owner.clone())).unwrap()
    }

    fn tokens_of(&self, owner: &Address) -> Vec<u64> {
        self.get_tokens_by_owner(owner).iter().collect()
    }

    fn get_book(&self, book_id: u64) -> Result<Book, ContractError> {
        self.run(|ledger| KnowdlyBookContract::get_book(ledger, book_id))
    }

    fn get_token(&self, token_id: u64) -> Result<Token, ContractError> {
        self.run(|ledger| KnowdlyBookContract::get_token(ledger, token_id))
    }

    fn get_total_books(&self) -> u64 {
        self.run(|ledger| KnowdlyBookContract::get_total_books(ledger)).unwrap()
    }

    fn get_total_tokens(&self) -> u64 {
        self.run(|ledger| KnowdlyBookContract::get_total_tokens(ledger)).unwrap()
    }

    /// Deploys a stub asset and points the contract at it, so that sales have
    /// somewhere to move money.
    fn payment_asset(&self, platform: &Address) -> Address {
        let asset = self.stub_asset();
        self.set_payment_token(platform, &asset).unwrap();
        asset
    }

    fn stub_asset(&self) -> Address {
        self.env.register_stellar_asset_contract_v2(self.address()).address()
    }

    fn fund(&self, asset: &Address, who: &Address, amount: i128) {
        StellarAssetClient::new(&self.env, asset).mint(who, &amount);
    }

    fn balance(&self, asset: &Address, who: &Address) -> i128 {
        TokenClient::new(&self.env, asset).balance(who)
    }

    /// Whether the last request published this event, and this one only.
    fn published(&self, topic: &str, data: Val) -> bool {
        let events = self.env.events().all().filter_by_contract(&self.id);
        let mut topics: HostVec<Val> = HostVec::new(&self.env);
        topics.push_back(Symbol::new(&self.env, topic).to_val());
        let mut expected: HostVec<(Address, HostVec<Val>, Val)> = HostVec::new(&self.env);
        expected.push_back((self.id.clone(), topics, data));
        events == expected
    }

    fn published_nothing(&self) -> bool {
        self.env.events().all().filter_by_contract(&self.id).events().is_empty()
    }
}

/// A shop with a platform (fee 250), an asset and one book of 10_000_000 with a
/// royalty of 500, and a reader who has bought it.
struct Sold {
    shop: Shop,
    platform: Address,
    asset: Address,
    creator: Address,
    reader: Address,
    book_id: u64,
    token_id: u64,
}

fn sold_book() -> Sold {
    let shop = Shop::new();
    let platform = shop.address();
    let creator = shop.address();
    let reader = shop.address();
    shop.initialise(&platform, 250).unwrap();
    let asset = shop.payment_asset(&platform);
    shop.fund(&asset, &reader, 100_000_000);
    let book_id = shop.register_book(&creator, 10_000_000, 500, "arweave-tx", "A Book").unwrap();
    let token_id = shop.purchase(&reader, book_id).unwrap();
    Sold { shop, platform, asset, creator, reader, book_id, token_id }
}

#[test]
fn test_register_book() {
    let shop = Shop::new();
    let platform = shop.address();
    let creator = shop.address();

    shop.initialise(&platform, 250).unwrap();

    let book_id = shop
        .register_book(&creator, 10_000_000, 500, "pending_test", "Introduction to Blockchain")
        .unwrap();

    assert_eq!(book_id, 0);
    let book = shop.get_book(book_id).unwrap();
    assert_eq!(book.id, 0);
    assert_eq!(book.price, 10_000_000);
    assert_eq!(book.royalty_bps, 500);
    assert_eq!(book.active, true);
    assert_eq!(book.total_sales, 0);
}

#[test]
fn test_update_arweave_tx() {
    let shop = Shop::new();
    let platform = shop.address();
    let creator = shop.address();

    shop.initialise(&platform, 250).unwrap();

    let book_id =
        shop.register_book(&creator, 10_000_000, 500, "pending_1234567890", "Test Book").unwrap();

    let book = shop.get_book(book_id).unwrap();
    assert_eq!(book.arweave_tx_id, shop.text("pending_1234567890"));

    shop.update_arweave_tx(&creator, book_id, "real-arweave-tx-id-abc123").unwrap();

    let updated = shop.get_book(book_id).unwrap();
    assert_eq!(updated.arweave_tx_id, shop.text("real-arweave-tx-id-abc123"));
}

#[test]
fn test_purchase_and_ownership() {
    let shop = Shop::new();
    let platform = shop.address();
    let creator = shop.address();
    let reader = shop.address();

    shop.initialise(&platform, 250).unwrap();
    let asset = shop.payment_asset(&platform);
    shop.fund(&asset, &reader, 100_000_000);

    let book_id = shop
        .register_book(&creator, 10_000_000, 500, "arweave-tx-id-456", "Calculus for Engineers")
        .unwrap();

    assert_eq!(shop.owns_book(&reader, book_id), false);
    let token_id = shop.purchase(&reader, book_id).unwrap();
    assert_eq!(shop.owns_book(&reader, book_id), true);

    let token = shop.get_token(token_id).unwrap();
    assert_eq!(token.book_id, book_id);
    assert_eq!(token.owner, reader);
}

#[test]
fn test_transfer_enforces_royalty() {
    let shop = Shop::new();
    let platform = shop.address();
    let creator = shop.address();
    let reader_a = shop.address();
    let reader_b = shop.address();

    shop.initialise(&platform, 250).unwrap();
    let asset = shop.payment_asset(&platform);
    shop.fund(&asset, &reader_a, 100_000_000);
    shop.fund(&asset, &reader_b, 100_000_000);

    let book_id = shop
        .register_book(&creator, 10_000_000, 500, "arweave-tx-id-789", "Organic Chemistry")
        .unwrap();
    let token_id = shop.purchase(&reader_a, book_id).unwrap();

    shop.transfer_token(token_id, &reader_b, 8_000_000).unwrap();

    assert_eq!(shop.owns_book(&reader_a, book_id), false);
    assert_eq!(shop.owns_book(&reader_b, book_id), true);
}

#[test]
fn test_get_tokens_by_owner() {
    let shop = Shop::new();
    let platform = shop.address();
    let creator = shop.address();
    let reader = shop.address();

    shop.initialise(&platform, 250).unwrap();
    let asset = shop.payment_asset(&platform);
    shop.fund(&asset, &reader, 100_000_000);

    let book_id_a =
        shop.register_book(&creator, 10_000_000, 500, "arweave-tx-a", "Book A").unwrap();
    let book_id_b =
        shop.register_book(&creator, 20_000_000, 500, "arweave-tx-b", "Book B").unwrap();

    let tokens_before = shop.get_tokens_by_owner(&reader);
    assert_eq!(tokens_before.len(), 0);

    let token_a = shop.purchase(&reader, book_id_a).unwrap();
    let token_b = shop.purchase(&reader, book_id_b).unwrap();

    let tokens_after = shop.get_tokens_by_owner(&reader);
    assert_eq!(tokens_after.len(), 2);
    assert_eq!(tokens_after.get(0).unwrap(), token_a);
    assert_eq!(tokens_after.get(1).unwrap(), token_b);
}

#[test]
fn test_tokens_update_on_transfer() {
    let shop = Shop::new();
    let platform = shop.address();
    let creator = shop.address();
    let reader_a = shop.address();
    let reader_b = shop.address();

    shop.initialise(&platform, 250).unwrap();
    let asset = shop.payment_asset(&platform);
    shop.fund(&asset, &reader_a, 100_000_000);
    shop.fund(&asset, &reader_b, 100_000_000);

    let book_id = shop
        .register_book(&creator, 10_000_000, 500, "arweave-tx-transfer", "Transfer Test Book")
        .unwrap();
    let token_id = shop.purchase(&reader_a, book_id).unwrap();

    assert_eq!(shop.get_tokens_by_owner(&reader_a).len(), 1);
    assert_eq!(shop.get_tokens_by_owner(&reader_b).len(), 0);

    shop.transfer_token(token_id, &reader_b, 8_000_000).unwrap();

    assert_eq!(shop.get_tokens_by_owner(&reader_a).len(), 0);
    assert_eq!(shop.get_tokens_by_owner(&reader_b).len(), 1);
    assert_eq!(shop.get_tokens_by_owner(&reader_b).get(0).unwrap(), token_id);
}

#[test]
fn test_marketplace_list_and_buy() {
    let shop = Shop::new();
    let platform = shop.address();
    let creator = shop.address();
    let seller = shop.address();
    let buyer = shop.address();

    shop.initialise(&platform, 250).unwrap();
    let asset = shop.payment_asset(&platform);
    shop.fund(&asset, &seller, 100_000_000);
    shop.fund(&asset, &buyer, 100_000_000);

    let book_id = shop
        .register_book(&creator, 10_000_000, 500, "arweave-tx-marketplace", "Marketplace Test Book")
        .unwrap();

    // the seller buys the book
    let token_id = shop.purchase(&seller, book_id).unwrap();
    assert_eq!(shop.owns_book(&seller, book_id), true);

    // and lists it for resale
    shop.list_for_sale(&seller, token_id, 8_000_000).unwrap();

    let listing = shop.get_listing(token_id).unwrap();
    assert_eq!(listing.token_id, token_id);
    assert_eq!(listing.seller, seller.clone());
    assert_eq!(listing.asking_price, 8_000_000);

    shop.buy_listing(&buyer, token_id).unwrap();

    // ownership has moved
    assert_eq!(shop.owns_book(&seller, book_id), false);
    assert_eq!(shop.owns_book(&buyer, book_id), true);

    // so have the lists
    assert_eq!(shop.get_tokens_by_owner(&seller).len(), 0);
    assert_eq!(shop.get_tokens_by_owner(&buyer).len(), 1);

    // the listing is gone
    assert_eq!(shop.get_listing(token_id).unwrap_err(), ContractError::ListingNotFound);
}

#[test]
fn test_purchase_pays_the_creator() {
    let shop = Shop::new();
    let platform = shop.address();
    let creator = shop.address();
    let reader = shop.address();

    shop.initialise(&platform, 250).unwrap();
    let asset = shop.payment_asset(&platform);
    shop.fund(&asset, &reader, 100_000_000);

    let book_id = shop
        .register_book(&creator, 10_000_000, 500, "arweave-tx-primary", "Primary Sale Book")
        .unwrap();

    shop.purchase(&reader, book_id).unwrap();

    // 250 bps of 10_000_000 to the platform, the rest to the creator
    assert_eq!(shop.balance(&asset, &reader), 90_000_000);
    assert_eq!(shop.balance(&asset, &platform), 250_000);
    assert_eq!(shop.balance(&asset, &creator), 9_750_000);
}

#[test]
fn test_buy_listing_settles_the_split() {
    let shop = Shop::new();
    let platform = shop.address();
    let creator = shop.address();
    let seller = shop.address();
    let buyer = shop.address();

    shop.initialise(&platform, 250).unwrap();
    let asset = shop.payment_asset(&platform);
    shop.fund(&asset, &seller, 100_000_000);
    shop.fund(&asset, &buyer, 100_000_000);

    let book_id = shop
        .register_book(&creator, 10_000_000, 500, "arweave-tx-resale", "Resale Split Book")
        .unwrap();

    let token_id = shop.purchase(&seller, book_id).unwrap();
    let creator_after_primary = shop.balance(&asset, &creator);

    shop.list_for_sale(&seller, token_id, 8_000_000).unwrap();
    shop.buy_listing(&buyer, token_id).unwrap();

    // 8_000_000 split: 500 bps royalty, 250 bps platform fee, rest to seller
    assert_eq!(shop.balance(&asset, &buyer), 92_000_000);
    assert_eq!(shop.balance(&asset, &creator), creator_after_primary + 400_000);
    assert_eq!(shop.owns_book(&buyer, book_id), true);
}

#[test]
#[should_panic]
fn test_buy_listing_without_funds_fails() {
    let shop = Shop::new();
    let platform = shop.address();
    let creator = shop.address();
    let seller = shop.address();
    let pauper = shop.address();

    shop.initialise(&platform, 250).unwrap();
    let asset = shop.payment_asset(&platform);
    shop.fund(&asset, &seller, 100_000_000);

    let book_id = shop
        .register_book(&creator, 10_000_000, 500, "arweave-tx-free", "Not Free Book")
        .unwrap();

    let token_id = shop.purchase(&seller, book_id).unwrap();
    shop.list_for_sale(&seller, token_id, 8_000_000).unwrap();

    // an unfunded observer cannot take the token for nothing
    shop.buy_listing(&pauper, token_id).unwrap();
}

#[test]
#[should_panic]
fn test_initialise_cannot_be_called_twice() {
    let shop = Shop::new();
    let platform = shop.address();
    let attacker = shop.address();

    shop.initialise(&platform, 250).unwrap();

    // it would hand the attacker the platform role, and with it upgrades, and
    // reset the counters onto existing records
    shop.initialise(&attacker, 0).unwrap();
}

#[test]
#[should_panic]
fn test_buy_listing_rejects_a_second_copy() {
    let shop = Shop::new();
    let platform = shop.address();
    let creator = shop.address();
    let reader_a = shop.address();
    let reader_b = shop.address();

    shop.initialise(&platform, 250).unwrap();
    let asset = shop.payment_asset(&platform);
    shop.fund(&asset, &reader_a, 100_000_000);
    shop.fund(&asset, &reader_b, 100_000_000);

    let book_id = shop
        .register_book(&creator, 10_000_000, 500, "arweave-tx-dupe", "Duplicate Copy Book")
        .unwrap();

    let token_a = shop.purchase(&reader_a, book_id).unwrap();
    shop.purchase(&reader_b, book_id).unwrap();

    // the second reader owns this book already
    shop.list_for_sale(&reader_a, token_a, 8_000_000).unwrap();
    shop.buy_listing(&reader_b, token_a).unwrap();
}

#[test]
fn test_marketplace_cancel_listing() {
    let shop = Shop::new();
    let platform = shop.address();
    let creator = shop.address();
    let seller = shop.address();

    shop.initialise(&platform, 250).unwrap();
    let asset = shop.payment_asset(&platform);
    shop.fund(&asset, &seller, 100_000_000);

    let book_id = shop
        .register_book(&creator, 10_000_000, 500, "arweave-tx-cancel", "Cancel Test Book")
        .unwrap();

    let token_id = shop.purchase(&seller, book_id).unwrap();
    shop.list_for_sale(&seller, token_id, 8_000_000).unwrap();

    // cancel the listing
    shop.cancel_listing(&seller, token_id).unwrap();

    // the seller still owns the book
    assert_eq!(shop.owns_book(&seller, book_id), true);
    assert_eq!(shop.get_tokens_by_owner(&seller).len(), 1);
}

// Administration.

#[test]
fn initialise_is_refused_a_second_time() {
    let shop = Shop::new();
    let platform = shop.address();
    let other = shop.address();
    assert_eq!(shop.initialise(&platform, 250), Ok(()));
    assert_eq!(shop.initialise(&other, 0), Err(ContractError::AlreadyInitialised));
    assert_eq!(shop.initialise(&platform, 250), Err(ContractError::AlreadyInitialised));
    // the platform is still the first one
    assert_eq!(
        shop.set_payment_token(&other, &other),
        Err(ContractError::PaymentTokenByOther)
    );
}

#[test]
fn platform_fee_is_bounded() {
    let shop = Shop::new();
    let platform = shop.address();
    assert_eq!(shop.initialise(&platform, 1001), Err(ContractError::PlatformFeeTooHigh));
    assert_eq!(shop.initialise(&platform, 1000), Ok(()));
}

#[test]
fn payment_token_is_the_platforms_to_set() {
    let shop = Shop::new();
    let platform = shop.address();
    let other = shop.address();
    let asset = shop.stub_asset();
    assert_eq!(shop.set_payment_token(&platform, &asset), Err(ContractError::NotInitialised));
    shop.initialise(&platform, 250).unwrap();
    assert_eq!(shop.get_payment_token(), Err(ContractError::PaymentTokenNotConfigured));
    assert_eq!(
        shop.set_payment_token(&other, &asset),
        Err(ContractError::PaymentTokenByOther)
    );
    assert_eq!(shop.set_payment_token(&platform, &asset), Ok(()));
    assert_eq!(shop.get_payment_token(), Ok(asset));
    let next = shop.stub_asset();
    assert_eq!(shop.set_payment_token(&platform, &next), Ok(()));
    assert_eq!(shop.get_payment_token(), Ok(next));
}

#[test]
fn upgrade_is_the_platforms_and_keeps_the_records() {
    let Sold { shop, platform, reader, book_id, token_id, .. } = sold_book();
    let hash = BytesN::from_array(&shop.env, &[7u8; 32]);
    let upgrade = |by: &Address| {
        shop.run(|ledger| {
            KnowdlyBookContract::upgrade(ledger, &signed_by(&[by]), by.clone(), hash.clone())
        })
    };
    assert_eq!(upgrade(&reader), Err(ContractError::UpgradeByOther));
    assert_eq!(upgrade(&platform), Ok(hash.clone()));
    assert_eq!(shop.owns_book(&reader, book_id), true);
    assert_eq!(shop.get_token(token_id).unwrap().owner, reader);
    assert_eq!(shop.get_total_books(), 1);
    assert_eq!(shop.get_total_tokens(), 1);
}

#[test]
fn upgrade_needs_a_platform() {
    let shop = Shop::new();
    let other = shop.address();
    let hash = BytesN::from_array(&shop.env, &[7u8; 32]);
    let code = shop.run(|ledger| {
        KnowdlyBookContract::upgrade(ledger, &signed_by(&[&other]), other.clone(), hash)
    });
    assert_eq!(code, Err(ContractError::NotInitialised));
}

#[test]
fn every_request_needs_its_signature() {
    let Sold { shop, platform, asset, creator, reader, book_id, token_id } = sold_book();
    let stranger = shop.address();
    let nobody = signed_by(&[]);
    let strangers = signed_by(&[&stranger]);
    let refused = ContractError::NotAuthorized;
    shop.list_for_sale(&reader, token_id, 8_000_000).unwrap();
    let hash = BytesN::from_array(&shop.env, &[7u8; 32]);
    let text = shop.text("text");
    shop.run(|ledger| {
        for signers in [&nobody, &strangers] {
            assert_eq!(
                KnowdlyBookContract::upgrade(ledger, signers, platform.clone(), hash.clone()),
                Err(refused)
            );
            assert_eq!(
                KnowdlyBookContract::initialise(ledger, signers, platform.clone(), 250),
                Err(refused)
            );
            assert_eq!(
                KnowdlyBookContract::set_payment_token(
                    ledger,
                    signers,
                    platform.clone(),
                    asset.clone()
                ),
                Err(refused)
            );
            assert_eq!(
                KnowdlyBookContract::register_book(
                    ledger,
                    signers,
                    creator.clone(),
                    1,
                    0,
                    text.clone(),
                    text.clone()
                ),
                Err(refused)
            );
            assert_eq!(
                KnowdlyBookContract::update_arweave_tx(
                    ledger,
                    signers,
                    creator.clone(),
                    book_id,
                    text.clone()
                ),
                Err(refused)
            );
            assert_eq!(
                KnowdlyBookContract::deactivate_book(ledger, signers, creator.clone(), book_id),
                Err(refused)
            );
            assert_eq!(
                KnowdlyBookContract::purchase(ledger, signers, reader.clone(), book_id),
                Err(refused)
            );
            assert_eq!(
                KnowdlyBookContract::transfer_token(
                    ledger,
                    signers,
                    token_id,
                    stranger.clone(),
                    0
                ),
                Err(refused)
            );
            assert_eq!(
                KnowdlyBookContract::list_for_sale(ledger, signers, reader.clone(), token_id, 1),
                Err(refused)
            );
            assert_eq!(
                KnowdlyBookContract::cancel_listing(ledger, signers, reader.clone(), token_id),
                Err(refused)
            );
            assert_eq!(
                KnowdlyBookContract::buy_listing(ledger, signers, creator.clone(), token_id),
                Err(refused)
            );
        }
    });
    // a priced transfer needs the one who pays, too
    let owner_only = signed_by(&[&reader]);
    let priced = shop.run(|ledger| {
        KnowdlyBookContract::transfer_token(ledger, &owner_only, token_id, stranger.clone(), 1)
    });
    assert_eq!(priced, Err(refused));
    assert_eq!(shop.owns_book(&reader, book_id), true);
}

#[test]
fn signers_are_those_named() {
    let shop = Shop::new();
    let a = shop.address();
    let b = shop.address();
    let signers = signed_by(&[&a]);
    assert!(signers.contains(&a));
    assert!(!signers.contains(&b));
    assert!(!signed_by(&[]).contains(&a));
    assert!(signed_by(&[&b, &a]).contains(&a));
}

// Books.

#[test]
fn registered_books_read_back_under_consecutive_ids() {
    let shop = Shop::new();
    let platform = shop.address();
    let creator = shop.address();
    let other = shop.address();
    shop.initialise(&platform, 250).unwrap();
    assert_eq!(shop.register_book(&creator, 5, 5000, "tx-a", "A"), Ok(0));
    assert!(shop.published("reg_book", (0u64, creator.clone()).into_val(&shop.env)));
    assert_eq!(shop.register_book(&other, 7, 0, "tx-b", "B"), Ok(1));
    assert!(shop.published("reg_book", (1u64, other.clone()).into_val(&shop.env)));
    assert_eq!(shop.get_total_books(), 2);
    assert_eq!(shop.get_total_tokens(), 0);

    let first = shop.get_book(0).unwrap();
    assert_eq!(first.id, 0);
    assert_eq!(first.publisher, creator);
    assert_eq!(first.price, 5);
    assert_eq!(first.royalty_bps, 5000);
    assert_eq!(first.arweave_tx_id, shop.text("tx-a"));
    assert_eq!(first.title, shop.text("A"));
    assert_eq!(first.active, true);
    assert_eq!(first.total_sales, 0);
    let second = shop.get_book(1).unwrap();
    assert_eq!(second.id, 1);
    assert_eq!(second.publisher, other);
    assert_eq!(second.price, 7);
    assert_eq!(shop.get_book(2).unwrap_err(), ContractError::BookNotFound);
}

#[test]
fn registration_is_bounded() {
    let shop = Shop::new();
    let creator = shop.address();
    assert_eq!(
        shop.register_book(&creator, 0, 500, "tx", "T"),
        Err(ContractError::PriceNotPositive)
    );
    assert_eq!(
        shop.register_book(&creator, -1, 500, "tx", "T"),
        Err(ContractError::PriceNotPositive)
    );
    assert_eq!(
        shop.register_book(&creator, 1, 5001, "tx", "T"),
        Err(ContractError::RoyaltyTooHigh)
    );
    assert!(shop.published_nothing());
    assert_eq!(shop.get_total_books(), 0);
    assert_eq!(shop.register_book(&creator, 1, 5000, "tx", "T"), Ok(0));
}

#[test]
fn only_the_creator_changes_a_book() {
    let shop = Shop::new();
    let creator = shop.address();
    let other = shop.address();
    let book_id = shop.register_book(&creator, 10, 100, "tx", "T").unwrap();
    assert_eq!(
        shop.update_arweave_tx(&other, book_id, "mine"),
        Err(ContractError::UpdateByOther)
    );
    assert_eq!(
        shop.deactivate_book(&other, book_id),
        Err(ContractError::DeactivationByOther)
    );
    assert_eq!(
        shop.update_arweave_tx(&creator, 9, "mine"),
        Err(ContractError::BookNotFound)
    );
    assert_eq!(shop.deactivate_book(&creator, 9), Err(ContractError::BookNotFound));

    assert_eq!(shop.update_arweave_tx(&creator, book_id, "moved"), Ok(()));
    assert!(shop.published("upd_tx", (book_id,).into_val(&shop.env)));
    let book = shop.get_book(book_id).unwrap();
    assert_eq!(book.arweave_tx_id, shop.text("moved"));
    // everything else is as it was
    assert_eq!(book.publisher, creator);
    assert_eq!(book.price, 10);
    assert_eq!(book.royalty_bps, 100);
    assert_eq!(book.title, shop.text("T"));
    assert_eq!(book.active, true);
}

#[test]
fn deactivated_book_is_not_sold_but_stays_owned() {
    let Sold { shop, asset, creator, reader, book_id, token_id, .. } = sold_book();
    let late = shop.address();
    shop.fund(&asset, &late, 100_000_000);
    assert_eq!(shop.deactivate_book(&creator, book_id), Ok(()));
    assert!(shop.published_nothing());
    assert_eq!(shop.get_book(book_id).unwrap().active, false);
    assert_eq!(shop.purchase(&late, book_id), Err(ContractError::BookNotAvailable));
    assert_eq!(shop.balance(&asset, &late), 100_000_000);
    assert_eq!(shop.owns_book(&reader, book_id), true);
    // copies that exist can still be resold
    assert_eq!(shop.list_for_sale(&reader, token_id, 8_000_000), Ok(()));
    assert_eq!(shop.buy_listing(&late, token_id), Ok(()));
    assert_eq!(shop.owns_book(&late, book_id), true);
}

// Purchases.

#[test]
fn purchase_gives_a_token() {
    let shop = Shop::new();
    let platform = shop.address();
    let creator = shop.address();
    let reader = shop.address();
    let second = shop.address();
    shop.initialise(&platform, 250).unwrap();
    let asset = shop.payment_asset(&platform);
    shop.fund(&asset, &reader, 100);
    shop.fund(&asset, &second, 100);
    let book_id = shop.register_book(&creator, 40, 500, "tx", "T").unwrap();
    shop.env.ledger().set_sequence_number(1234);

    assert_eq!(shop.purchase(&reader, book_id), Ok(0));
    assert!(shop.published("purchase", (0u64, book_id, reader.clone()).into_val(&shop.env)));
    let token = shop.get_token(0).unwrap();
    assert_eq!(token.id, 0);
    assert_eq!(token.book_id, book_id);
    assert_eq!(token.owner, reader);
    assert_eq!(token.minted_at, 1234);
    assert_eq!(token.purchase_price, 40);
    assert_eq!(shop.get_book(book_id).unwrap().total_sales, 1);
    assert_eq!(shop.tokens_of(&reader), vec![0]);
    assert_eq!(shop.get_total_tokens(), 1);

    // a second copy is refused and costs nothing
    assert_eq!(shop.purchase(&reader, book_id), Err(ContractError::AlreadyOwned));
    assert_eq!(shop.balance(&asset, &reader), 60);

    assert_eq!(shop.purchase(&second, book_id), Ok(1));
    assert_eq!(shop.get_book(book_id).unwrap().total_sales, 2);
    assert_eq!(shop.tokens_of(&second), vec![1]);
    assert_eq!(shop.get_total_tokens(), 2);
    // other terms of the book are as they were
    assert_eq!(shop.get_book(book_id).unwrap().price, 40);
    assert_eq!(shop.get_book(book_id).unwrap().publisher, creator);
}

#[test]
fn purchase_needs_a_shop_in_order() {
    let shop = Shop::new();
    let platform = shop.address();
    let creator = shop.address();
    let reader = shop.address();
    assert_eq!(shop.purchase(&reader, 0), Err(ContractError::BookNotFound));
    let early = shop.register_book(&creator, 10, 0, "tx", "T").unwrap();
    assert_eq!(shop.purchase(&reader, early), Err(ContractError::NotInitialised));
    shop.initialise(&platform, 250).unwrap();
    assert_eq!(shop.purchase(&reader, early), Err(ContractError::PaymentTokenNotConfigured));

    // an account is no token contract
    let key = BytesN::from_array(&shop.env, &[5u8; 32]);
    let account =
        Address::from_payload(&shop.env, AddressPayload::AccountIdPublicKeyEd25519(key));
    shop.set_payment_token(&platform, &account).unwrap();
    assert_eq!(shop.purchase(&reader, early), Err(ContractError::PaymentTokenNotContract));

    // a contract that is no token contract refuses
    shop.set_payment_token(&platform, &shop.address()).unwrap();
    assert_eq!(shop.purchase(&reader, early), Err(ContractError::PaymentRefused));
    assert!(shop.published_nothing());
    assert_eq!(shop.get_total_tokens(), 0);
}

#[test]
fn initialising_late_sets_the_counter_of_books_back() {
    let shop = Shop::new();
    let platform = shop.address();
    let creator = shop.address();
    let other = shop.address();
    assert_eq!(shop.register_book(&creator, 10, 0, "tx", "first"), Ok(0));
    shop.initialise(&platform, 250).unwrap();
    assert_eq!(shop.get_total_books(), 0);
    assert_eq!(shop.register_book(&other, 20, 0, "tx", "second"), Ok(0));
    assert_eq!(shop.get_book(0).unwrap().publisher, other);

    // the holdings are in order all the same
    let asset = shop.payment_asset(&platform);
    let reader = shop.address();
    let friend = shop.address();
    shop.fund(&asset, &reader, 1_000);
    assert_eq!(shop.purchase(&reader, 0), Ok(0));
    assert_eq!(shop.purchase(&reader, 0), Err(ContractError::AlreadyOwned));
    assert_eq!(shop.transfer_token(0, &friend, 0), Ok(()));
    assert_eq!(shop.owns_book(&reader, 0), false);
    assert_eq!(shop.owns_book(&friend, 0), true);
    assert_eq!(shop.tokens_of(&reader), Vec::<u64>::new());
    assert_eq!(shop.tokens_of(&friend), vec![0]);
}

#[test]
fn purchase_price_can_overflow() {
    let shop = Shop::new();
    let platform = shop.address();
    let creator = shop.address();
    let reader = shop.address();
    shop.initialise(&platform, 250).unwrap();
    shop.payment_asset(&platform);
    let book_id = shop.register_book(&creator, i128::MAX, 0, "tx", "T").unwrap();
    assert_eq!(shop.purchase(&reader, book_id), Err(ContractError::FeeOverflow));
}

#[test]
fn small_prices_round_to_the_seller() {
    let shop = Shop::new();
    let platform = shop.address();
    let creator = shop.address();
    let reader = shop.address();
    let next = shop.address();
    shop.initialise(&platform, 250).unwrap();
    let asset = shop.payment_asset(&platform);
    shop.fund(&asset, &reader, 1_000);
    shop.fund(&asset, &next, 1_000);
    // 250 bps of 39 is 0.975, of which nothing is due
    let book_id = shop.register_book(&creator, 39, 500, "tx", "T").unwrap();
    let token_id = shop.purchase(&reader, book_id).unwrap();
    assert_eq!(shop.balance(&asset, &platform), 0);
    assert_eq!(shop.balance(&asset, &creator), 39);
    assert_eq!(shop.balance(&asset, &reader), 961);
    // of 79: royalty 3.95, fee 1.975
    shop.transfer_token(token_id, &next, 79).unwrap();
    assert!(shop.published(
        "transfer",
        (token_id, reader.clone(), next.clone(), 3i128, 1i128, 75i128).into_val(&shop.env)
    ));
    assert_eq!(shop.balance(&asset, &creator), 42);
    assert_eq!(shop.balance(&asset, &platform), 1);
    assert_eq!(shop.balance(&asset, &reader), 1_036);
    assert_eq!(shop.balance(&asset, &next), 921);
}

#[test]
fn no_fee_and_no_royalty_leave_all_to_the_seller() {
    let shop = Shop::new();
    let platform = shop.address();
    let creator = shop.address();
    let reader = shop.address();
    let next = shop.address();
    shop.initialise(&platform, 0).unwrap();
    let asset = shop.payment_asset(&platform);
    shop.fund(&asset, &reader, 1_000);
    shop.fund(&asset, &next, 1_000);
    let book_id = shop.register_book(&creator, 100, 0, "tx", "T").unwrap();
    let token_id = shop.purchase(&reader, book_id).unwrap();
    assert_eq!(shop.balance(&asset, &creator), 100);
    shop.list_for_sale(&reader, token_id, 200).unwrap();
    shop.buy_listing(&next, token_id).unwrap();
    assert_eq!(shop.balance(&asset, &creator), 100);
    assert_eq!(shop.balance(&asset, &platform), 0);
    assert_eq!(shop.balance(&asset, &reader), 1_100);
    assert_eq!(shop.balance(&asset, &next), 800);
}

#[test]
fn unpaid_purchase_leaves_the_records() {
    let shop = Shop::new();
    let platform = shop.address();
    let creator = shop.address();
    let pauper = shop.address();
    shop.initialise(&platform, 250).unwrap();
    shop.payment_asset(&platform);
    let book_id = shop.register_book(&creator, 10_000, 500, "tx", "T").unwrap();
    assert_eq!(shop.purchase(&pauper, book_id), Err(ContractError::PaymentRefused));
    assert!(shop.published_nothing());
    assert_eq!(shop.owns_book(&pauper, book_id), false);
    assert_eq!(shop.tokens_of(&pauper), Vec::<u64>::new());
    assert_eq!(shop.get_total_tokens(), 0);
    assert_eq!(shop.get_book(book_id).unwrap().total_sales, 0);
}

#[test]
fn refusal_halfway_ends_the_settlement() {
    let Sold { shop, platform, asset, creator, reader, book_id, token_id } = sold_book();
    let poor = shop.address();
    // enough for the royalty of 400_000, not for the fee of 200_000
    shop.fund(&asset, &poor, 500_000);
    shop.list_for_sale(&reader, token_id, 8_000_000).unwrap();
    let platform_before = shop.balance(&asset, &platform);
    let creator_before = shop.balance(&asset, &creator);
    let reader_before = shop.balance(&asset, &reader);
    assert_eq!(shop.buy_listing(&poor, token_id), Err(ContractError::PaymentRefused));
    assert_eq!(shop.balance(&asset, &creator), creator_before + 400_000);
    assert_eq!(shop.balance(&asset, &platform), platform_before);
    assert_eq!(shop.balance(&asset, &reader), reader_before);
    // no record has moved
    assert_eq!(shop.owns_book(&reader, book_id), true);
    assert_eq!(shop.owns_book(&poor, book_id), false);
    assert_eq!(shop.get_token(token_id).unwrap().owner, reader);
    assert_eq!(shop.get_listing(token_id).unwrap().seller, reader);
}

#[test]
fn purchase_order_says_what_will_happen() {
    let shop = Shop::new();
    let platform = shop.address();
    let creator = shop.address();
    let reader = shop.address();
    shop.initialise(&platform, 250).unwrap();
    let asset = shop.payment_asset(&platform);
    let book_id = shop.register_book(&creator, 10_000, 500, "tx", "T").unwrap();
    let order = shop
        .run(|ledger| {
            KnowdlyBookContract::order_purchase(ledger, &signed_by(&[&reader]), &reader, book_id)
        })
        .ok()
        .unwrap();
    assert_eq!(order.buyer, reader);
    assert_eq!(order.book_id, book_id);
    assert_eq!(order.book.price, 10_000);
    assert_eq!(order.token_id, 0);
    assert_eq!(order.terms.asset, asset);
    assert_eq!(order.terms.publisher, creator);
    assert_eq!(order.terms.platform, platform);
    assert_eq!(order.terms.seller, creator);
    assert_eq!(order.terms.royalty_amount, 0);
    assert_eq!(order.terms.platform_amount, 250);
    assert_eq!(order.terms.seller_amount, 9_750);
    // an order is not a sale
    assert_eq!(shop.owns_book(&reader, book_id), false);
    assert_eq!(shop.get_total_tokens(), 0);
}

#[test]
fn purchase_is_concluded_only_if_paid() {
    let shop = Shop::new();
    let platform = shop.address();
    let creator = shop.address();
    let reader = shop.address();
    shop.initialise(&platform, 250).unwrap();
    shop.payment_asset(&platform);
    let book_id = shop.register_book(&creator, 10_000, 500, "tx", "T").unwrap();
    let conclude = |paid: bool| {
        shop.run(|ledger| {
            let order = KnowdlyBookContract::order_purchase(
                ledger,
                &signed_by(&[&reader]),
                &reader,
                book_id,
            )?;
            KnowdlyBookContract::conclude_purchase(ledger, order, paid)
        })
    };
    assert_eq!(conclude(false), Err(ContractError::PaymentRefused));
    assert_eq!(shop.owns_book(&reader, book_id), false);
    let without_room = shop.run(|ledger| {
        let mut order = KnowdlyBookContract::order_purchase(
            ledger,
            &signed_by(&[&reader]),
            &reader,
            book_id,
        )?;
        order.token_id = u64::MAX;
        KnowdlyBookContract::conclude_purchase(ledger, order, true)
    });
    assert_eq!(without_room, Err(ContractError::CapacityExceeded));
    assert_eq!(shop.owns_book(&reader, book_id), false);
    assert_eq!(conclude(true), Ok(0));
    assert_eq!(shop.owns_book(&reader, book_id), true);
    assert_eq!(shop.tokens_of(&reader), vec![0]);
}

// Resales and gifts.

#[test]
fn priced_transfer_pays_the_royalty() {
    let Sold { shop, platform, asset, creator, reader, book_id, token_id } = sold_book();
    let next = shop.address();
    shop.fund(&asset, &next, 100_000_000);
    assert_eq!(shop.transfer_token(token_id, &next, 8_000_000), Ok(()));
    assert!(shop.published(
        "transfer",
        (token_id, reader.clone(), next.clone(), 400_000i128, 200_000i128, 7_400_000i128)
            .into_val(&shop.env)
    ));
    assert_eq!(shop.balance(&asset, &creator), 9_750_000 + 400_000);
    assert_eq!(shop.balance(&asset, &platform), 250_000 + 200_000);
    assert_eq!(shop.balance(&asset, &reader), 90_000_000 + 7_400_000);
    assert_eq!(shop.balance(&asset, &next), 92_000_000);
    let token = shop.get_token(token_id).unwrap();
    assert_eq!(token.id, token_id);
    assert_eq!(token.book_id, book_id);
    assert_eq!(token.owner, next);
    assert_eq!(token.purchase_price, 8_000_000);
    // a resale is no sale of the book
    assert_eq!(shop.get_book(book_id).unwrap().total_sales, 1);
    assert_eq!(shop.get_total_tokens(), 1);
}

#[test]
fn gift_moves_no_money() {
    let Sold { shop, platform, asset, creator, reader, book_id, token_id } = sold_book();
    let friend = shop.address();
    assert_eq!(shop.transfer_token(token_id, &friend, 0), Ok(()));
    assert!(shop.published(
        "transfer",
        (token_id, reader.clone(), friend.clone(), 0i128, 0i128, 0i128).into_val(&shop.env)
    ));
    assert_eq!(shop.balance(&asset, &creator), 9_750_000);
    assert_eq!(shop.balance(&asset, &platform), 250_000);
    assert_eq!(shop.balance(&asset, &reader), 90_000_000);
    assert_eq!(shop.balance(&asset, &friend), 0);
    assert_eq!(shop.owns_book(&friend, book_id), true);
    assert_eq!(shop.owns_book(&reader, book_id), false);
    assert_eq!(shop.get_token(token_id).unwrap().purchase_price, 0);
    // and back again, at a price below nothing
    assert_eq!(shop.transfer_token(token_id, &reader, -5), Ok(()));
    assert_eq!(shop.owns_book(&reader, book_id), true);
    assert_eq!(shop.get_token(token_id).unwrap().purchase_price, -5);
    assert_eq!(shop.balance(&asset, &reader), 90_000_000);
}

#[test]
fn gift_needs_no_payment_token() {
    let Sold { shop, platform, reader, book_id, token_id, .. } = sold_book();
    let friend = shop.address();
    shop.set_payment_token(&platform, &shop.address()).unwrap();
    assert_eq!(shop.transfer_token(token_id, &friend, 1), Err(ContractError::PaymentRefused));
    assert_eq!(shop.owns_book(&reader, book_id), true);
    assert_eq!(shop.transfer_token(token_id, &friend, 0), Ok(()));
    assert_eq!(shop.owns_book(&friend, book_id), true);
}

#[test]
fn transfer_is_refused_to_an_owner() {
    let Sold { shop, asset, reader, book_id, token_id, .. } = sold_book();
    let second = shop.address();
    shop.fund(&asset, &second, 100_000_000);
    shop.purchase(&second, book_id).unwrap();
    assert_eq!(
        shop.transfer_token(token_id, &second, 0),
        Err(ContractError::RecipientAlreadyOwns)
    );
    assert_eq!(
        shop.transfer_token(token_id, &second, 8_000_000),
        Err(ContractError::RecipientAlreadyOwns)
    );
    // the owner is an owner, too
    assert_eq!(
        shop.transfer_token(token_id, &reader, 0),
        Err(ContractError::RecipientAlreadyOwns)
    );
    assert_eq!(shop.tokens_of(&reader), vec![token_id]);
    assert_eq!(shop.balance(&asset, &second), 90_000_000);
}

#[test]
fn transfer_needs_a_token() {
    let shop = Shop::new();
    let reader = shop.address();
    assert_eq!(shop.transfer_token(3, &reader, 0), Err(ContractError::TokenNotFound));
    assert_eq!(shop.get_token(3).unwrap_err(), ContractError::TokenNotFound);
    let direct = shop.run(|ledger| {
        KnowdlyBookContract::transfer_token(
            ledger,
            &signed_by(&[&reader]),
            3,
            reader.clone(),
            0,
        )
    });
    assert_eq!(direct, Err(ContractError::TokenNotFound));
}

#[test]
fn transfer_signers_are_owner_and_payer() {
    let Sold { shop, reader, token_id, .. } = sold_book();
    let next = shop.address();
    let signers = |price: i128| {
        shop.run(|ledger| {
            KnowdlyBookContract::transfer_signers(ledger, token_id, next.clone(), price)
        })
        .ok()
        .unwrap()
        .addresses
    };
    assert_eq!(signers(0), vec![reader.clone()]);
    assert_eq!(signers(-1), vec![reader.clone()]);
    assert_eq!(signers(1), vec![reader, next.clone()]);
}

#[test]
fn lists_keep_their_order_when_a_token_goes() {
    let shop = Shop::new();
    let platform = shop.address();
    let creator = shop.address();
    let reader = shop.address();
    let friend = shop.address();
    shop.initialise(&platform, 250).unwrap();
    let asset = shop.payment_asset(&platform);
    shop.fund(&asset, &reader, 1_000);
    shop.fund(&asset, &friend, 1_000);
    for title in ["a", "b", "c", "d"] {
        shop.register_book(&creator, 10, 0, "tx", title).unwrap();
    }
    for book_id in 0..3 {
        shop.purchase(&reader, book_id).unwrap();
    }
    shop.purchase(&friend, 3).unwrap();
    assert_eq!(shop.tokens_of(&reader), vec![0, 1, 2]);
    assert_eq!(shop.tokens_of(&friend), vec![3]);
    shop.transfer_token(1, &friend, 0).unwrap();
    assert_eq!(shop.tokens_of(&reader), vec![0, 2]);
    assert_eq!(shop.tokens_of(&friend), vec![3, 1]);
    shop.transfer_token(1, &reader, 0).unwrap();
    assert_eq!(shop.tokens_of(&reader), vec![0, 2, 1]);
    assert_eq!(shop.tokens_of(&friend), vec![3]);
    // every book is owned by who holds a token of it
    for (book_id, by_reader, by_friend) in
        [(0, true, false), (1, true, false), (2, true, false), (3, false, true)]
    {
        assert_eq!(shop.owns_book(&reader, book_id), by_reader);
        assert_eq!(shop.owns_book(&friend, book_id), by_friend);
    }
}

#[test]
fn gift_there_and_back_restores_the_holdings() {
    let Sold { shop, platform, asset, creator, reader, book_id, token_id } = sold_book();
    let friend = shop.address();
    shop.fund(&asset, &friend, 100_000_000);
    let other_book = shop.register_book(&creator, 10, 0, "tx", "Another").unwrap();
    let other_token = shop.purchase(&reader, other_book).unwrap();
    let third_book = shop.register_book(&creator, 10, 0, "tx", "Third").unwrap();
    let friends_token = shop.purchase(&friend, third_book).unwrap();
    let minted_at = shop.get_token(token_id).unwrap().minted_at;
    let balances = |who: [&Address; 4]| who.map(|a| shop.balance(&asset, a));
    let everybody = [&platform, &creator, &reader, &friend];
    let before = balances(everybody);
    assert_eq!(shop.tokens_of(&reader), vec![token_id, other_token]);

    assert_eq!(shop.transfer_token(token_id, &friend, 0), Ok(()));
    assert_eq!(shop.transfer_token(token_id, &reader, 0), Ok(()));

    assert_eq!(shop.owns_book(&reader, book_id), true);
    assert_eq!(shop.owns_book(&friend, book_id), false);
    assert_eq!(shop.owns_book(&reader, other_book), true);
    assert_eq!(shop.owns_book(&friend, third_book), true);
    assert_eq!(shop.tokens_of(&reader), vec![other_token, token_id]);
    assert_eq!(shop.tokens_of(&friend), vec![friends_token]);
    let token = shop.get_token(token_id).unwrap();
    assert_eq!(token.id, token_id);
    assert_eq!(token.book_id, book_id);
    assert_eq!(token.owner, reader);
    assert_eq!(token.minted_at, minted_at);
    assert_eq!(token.purchase_price, 0);
    assert_eq!(balances(everybody), before);
}

#[test]
fn giver_can_buy_again() {
    let Sold { shop, asset, reader, book_id, token_id, .. } = sold_book();
    let friend = shop.address();
    assert_eq!(shop.purchase(&reader, book_id), Err(ContractError::AlreadyOwned));
    shop.transfer_token(token_id, &friend, 0).unwrap();
    assert_eq!(shop.purchase(&reader, book_id), Ok(1));
    assert_eq!(shop.get_token(token_id).unwrap().owner, friend);
    assert_eq!(shop.owns_book(&friend, book_id), true);
    assert_eq!(shop.owns_book(&reader, book_id), true);
    assert_eq!(shop.tokens_of(&reader), vec![1]);
    assert_eq!(shop.get_book(book_id).unwrap().total_sales, 2);
    assert_eq!(shop.balance(&asset, &reader), 80_000_000);
}

// The marketplace.

#[test]
fn listing_reads_back_and_can_be_replaced() {
    let Sold { shop, reader, book_id, token_id, .. } = sold_book();
    assert_eq!(shop.list_for_sale(&reader, token_id, 8_000_000), Ok(()));
    assert!(shop.published(
        "listed",
        (token_id, reader.clone(), 8_000_000i128).into_val(&shop.env)
    ));
    assert_eq!(shop.list_for_sale(&reader, token_id, 9_000_000), Ok(()));
    let listing = shop.get_listing(token_id).unwrap();
    assert_eq!(listing.token_id, token_id);
    assert_eq!(listing.seller, reader);
    assert_eq!(listing.asking_price, 9_000_000);
    assert_eq!(shop.owns_book(&reader, book_id), true);
}

#[test]
fn only_the_owner_lists_at_a_positive_price() {
    let Sold { shop, creator, reader, token_id, .. } = sold_book();
    assert_eq!(
        shop.list_for_sale(&reader, token_id, 0),
        Err(ContractError::AskingPriceNotPositive)
    );
    assert_eq!(
        shop.list_for_sale(&reader, token_id, -8),
        Err(ContractError::AskingPriceNotPositive)
    );
    assert_eq!(shop.list_for_sale(&reader, 77, 8), Err(ContractError::TokenNotFound));
    assert_eq!(shop.list_for_sale(&creator, token_id, 8), Err(ContractError::NotTokenOwner));
    assert_eq!(shop.get_listing(token_id).unwrap_err(), ContractError::ListingNotFound);
}

#[test]
fn cancelling_undoes_listing() {
    let Sold { shop, creator, reader, token_id, .. } = sold_book();
    assert_eq!(shop.cancel_listing(&reader, token_id), Err(ContractError::ListingNotFound));
    shop.list_for_sale(&reader, token_id, 8_000_000).unwrap();
    assert_eq!(shop.cancel_listing(&creator, token_id), Err(ContractError::ListingByOther));
    assert_eq!(shop.cancel_listing(&reader, token_id), Ok(()));
    assert!(shop.published("unlisted", (token_id, reader.clone()).into_val(&shop.env)));
    assert_eq!(shop.get_listing(token_id).unwrap_err(), ContractError::ListingNotFound);
    assert_eq!(shop.buy_listing(&creator, token_id), Err(ContractError::ListingNotFound));
    assert_eq!(shop.get_token(token_id).unwrap().owner, reader);
}

#[test]
fn listing_is_sold_once() {
    let Sold { shop, platform, asset, creator, reader, book_id, token_id } = sold_book();
    let buyer = shop.address();
    let late = shop.address();
    shop.fund(&asset, &buyer, 100_000_000);
    shop.fund(&asset, &late, 100_000_000);
    shop.list_for_sale(&reader, token_id, 8_000_000).unwrap();
    assert_eq!(shop.buy_listing(&reader, token_id), Err(ContractError::OwnListing));
    assert_eq!(shop.buy_listing(&buyer, token_id), Ok(()));
    assert!(shop.published(
        "sold",
        (token_id, reader.clone(), buyer.clone(), 8_000_000i128).into_val(&shop.env)
    ));
    assert_eq!(shop.buy_listing(&late, token_id), Err(ContractError::ListingNotFound));
    assert_eq!(shop.balance(&asset, &late), 100_000_000);
    assert_eq!(shop.balance(&asset, &buyer), 92_000_000);
    assert_eq!(shop.balance(&asset, &creator), 9_750_000 + 400_000);
    assert_eq!(shop.balance(&asset, &platform), 250_000 + 200_000);
    assert_eq!(shop.balance(&asset, &reader), 90_000_000 + 7_400_000);
    let token = shop.get_token(token_id).unwrap();
    assert_eq!(token.owner, buyer);
    assert_eq!(token.book_id, book_id);
    assert_eq!(token.purchase_price, 8_000_000);
    // the buyer may list it in turn
    assert_eq!(shop.list_for_sale(&buyer, token_id, 1), Ok(()));
}

#[test]
fn transfer_voids_the_listing() {
    let Sold { shop, asset, reader, token_id, .. } = sold_book();
    let friend = shop.address();
    let buyer = shop.address();
    shop.fund(&asset, &buyer, 100_000_000);
    shop.list_for_sale(&reader, token_id, 8_000_000).unwrap();
    shop.transfer_token(token_id, &friend, 0).unwrap();
    assert_eq!(shop.get_listing(token_id).unwrap().seller, reader);
    assert_eq!(shop.buy_listing(&buyer, token_id), Err(ContractError::ListingOutdated));
    assert_eq!(shop.balance(&asset, &buyer), 100_000_000);
    // it counts again when the token is back with its seller
    shop.transfer_token(token_id, &reader, 0).unwrap();
    assert_eq!(shop.buy_listing(&buyer, token_id), Ok(()));
}

#[test]
fn second_copy_is_refused_on_the_marketplace() {
    let Sold { shop, asset, reader, book_id, token_id, .. } = sold_book();
    let second = shop.address();
    shop.fund(&asset, &second, 100_000_000);
    shop.purchase(&second, book_id).unwrap();
    shop.list_for_sale(&reader, token_id, 8_000_000).unwrap();
    assert_eq!(shop.buy_listing(&second, token_id), Err(ContractError::AlreadyOwned));
    assert_eq!(shop.balance(&asset, &second), 90_000_000);
    assert_eq!(shop.tokens_of(&second), vec![1]);
    assert_eq!(shop.get_listing(token_id).unwrap().asking_price, 8_000_000);
}

#[test]
fn unfunded_buyer_gets_nothing() {
    let Sold { shop, reader, book_id, token_id, .. } = sold_book();
    let pauper = shop.address();
    shop.list_for_sale(&reader, token_id, 8_000_000).unwrap();
    assert_eq!(shop.buy_listing(&pauper, token_id), Err(ContractError::PaymentRefused));
    assert!(shop.published_nothing());
    assert_eq!(shop.owns_book(&pauper, book_id), false);
    assert_eq!(shop.owns_book(&reader, book_id), true);
    assert_eq!(shop.get_listing(token_id).unwrap().seller, reader);
}

#[test]
fn handover_is_concluded_only_if_paid() {
    let Sold { shop, reader, book_id, token_id, .. } = sold_book();
    let next = shop.address();
    let order = |receiver: &Address, price: i128| {
        let token = shop.get_token(token_id).unwrap();
        HandoverOrder { token_id, token, new_owner: receiver.clone(), price }
    };
    let transfer = |order: HandoverOrder, paid: bool| {
        shop.run(|ledger| {
            KnowdlyBookContract::conclude_transfer(ledger, order, (7, 8, 9), paid)
        })
    };
    let refused = Err(ContractError::PaymentRefused);
    assert_eq!(transfer(order(&next, 24), false), refused);
    assert!(shop.published_nothing());
    assert_eq!(shop.owns_book(&reader, book_id), true);
    assert_eq!(transfer(order(&next, 24), true), Ok(()));
    assert!(shop.published(
        "transfer",
        (token_id, reader.clone(), next.clone(), 7i128, 8i128, 9i128).into_val(&shop.env)
    ));
    assert_eq!(shop.owns_book(&reader, book_id), false);
    assert_eq!(shop.owns_book(&next, book_id), true);
    assert_eq!(shop.tokens_of(&next), vec![token_id]);
    assert_eq!(shop.get_token(token_id).unwrap().purchase_price, 24);

    shop.list_for_sale(&next, token_id, 30).unwrap();
    let sell = |order: HandoverOrder, paid: bool| {
        shop.run(|ledger| KnowdlyBookContract::conclude_listing_sale(ledger, order, paid))
    };
    assert_eq!(sell(order(&reader, 30), false), refused);
    assert_eq!(shop.get_listing(token_id).unwrap().asking_price, 30);
    assert_eq!(sell(order(&reader, 30), true), Ok(()));
    assert!(shop.published(
        "sold",
        (token_id, next.clone(), reader.clone(), 30i128).into_val(&shop.env)
    ));
    assert_eq!(shop.get_listing(token_id).unwrap_err(), ContractError::ListingNotFound);
    assert_eq!(shop.owns_book(&reader, book_id), true);
    assert_eq!(shop.tokens_of(&next), Vec::<u64>::new());
}

#[test]
fn records_agree_after_much_trade() {
    let shop = Shop::new();
    let platform = shop.address();
    let creator = shop.address();
    let readers = [shop.address(), shop.address(), shop.address()];
    shop.initialise(&platform, 250).unwrap();
    let asset = shop.payment_asset(&platform);
    for reader in readers.iter() {
        shop.fund(&asset, reader, 1_000_000);
    }
    for title in ["a", "b", "c"] {
        shop.register_book(&creator, 1_000, 500, "tx", title).unwrap();
    }
    for (reader, book_id) in [(0, 0), (0, 1), (1, 0), (1, 2), (2, 2), (0, 0), (2, 0)] {
        let _ = shop.purchase(&readers[reader], book_id);
    }
    for (token_id, receiver, price) in [(0, 1, 0), (1, 2, 500), (3, 0, 0), (4, 0, 10), (9, 0, 0)] {
        let _ = shop.transfer_token(token_id, &readers[receiver], price);
    }
    for (seller, token_id) in [(0, 0), (0, 3), (1, 2), (2, 1), (2, 4)] {
        let _ = shop.list_for_sale(&readers[seller], token_id, 2_000);
    }
    for (buyer, token_id) in [(1, 0), (1, 1), (2, 3), (2, 2), (0, 4)] {
        let _ = shop.buy_listing(&readers[buyer], token_id);
    }
    shop.deactivate_book(&creator, 2).unwrap();

    let total = shop.get_total_tokens();
    assert_eq!(total, 6);
    let mut sales = [0u64; 3];
    for token_id in 0..total {
        let token = shop.get_token(token_id).unwrap();
        assert_eq!(token.id, token_id);
        sales[token.book_id as usize] += 1;
        for reader in readers.iter() {
            let listed = shop.tokens_of(reader);
            let times = listed.iter().filter(|id| **id == token_id).count();
            assert_eq!(times, if token.owner == *reader { 1 } else { 0 });
        }
    }
    for book_id in 0..3u64 {
        assert_eq!(shop.get_book(book_id).unwrap().total_sales, sales[book_id as usize]);
        for reader in readers.iter() {
            let copies = (0..total)
                .map(|id| shop.get_token(id).unwrap())
                .filter(|token| token.book_id == book_id && token.owner == *reader)
                .count();
            assert!(copies <= 1);
            assert_eq!(shop.owns_book(reader, book_id), copies == 1);
        }
    }
    // no money is made or lost
    let mut held = shop.balance(&asset, &platform) + shop.balance(&asset, &creator);
    for reader in readers.iter() {
        held += shop.balance(&asset, reader);
    }
    assert_eq!(held, 3_000_000);
}
