//! The requests that the contract answers.
//!
//! A request comes with the addresses that have signed it. One that is refused
//! leaves the ledger as it was, but for one case: where a token contract refuses
//! a payment, the payments granted before it are on record, and the invocation
//! has to be undone as a whole.

use soroban_sdk::{Address, BytesN};
use vstd::prelude::*;

use crate::host::{id_list_items, same_address, Datum, LedgerState};
use crate::ledger::{group_ledger_entries, Ledger};
use crate::rules::{ids_without, MAX_FEE_BPS, MAX_ROYALTY_BPS};
use crate::settlement::{sale_terms, settle_sale, settles, SaleTerms};
use crate::types::{Book, ContractError, DataKey, Event, Listing, Signers, Token};

verus! {

/// The contract.
pub struct KnowdlyBookContract;

/// A first sale that awaits its payment.
pub struct PurchaseOrder {
    pub buyer: Address,
    pub book_id: u64,
    /// The book as it is on sale.
    pub book: Book,
    /// The id that the buyer's token will get.
    pub token_id: u64,
    pub terms: SaleTerms,
}

impl PurchaseOrder {
    /// The order is that of `buyer` for `book_id`, placed with this ledger.
    pub open spec fn describes(self, state: LedgerState, buyer: Address, book_id: u64) -> bool {
        let publisher = self.book.publisher;
        &&& self.buyer == buyer
        &&& self.book_id == book_id
        &&& state.book(book_id) == Ok::<Book, ContractError>(self.book)
        &&& state.next_token_id() == Ok::<u64, ContractError>(self.token_id)
        &&& state.sale_terms(publisher, publisher, self.book.price, 0) == Ok::<
            SaleTerms,
            ContractError,
        >(self.terms)
    }

    /// Why there is no room for the token.
    pub open spec fn obstacle(self, state: LedgerState) -> Option<ContractError> {
        state.minting_refusal(self.buyer, self.token_id, self.book)
    }

    /// The ledger once the order is carried out.
    pub open spec fn carried_out(self, state: LedgerState) -> LedgerState {
        state.with_token(
            self.token_id,
            Token {
                id: self.token_id,
                book_id: self.book_id,
                owner: self.buyer,
                minted_at: state.sequence,
                purchase_price: self.book.price,
            },
        ).with_ownership(self.buyer, self.book_id, true).with_listed_token(
            self.buyer,
            self.token_id,
        ).with_entry(DataKey::NextTokenId, Datum::U64((self.token_id + 1) as u64)).with_book(
            self.book_id,
            Book { total_sales: (self.book.total_sales + 1) as u64, ..self.book },
        ).with_event(
            Event::Purchased {
                token_id: self.token_id,
                book_id: self.book_id,
                buyer: self.buyer,
            },
        )
    }
}

/// A change of owner that awaits its payment.
pub struct HandoverOrder {
    pub token_id: u64,
    /// The token as its old owner holds it.
    pub token: Token,
    pub new_owner: Address,
    pub price: i128,
}

impl HandoverOrder {
    /// The order is to hand `token_id` over to `new_owner` at `price`, placed
    /// with this ledger.
    pub open spec fn describes(
        self,
        state: LedgerState,
        token_id: u64,
        new_owner: Address,
        price: i128,
    ) -> bool {
        &&& self.token_id == token_id
        &&& state.token(token_id) == Ok::<Token, ContractError>(self.token)
        &&& self.new_owner == new_owner
        &&& self.price == price
    }

    /// Why the lists of tokens cannot follow.
    pub open spec fn obstacle(self, state: LedgerState) -> Option<ContractError> {
        state.handover_refusal(self.token.owner, self.token_id, self.new_owner)
    }

    /// The ledger once the order is carried out.
    pub open spec fn carried_out(self, state: LedgerState) -> LedgerState {
        state.handed_over(self.token_id, self.token, self.new_owner, self.price)
    }
}

/// `ids` without `id`.
fn drop_id(ids: &Vec<u64>, id: u64) -> (kept: Vec<u64>)
    ensures
        kept@ == ids_without(ids@, id),
        kept@.len() <= ids@.len(),
{
    let mut kept: Vec<u64> = Vec::new();
    let mut i: usize = 0;
    proof {
        reveal(Seq::filter);
        assert(ids@.take(0) =~= Seq::<u64>::empty());
    }
    while i < ids.len()
        invariant
            i <= ids@.len(),
            kept@.len() <= i,
            kept@ == ids_without(ids@.take(i as int), id),
        decreases ids@.len() - i,
    {
        proof {
            reveal(Seq::filter);
            assert(ids@.take(i + 1).drop_last() =~= ids@.take(i as int));
        }
        if ids[i] != id {
            kept.push(ids[i]);
        }
        i = i + 1;
    }
    proof {
        assert(ids@.take(i as int) =~= ids@);
    }
    kept
}

// Administration.

impl KnowdlyBookContract {
    fn check_platform(
        ledger: &Ledger,
        signers: &Signers,
        platform: &Address,
        other: ContractError,
    ) -> (checked: Result<(), ContractError>)
        ensures
            match ledger@.platform_refusal(signers@, *platform, other) {
                Some(e) => checked == Err::<(), ContractError>(e),
                None => checked is Ok,
            },
    {
        if !signers.contains(platform) {
            return Err(ContractError::NotAuthorized);
        }
        let stored_platform = ledger.platform()?;
        if !same_address(&stored_platform, platform) {
            return Err(other);
        }
        Ok(())
    }

    /// Lets the platform, and nobody else, give the contract new code. The code
    /// to run from now on is what is returned; every record stays as it is.
    pub fn upgrade(
        ledger: &Ledger,
        signers: &Signers,
        platform: Address,
        new_wasm_hash: BytesN<32>,
    ) -> (code: Result<BytesN<32>, ContractError>)
        ensures
            match ledger@.platform_refusal(signers@, platform, ContractError::UpgradeByOther) {
                Some(e) => code == Err::<BytesN<32>, ContractError>(e),
                None => code == Ok::<BytesN<32>, ContractError>(new_wasm_hash),
            },
    {
        Self::check_platform(ledger, signers, &platform, ContractError::UpgradeByOther)?;
        Ok(new_wasm_hash)
    }

    /// Sets the platform and its fee, once.
    pub fn initialise(
        ledger: &mut Ledger,
        signers: &Signers,
        platform: Address,
        fee_bps: u32,
    ) -> (granted: Result<(), ContractError>)
        ensures
            match old(ledger)@.initialise_refusal(signers@, platform, fee_bps) {
                Some(e) => granted == Err::<(), ContractError>(e) && final(ledger)@ == old(ledger)@,
                None => granted is Ok && final(ledger)@ == old(ledger)@.initialised(
                    platform,
                    fee_bps,
                ),
            },
    {
        if !signers.contains(&platform) {
            return Err(ContractError::NotAuthorized);
        }
        if ledger.has_platform() {
            return Err(ContractError::AlreadyInitialised);
        }
        if fee_bps > MAX_FEE_BPS {
            return Err(ContractError::PlatformFeeTooHigh);
        }
        ledger.set_platform(&platform);
        ledger.set_fee_bps(fee_bps);
        ledger.set_next_book_id(0);
        ledger.set_next_token_id(0);
        Ok(())
    }

    /// Sets the asset that every sale settles in.
    pub fn set_payment_token(
        ledger: &mut Ledger,
        signers: &Signers,
        platform: Address,
        payment_token: Address,
    ) -> (granted: Result<(), ContractError>)
        ensures
            match old(ledger)@.platform_refusal(
                signers@,
                platform,
                ContractError::PaymentTokenByOther,
            ) {
                Some(e) => granted == Err::<(), ContractError>(e) && final(ledger)@ == old(ledger)@,
                None => granted is Ok && final(ledger)@ == old(ledger)@.with_entry(
                    DataKey::PaymentToken,
                    Datum::Account(payment_token),
                ),
            },
    {
        Self::check_platform(ledger, signers, &platform, ContractError::PaymentTokenByOther)?;
        ledger.set_payment_token(&payment_token);
        Ok(())
    }

    pub fn get_payment_token(ledger: &Ledger) -> (payment_token: Result<Address, ContractError>)
        ensures
            payment_token == ledger@.payment_token(),
    {
        ledger.payment_token()
    }
}

// Books.

impl KnowdlyBookContract {
    /// Registers a book and returns its id.
    pub fn register_book(
        ledger: &mut Ledger,
        signers: &Signers,
        publisher: Address,
        price: i128,
        royalty_bps: u32,
        arweave_tx_id: soroban_sdk::String,
        title: soroban_sdk::String,
    ) -> (book_id: Result<u64, ContractError>)
        ensures
            match old(ledger)@.register_refusal(signers@, publisher, price, royalty_bps) {
                Some(e) => book_id == Err::<u64, ContractError>(e) && final(ledger)@
                    == old(ledger)@,
                None => book_id == old(ledger)@.next_book_id() && final(ledger)@
                    == old(ledger)@.registered(
                    publisher,
                    price,
                    royalty_bps,
                    arweave_tx_id,
                    title,
                ),
            },
    {
        if !signers.contains(&publisher) {
            return Err(ContractError::NotAuthorized);
        }
        if price <= 0 {
            return Err(ContractError::PriceNotPositive);
        }
        if royalty_bps > MAX_ROYALTY_BPS {
            return Err(ContractError::RoyaltyTooHigh);
        }
        let book_id: u64 = ledger.next_book_id()?;
        if book_id == u64::MAX {
            return Err(ContractError::CapacityExceeded);
        }
        let book = Book {
            id: book_id,
            publisher: publisher.clone(),
            price,
            royalty_bps,
            arweave_tx_id,
            title,
            active: true,
            total_sales: 0,
        };
        ledger.set_book(book_id, &book);
        ledger.set_next_book_id(book_id + 1);
        ledger.announce(&Event::BookRegistered { book_id, publisher });
        Ok(book_id)
    }

    fn book_of_creator(
        ledger: &Ledger,
        signers: &Signers,
        publisher: &Address,
        book_id: u64,
        other: ContractError,
    ) -> (book: Result<Book, ContractError>)
        ensures
            match ledger@.creator_refusal(signers@, *publisher, book_id, other) {
                Some(e) => book == Err::<Book, ContractError>(e),
                None => book is Ok && book == ledger@.book(book_id),
            },
    {
        if !signers.contains(publisher) {
            return Err(ContractError::NotAuthorized);
        }
        let book = ledger.book(book_id)?;
        if !same_address(&book.publisher, publisher) {
            return Err(other);
        }
        Ok(book)
    }

    /// Lets a book's creator record where its content lies.
    pub fn update_arweave_tx(
        ledger: &mut Ledger,
        signers: &Signers,
        publisher: Address,
        book_id: u64,
        arweave_tx_id: soroban_sdk::String,
    ) -> (granted: Result<(), ContractError>)
        ensures
            match old(ledger)@.creator_refusal(
                signers@,
                publisher,
                book_id,
                ContractError::UpdateByOther,
            ) {
                Some(e) => granted == Err::<(), ContractError>(e) && final(ledger)@ == old(ledger)@,
                None => granted is Ok && final(ledger)@ == old(ledger)@.arweave_tx_updated(
                    book_id,
                    arweave_tx_id,
                ),
            },
    {
        let mut book = Self::book_of_creator(
            ledger,
            signers,
            &publisher,
            book_id,
            ContractError::UpdateByOther,
        )?;
        book.arweave_tx_id = arweave_tx_id;
        ledger.set_book(book_id, &book);
        ledger.announce(&Event::ArweaveTxUpdated { book_id });
        Ok(())
    }

    /// Lets a book's creator take it off first sale.
    pub fn deactivate_book(
        ledger: &mut Ledger,
        signers: &Signers,
        publisher: Address,
        book_id: u64,
    ) -> (granted: Result<(), ContractError>)
        ensures
            match old(ledger)@.creator_refusal(
                signers@,
                publisher,
                book_id,
                ContractError::DeactivationByOther,
            ) {
                Some(e) => granted == Err::<(), ContractError>(e) && final(ledger)@ == old(ledger)@,
                None => granted is Ok && final(ledger)@ == old(ledger)@.deactivated(book_id),
            },
    {
        let mut book = Self::book_of_creator(
            ledger,
            signers,
            &publisher,
            book_id,
            ContractError::DeactivationByOther,
        )?;
        book.active = false;
        ledger.set_book(book_id, &book);
        Ok(())
    }
}

// Purchases.

impl KnowdlyBookContract {
    /// Places an order for a book: everything is checked, nothing is paid.
    pub fn order_purchase(
        ledger: &Ledger,
        signers: &Signers,
        buyer: &Address,
        book_id: u64,
    ) -> (order: Result<PurchaseOrder, ContractError>)
        ensures
            match order {
                Ok(order) => ledger@.purchase_refusal(signers@, *buyer, book_id) is None
                    && order.describes(ledger@, *buyer, book_id),
                Err(e) => ledger@.purchase_refusal(signers@, *buyer, book_id) == Some(e),
            },
    {
        if !signers.contains(buyer) {
            return Err(ContractError::NotAuthorized);
        }
        let book = ledger.book(book_id)?;
        if !book.active {
            return Err(ContractError::BookNotAvailable);
        }
        if ledger.owns(buyer, book_id)? {
            return Err(ContractError::AlreadyOwned);
        }
        let terms = sale_terms(ledger, &book.publisher, &book.publisher, book.price, 0)?;
        let token_id: u64 = ledger.next_token_id()?;
        let order = PurchaseOrder { buyer: buyer.clone(), book_id, book, token_id, terms };
        Self::check_room(ledger, &order)?;
        Ok(order)
    }

    fn check_room(ledger: &Ledger, order: &PurchaseOrder) -> (checked: Result<(), ContractError>)
        ensures
            match order.obstacle(ledger@) {
                Some(e) => checked == Err::<(), ContractError>(e),
                None => checked is Ok,
            },
    {
        let len: u32 = ledger.owner_list_len(&order.buyer)?;
        if order.token_id == u64::MAX || order.book.total_sales == u64::MAX || len == u32::MAX {
            return Err(ContractError::CapacityExceeded);
        }
        Ok(())
    }

    /// Carries an order out, if it was paid and there is room.
    pub fn conclude_purchase(ledger: &mut Ledger, order: PurchaseOrder, paid: bool) -> (token_id:
        Result<u64, ContractError>)
        ensures
            if !paid {
                token_id == Err::<u64, ContractError>(ContractError::PaymentRefused)
                    && final(ledger)@ == old(ledger)@
            } else {
                match order.obstacle(old(ledger)@) {
                    Some(e) => token_id == Err::<u64, ContractError>(e) && final(ledger)@
                        == old(ledger)@,
                    None => token_id == Ok::<u64, ContractError>(order.token_id) && final(ledger)@
                        == order.carried_out(old(ledger)@),
                }
            },
    {
        broadcast use group_ledger_entries;

        if !paid {
            return Err(ContractError::PaymentRefused);
        }
        Self::check_room(ledger, &order)?;
        let PurchaseOrder { buyer, book_id, book, token_id, terms: _ } = order;
        let mut book = book;
        let token = Token {
            id: token_id,
            book_id,
            owner: buyer.clone(),
            minted_at: ledger.sequence(),
            purchase_price: book.price,
        };
        ledger.set_token(token_id, &token);
        ledger.set_ownership(&buyer, book_id, true);
        ledger.list_token(&buyer, token_id);
        ledger.set_next_token_id(token_id + 1);
        book.total_sales = book.total_sales + 1;
        ledger.set_book(book_id, &book);
        ledger.announce(&Event::Purchased { token_id, book_id, buyer });
        Ok(token_id)
    }

    /// Sells a book to a reader, who gets a token of it.
    pub fn purchase(
        ledger: &mut Ledger,
        signers: &Signers,
        buyer: Address,
        book_id: u64,
    ) -> (token_id: Result<u64, ContractError>)
        ensures
            match old(ledger)@.purchase_refusal(signers@, buyer, book_id) {
                Some(e) => token_id == Err::<u64, ContractError>(e) && final(ledger)@
                    == old(ledger)@,
                None => {
                    let payments = old(ledger)@.purchase_payments(buyer, book_id);
                    match token_id {
                        Ok(id) => old(ledger)@.next_token_id() == token_id && final(ledger)@
                            == old(ledger)@.with_payments(payments).purchased(buyer, book_id),
                        Err(e) => e == ContractError::PaymentRefused && settles(
                            old(ledger)@,
                            payments,
                            final(ledger)@,
                            false,
                        ),
                    }
                },
            },
    {
        let order = Self::order_purchase(ledger, signers, &buyer, book_id)?;
        let paid = settle_sale(ledger, &buyer, &order.terms);
        Self::conclude_purchase(ledger, order, paid)
    }
}

// Resales and gifts.

impl KnowdlyBookContract {
    fn check_lists(ledger: &Ledger, order: &HandoverOrder) -> (checked: Result<(), ContractError>)
        ensures
            match order.obstacle(ledger@) {
                Some(e) => checked == Err::<(), ContractError>(e),
                None => checked is Ok,
            },
    {
        let old_tokens = ledger.owner_tokens(&order.token.owner)?;
        let full = if same_address(&order.new_owner, &order.token.owner) {
            drop_id(&old_tokens, order.token_id).len() >= u32::MAX as usize
        } else {
            ledger.owner_list_len(&order.new_owner)? == u32::MAX
        };
        if full {
            return Err(ContractError::CapacityExceeded);
        }
        Ok(())
    }

    /// Places an order to hand a token over.
    fn order_handover(
        ledger: &Ledger,
        token_id: u64,
        token: Token,
        new_owner: &Address,
        price: i128,
    ) -> (order: Result<HandoverOrder, ContractError>)
        requires
            ledger@.token(token_id) == Ok::<Token, ContractError>(token),
        ensures
            match order {
                Ok(order) => ledger@.handover_refusal(token.owner, token_id, *new_owner) is None
                    && order.describes(ledger@, token_id, *new_owner, price),
                Err(e) => ledger@.handover_refusal(token.owner, token_id, *new_owner) == Some(e),
            },
    {
        let order = HandoverOrder { token_id, token, new_owner: new_owner.clone(), price };
        Self::check_lists(ledger, &order)?;
        Ok(order)
    }

    fn hand_over(ledger: &mut Ledger, order: &HandoverOrder) -> (done: Result<(), ContractError>)
        ensures
            match order.obstacle(old(ledger)@) {
                Some(e) => done == Err::<(), ContractError>(e) && final(ledger)@ == old(ledger)@,
                None => done is Ok && final(ledger)@ == order.carried_out(old(ledger)@),
            },
    {
        broadcast use group_ledger_entries;

        Self::check_lists(ledger, order)?;
        let old_tokens = ledger.owner_tokens(&order.token.owner)?;
        let kept = drop_id(&old_tokens, order.token_id);
        ledger.set_ownership(&order.token.owner, order.token.book_id, false);
        ledger.set_ownership(&order.new_owner, order.token.book_id, true);
        ledger.set_owner_tokens(&order.token.owner, &kept);
        ledger.list_token(&order.new_owner, order.token_id);
        let token = Token {
            id: order.token.id,
            book_id: order.token.book_id,
            owner: order.new_owner.clone(),
            minted_at: order.token.minted_at,
            purchase_price: order.price,
        };
        ledger.set_token(order.token_id, &token);
        Ok(())
    }

    /// Who has to sign a direct transfer: the owner, and for a priced one the
    /// new owner too, who pays.
    pub fn transfer_signers(
        ledger: &Ledger,
        token_id: u64,
        new_owner: Address,
        sale_price: i128,
    ) -> (signers: Result<Signers, ContractError>)
        ensures
            match ledger@.token(token_id) {
                Ok(token) => signers is Ok && signers->Ok_0@ == if sale_price > 0 {
                    seq![token.owner, new_owner]
                } else {
                    seq![token.owner]
                },
                Err(e) => signers == Err::<Signers, ContractError>(e),
            },
    {
        let token = ledger.token(token_id)?;
        let mut addresses: Vec<Address> = Vec::new();
        addresses.push(token.owner);
        if sale_price > 0 {
            addresses.push(new_owner);
        }
        let signers = Signers::new(addresses);
        assert(signers@ =~= if sale_price > 0 {
            seq![token.owner, new_owner]
        } else {
            seq![token.owner]
        });
        Ok(signers)
    }

    /// Carries a direct transfer out, if it was paid and the lists can follow.
    /// `amounts` are those of the royalty, the platform and the seller.
    pub fn conclude_transfer(
        ledger: &mut Ledger,
        order: HandoverOrder,
        amounts: (i128, i128, i128),
        paid: bool,
    ) -> (granted: Result<(), ContractError>)
        ensures
            if !paid {
                granted == Err::<(), ContractError>(ContractError::PaymentRefused)
                    && final(ledger)@ == old(ledger)@
            } else {
                match order.obstacle(old(ledger)@) {
                    Some(e) => granted == Err::<(), ContractError>(e) && final(ledger)@
                        == old(ledger)@,
                    None => granted is Ok && final(ledger)@ == order.carried_out(
                        old(ledger)@,
                    ).with_event(
                        Event::Transferred {
                            token_id: order.token_id,
                            old_owner: order.token.owner,
                            new_owner: order.new_owner,
                            royalty_amount: amounts.0,
                            platform_amount: amounts.1,
                            seller_amount: amounts.2,
                        },
                    ),
                }
            },
    {
        if !paid {
            return Err(ContractError::PaymentRefused);
        }
        Self::hand_over(ledger, &order)?;
        ledger.announce(
            &Event::Transferred {
                token_id: order.token_id,
                old_owner: order.token.owner,
                new_owner: order.new_owner,
                royalty_amount: amounts.0,
                platform_amount: amounts.1,
                seller_amount: amounts.2,
            },
        );
        Ok(())
    }

    /// Hands a token over directly. A price that is not positive makes it a gift,
    /// which moves no money and pays no royalty.
    pub fn transfer_token(
        ledger: &mut Ledger,
        signers: &Signers,
        token_id: u64,
        new_owner: Address,
        sale_price: i128,
    ) -> (granted: Result<(), ContractError>)
        ensures
            match old(ledger)@.transfer_refusal(signers@, token_id, new_owner, sale_price) {
                Some(e) => granted == Err::<(), ContractError>(e) && final(ledger)@ == old(ledger)@,
                None => {
                    let payments = old(ledger)@.transfer_payments(
                        token_id,
                        new_owner,
                        sale_price,
                    );
                    match granted {
                        Ok(_) => final(ledger)@ == old(ledger)@.with_payments(
                            payments,
                        ).transferred(token_id, new_owner, sale_price),
                        Err(e) => e == ContractError::PaymentRefused && settles(
                            old(ledger)@,
                            payments,
                            final(ledger)@,
                            false,
                        ),
                    }
                },
            },
    {
        let token = ledger.token(token_id)?;
        if !signers.contains(&token.owner) {
            return Err(ContractError::NotAuthorized);
        }
        let book = ledger.book(token.book_id)?;
        if ledger.owns(&new_owner, token.book_id)? {
            return Err(ContractError::RecipientAlreadyOwns);
        }
        if sale_price > 0 {
            if !signers.contains(&new_owner) {
                return Err(ContractError::NotAuthorized);
            }
            let terms = sale_terms(
                ledger,
                &token.owner,
                &book.publisher,
                sale_price,
                book.royalty_bps,
            )?;
            let order = Self::order_handover(ledger, token_id, token, &new_owner, sale_price)?;
            let paid = settle_sale(ledger, &new_owner, &terms);
            let amounts = (terms.royalty_amount, terms.platform_amount, terms.seller_amount);
            Self::conclude_transfer(ledger, order, amounts, paid)
        } else {
            let order = Self::order_handover(ledger, token_id, token, &new_owner, sale_price)?;
            assert(ledger@.with_payments(Seq::empty()) =~= ledger@);
            Self::conclude_transfer(ledger, order, (0, 0, 0), true)
        }
    }
}

// The marketplace.

impl KnowdlyBookContract {
    /// Puts a token up for resale.
    pub fn list_for_sale(
        ledger: &mut Ledger,
        signers: &Signers,
        seller: Address,
        token_id: u64,
        asking_price: i128,
    ) -> (granted: Result<(), ContractError>)
        ensures
            match old(ledger)@.list_refusal(signers@, seller, token_id, asking_price) {
                Some(e) => granted == Err::<(), ContractError>(e) && final(ledger)@ == old(ledger)@,
                None => granted is Ok && final(ledger)@ == old(ledger)@.listed(
                    seller,
                    token_id,
                    asking_price,
                ),
            },
    {
        if !signers.contains(&seller) {
            return Err(ContractError::NotAuthorized);
        }
        if asking_price <= 0 {
            return Err(ContractError::AskingPriceNotPositive);
        }
        let token = ledger.token(token_id)?;
        if !same_address(&token.owner, &seller) {
            return Err(ContractError::NotTokenOwner);
        }
        let listing = Listing { token_id, seller: seller.clone(), asking_price };
        ledger.set_listing(token_id, &listing);
        ledger.announce(&Event::Listed { token_id, seller, asking_price });
        Ok(())
    }

    /// Takes a listing back.
    pub fn cancel_listing(
        ledger: &mut Ledger,
        signers: &Signers,
        seller: Address,
        token_id: u64,
    ) -> (granted: Result<(), ContractError>)
        ensures
            match old(ledger)@.cancel_refusal(signers@, seller, token_id) {
                Some(e) => granted == Err::<(), ContractError>(e) && final(ledger)@ == old(ledger)@,
                None => granted is Ok && final(ledger)@ == old(ledger)@.unlisted(seller, token_id),
            },
    {
        if !signers.contains(&seller) {
            return Err(ContractError::NotAuthorized);
        }
        let listing = ledger.listing(token_id)?;
        if !same_address(&listing.seller, &seller) {
            return Err(ContractError::ListingByOther);
        }
        ledger.remove_listing(token_id);
        ledger.announce(&Event::Unlisted { token_id, seller });
        Ok(())
    }

    /// Carries the sale of a listed token out, if it was paid and the lists can follow.
    pub fn conclude_listing_sale(ledger: &mut Ledger, order: HandoverOrder, paid: bool) -> (granted:
        Result<(), ContractError>)
        ensures
            if !paid {
                granted == Err::<(), ContractError>(ContractError::PaymentRefused)
                    && final(ledger)@ == old(ledger)@
            } else {
                match order.obstacle(old(ledger)@) {
                    Some(e) => granted == Err::<(), ContractError>(e) && final(ledger)@
                        == old(ledger)@,
                    None => granted is Ok && final(ledger)@ == order.carried_out(
                        old(ledger)@,
                    ).without_entry(DataKey::Listing(order.token_id)).with_event(
                        Event::Sold {
                            token_id: order.token_id,
                            old_owner: order.token.owner,
                            buyer: order.new_owner,
                            asking_price: order.price,
                        },
                    ),
                }
            },
    {
        if !paid {
            return Err(ContractError::PaymentRefused);
        }
        Self::hand_over(ledger, &order)?;
        ledger.remove_listing(order.token_id);
        ledger.announce(
            &Event::Sold {
                token_id: order.token_id,
                old_owner: order.token.owner,
                buyer: order.new_owner,
                asking_price: order.price,
            },
        );
        Ok(())
    }

    /// Buys a listed token at its asking price. The seller signed the listing and
    /// need not sign again; what the buyer signs is the payment.
    pub fn buy_listing(
        ledger: &mut Ledger,
        signers: &Signers,
        buyer: Address,
        token_id: u64,
    ) -> (granted: Result<(), ContractError>)
        ensures
            match old(ledger)@.buy_refusal(signers@, buyer, token_id) {
                Some(e) => granted == Err::<(), ContractError>(e) && final(ledger)@ == old(ledger)@,
                None => {
                    let payments = old(ledger)@.buy_payments(buyer, token_id);
                    match granted {
                        Ok(_) => final(ledger)@ == old(ledger)@.with_payments(payments).bought(
                            buyer,
                            token_id,
                        ),
                        Err(e) => e == ContractError::PaymentRefused && settles(
                            old(ledger)@,
                            payments,
                            final(ledger)@,
                            false,
                        ),
                    }
                },
            },
    {
        if !signers.contains(&buyer) {
            return Err(ContractError::NotAuthorized);
        }
        let listing = ledger.listing(token_id)?;
        if same_address(&listing.seller, &buyer) {
            return Err(ContractError::OwnListing);
        }
        let token = ledger.token(token_id)?;
        if !same_address(&token.owner, &listing.seller) {
            return Err(ContractError::ListingOutdated);
        }
        if ledger.owns(&buyer, token.book_id)? {
            return Err(ContractError::AlreadyOwned);
        }
        let book = ledger.book(token.book_id)?;
        let terms = sale_terms(
            ledger,
            &listing.seller,
            &book.publisher,
            listing.asking_price,
            book.royalty_bps,
        )?;
        let order = Self::order_handover(ledger, token_id, token, &buyer, listing.asking_price)?;
        let paid = settle_sale(ledger, &buyer, &terms);
        Self::conclude_listing_sale(ledger, order, paid)
    }

    pub fn get_listing(ledger: &Ledger, token_id: u64) -> (listing: Result<Listing, ContractError>)
        ensures
            listing == ledger@.listing(token_id),
    {
        ledger.listing(token_id)
    }
}

// Reading.

impl KnowdlyBookContract {
    /// Whether an address owns a book, and may read it.
    pub fn owns_book(ledger: &Ledger, owner: Address, book_id: u64) -> (owns: Result<
        bool,
        ContractError,
    >)
        ensures
            owns == ledger@.owns(owner, book_id),
    {
        ledger.owns(&owner, book_id)
    }

    /// The tokens of an owner, oldest first. The list is handed out as it lies in
    /// storage.
    pub fn get_tokens_by_owner(ledger: &Ledger, owner: Address) -> (ids: Result<
        soroban_sdk::Vec<u64>,
        ContractError,
    >)
        ensures
            match ids {
                Ok(ids) => ledger@.owner_list(owner) == Ok::<Seq<Datum>, ContractError>(
                    id_list_items(ids),
                ),
                Err(e) => ledger@.owner_list(owner) == Err::<Seq<Datum>, ContractError>(e),
            },
    {
        ledger.owner_id_list(&owner)
    }

    pub fn get_book(ledger: &Ledger, book_id: u64) -> (book: Result<Book, ContractError>)
        ensures
            book == ledger@.book(book_id),
    {
        ledger.book(book_id)
    }

    pub fn get_token(ledger: &Ledger, token_id: u64) -> (token: Result<Token, ContractError>)
        ensures
            token == ledger@.token(token_id),
    {
        ledger.token(token_id)
    }

    /// The number of books registered.
    pub fn get_total_books(ledger: &Ledger) -> (total: Result<u64, ContractError>)
        ensures
            total == ledger@.next_book_id(),
    {
        ledger.next_book_id()
    }

    /// The number of tokens minted.
    pub fn get_total_tokens(ledger: &Ledger) -> (total: Result<u64, ContractError>)
        ensures
            total == ledger@.next_token_id(),
    {
        ledger.next_token_id()
    }
}

} // verus!
