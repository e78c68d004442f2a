//! The rules of the contract: for each request, why it is refused and what it
//! does to the ledger when it is granted.
//!
//! The reasons of a refusal are given in the order in which they count: the
//! first that applies is the one that the request is answered with.

use soroban_sdk::Address;
use vstd::prelude::*;

use crate::host::{Datum, LedgerState, Payment};
use crate::types::{Book, ContractError, DataKey, Event, Listing, Token};

verus! {

/// The highest share that the platform may ask of a sale, in basis points.
pub const MAX_FEE_BPS: u32 = 1000;

/// The highest royalty that a creator may ask of a resale, in basis points.
pub const MAX_ROYALTY_BPS: u32 = 5000;

/// `ids` without `id`, in the same order.
pub open spec fn ids_without(ids: Seq<u64>, id: u64) -> Seq<u64> {
    ids.filter(|other: u64| other != id)
}

// Administration.

impl LedgerState {
    /// Why an address may not act as the platform. `other` is the answer to an
    /// address that is not the platform's.
    pub open spec fn platform_refusal(
        self,
        signers: Seq<Address>,
        platform: Address,
        other: ContractError,
    ) -> Option<ContractError> {
        if !signers.contains(platform) {
            Some(ContractError::NotAuthorized)
        } else if self.platform() is Err {
            Some(self.platform()->Err_0)
        } else if self.platform()->Ok_0 != platform {
            Some(other)
        } else {
            None
        }
    }

    pub open spec fn initialise_refusal(
        self,
        signers: Seq<Address>,
        platform: Address,
        fee_bps: u32,
    ) -> Option<ContractError> {
        if !signers.contains(platform) {
            Some(ContractError::NotAuthorized)
        } else if self.entry(DataKey::Platform) is Some {
            Some(ContractError::AlreadyInitialised)
        } else if fee_bps > MAX_FEE_BPS {
            Some(ContractError::PlatformFeeTooHigh)
        } else {
            None
        }
    }

    pub open spec fn initialised(self, platform: Address, fee_bps: u32) -> LedgerState {
        self.with_entry(DataKey::Platform, Datum::Account(platform)).with_entry(
            DataKey::PlatformFeeBps,
            Datum::U32(fee_bps),
        ).with_entry(DataKey::NextBookId, Datum::U64(0)).with_entry(
            DataKey::NextTokenId,
            Datum::U64(0),
        )
    }
}

// Books.

impl LedgerState {
    pub open spec fn register_refusal(
        self,
        signers: Seq<Address>,
        publisher: Address,
        price: i128,
        royalty_bps: u32,
    ) -> Option<ContractError> {
        if !signers.contains(publisher) {
            Some(ContractError::NotAuthorized)
        } else if price <= 0 {
            Some(ContractError::PriceNotPositive)
        } else if royalty_bps > MAX_ROYALTY_BPS {
            Some(ContractError::RoyaltyTooHigh)
        } else if self.next_book_id() is Err {
            Some(self.next_book_id()->Err_0)
        } else if self.next_book_id()->Ok_0 == u64::MAX {
            Some(ContractError::CapacityExceeded)
        } else {
            None
        }
    }

    /// The book goes under the next free id.
    pub open spec fn registered(
        self,
        publisher: Address,
        price: i128,
        royalty_bps: u32,
        arweave_tx_id: soroban_sdk::String,
        title: soroban_sdk::String,
    ) -> LedgerState {
        let id = self.next_book_id()->Ok_0;
        self.with_book(
            id,
            Book {
                id,
                publisher,
                price,
                royalty_bps,
                arweave_tx_id,
                title,
                active: true,
                total_sales: 0,
            },
        ).with_entry(DataKey::NextBookId, Datum::U64((id + 1) as u64)).with_event(
            Event::BookRegistered { book_id: id, publisher },
        )
    }

    /// Why an address may not change a book. `other` is the answer to an address
    /// that is not its creator's.
    pub open spec fn creator_refusal(
        self,
        signers: Seq<Address>,
        publisher: Address,
        book_id: u64,
        other: ContractError,
    ) -> Option<ContractError> {
        if !signers.contains(publisher) {
            Some(ContractError::NotAuthorized)
        } else if self.book(book_id) is Err {
            Some(self.book(book_id)->Err_0)
        } else if self.book(book_id)->Ok_0.publisher != publisher {
            Some(other)
        } else {
            None
        }
    }

    pub open spec fn arweave_tx_updated(
        self,
        book_id: u64,
        arweave_tx_id: soroban_sdk::String,
    ) -> LedgerState {
        self.with_book(
            book_id,
            Book { arweave_tx_id, ..self.book(book_id)->Ok_0 },
        ).with_event(Event::ArweaveTxUpdated { book_id })
    }

    pub open spec fn deactivated(self, book_id: u64) -> LedgerState {
        self.with_book(book_id, Book { active: false, ..self.book(book_id)->Ok_0 })
    }
}

// Purchases.

impl LedgerState {
    pub open spec fn purchase_refusal(
        self,
        signers: Seq<Address>,
        buyer: Address,
        book_id: u64,
    ) -> Option<ContractError> {
        if !signers.contains(buyer) {
            Some(ContractError::NotAuthorized)
        } else if self.book(book_id) is Err {
            Some(self.book(book_id)->Err_0)
        } else {
            let book = self.book(book_id)->Ok_0;
            let terms = self.sale_terms(book.publisher, book.publisher, book.price, 0);
            if !book.active {
                Some(ContractError::BookNotAvailable)
            } else if self.owns(buyer, book_id) is Err {
                Some(self.owns(buyer, book_id)->Err_0)
            } else if self.owns(buyer, book_id)->Ok_0 {
                Some(ContractError::AlreadyOwned)
            } else if terms is Err {
                Some(terms->Err_0)
            } else if self.next_token_id() is Err {
                Some(self.next_token_id()->Err_0)
            } else {
                self.minting_refusal(buyer, self.next_token_id()->Ok_0, book)
            }
        }
    }

    /// Why there is no room for a new token of a book.
    pub open spec fn minting_refusal(self, buyer: Address, token_id: u64, book: Book) -> Option<
        ContractError,
    > {
        if self.owner_list(buyer) is Err {
            Some(self.owner_list(buyer)->Err_0)
        } else if token_id == u64::MAX || book.total_sales == u64::MAX || self.owner_list(
            buyer,
        )->Ok_0.len() >= u32::MAX {
            Some(ContractError::CapacityExceeded)
        } else {
            None
        }
    }

    /// The payments of a first sale. It carries no royalty, because the creator
    /// is the seller.
    pub open spec fn purchase_payments(self, buyer: Address, book_id: u64) -> Seq<Payment> {
        let book = self.book(book_id)->Ok_0;
        self.sale_terms(book.publisher, book.publisher, book.price, 0)->Ok_0.payments(buyer)
    }

    /// The buyer holds a new token of the book, under the next free id.
    pub open spec fn purchased(self, buyer: Address, book_id: u64) -> LedgerState {
        let book = self.book(book_id)->Ok_0;
        let id = self.next_token_id()->Ok_0;
        self.with_token(
            id,
            Token {
                id,
                book_id,
                owner: buyer,
                minted_at: self.sequence,
                purchase_price: book.price,
            },
        ).with_ownership(buyer, book_id, true).with_listed_token(buyer, id).with_entry(
            DataKey::NextTokenId,
            Datum::U64((id + 1) as u64),
        ).with_book(
            book_id,
            Book { total_sales: (book.total_sales + 1) as u64, ..book },
        ).with_event(Event::Purchased { token_id: id, book_id, buyer })
    }
}

// Resales and gifts.

impl LedgerState {
    /// Why the lists of tokens cannot follow a change of owner. The old owner's list
    /// is gone through, so it may hold nothing but ids; to the new owner's, the
    /// token is only added.
    pub open spec fn handover_refusal(
        self,
        old_owner: Address,
        token_id: u64,
        new_owner: Address,
    ) -> Option<ContractError> {
        let kept = ids_without(self.owner_tokens(old_owner)->Ok_0, token_id);
        if self.owner_tokens(old_owner) is Err {
            Some(self.owner_tokens(old_owner)->Err_0)
        } else if new_owner == old_owner {
            if kept.len() >= u32::MAX {
                Some(ContractError::CapacityExceeded)
            } else {
                None
            }
        } else if self.owner_list(new_owner) is Err {
            Some(self.owner_list(new_owner)->Err_0)
        } else if self.owner_list(new_owner)->Ok_0.len() >= u32::MAX {
            Some(ContractError::CapacityExceeded)
        } else {
            None
        }
    }

    /// The token is the new owner's, at this price.
    pub open spec fn handed_over(
        self,
        token_id: u64,
        token: Token,
        new_owner: Address,
        price: i128,
    ) -> LedgerState {
        self.with_ownership(token.owner, token.book_id, false).with_ownership(
            new_owner,
            token.book_id,
            true,
        ).with_owner_tokens(
            token.owner,
            ids_without(self.owner_tokens(token.owner)->Ok_0, token_id),
        ).with_listed_token(new_owner, token_id).with_token(
            token_id,
            Token { owner: new_owner, purchase_price: price, ..token },
        )
    }

    pub open spec fn transfer_refusal(
        self,
        signers: Seq<Address>,
        token_id: u64,
        new_owner: Address,
        sale_price: i128,
    ) -> Option<ContractError> {
        let token = self.token(token_id)->Ok_0;
        let book = self.book(token.book_id)->Ok_0;
        let terms = self.sale_terms(token.owner, book.publisher, sale_price, book.royalty_bps);
        if self.token(token_id) is Err {
            Some(self.token(token_id)->Err_0)
        } else if !signers.contains(token.owner) {
            Some(ContractError::NotAuthorized)
        } else if self.book(token.book_id) is Err {
            Some(self.book(token.book_id)->Err_0)
        } else if self.owns(new_owner, token.book_id) is Err {
            Some(self.owns(new_owner, token.book_id)->Err_0)
        } else if self.owns(new_owner, token.book_id)->Ok_0 {
            Some(ContractError::RecipientAlreadyOwns)
        } else if sale_price > 0 && !signers.contains(new_owner) {
            Some(ContractError::NotAuthorized)
        } else if sale_price > 0 && terms is Err {
            Some(terms->Err_0)
        } else {
            self.handover_refusal(token.owner, token_id, new_owner)
        }
    }

    /// The payments of a direct transfer: none where it is a gift.
    pub open spec fn transfer_payments(
        self,
        token_id: u64,
        new_owner: Address,
        sale_price: i128,
    ) -> Seq<Payment> {
        let token = self.token(token_id)->Ok_0;
        let book = self.book(token.book_id)->Ok_0;
        if sale_price > 0 {
            self.sale_terms(
                token.owner,
                book.publisher,
                sale_price,
                book.royalty_bps,
            )->Ok_0.payments(new_owner)
        } else {
            Seq::empty()
        }
    }

    /// A direct transfer leaves a listing of the token where it is.
    pub open spec fn transferred(
        self,
        token_id: u64,
        new_owner: Address,
        sale_price: i128,
    ) -> LedgerState {
        let token = self.token(token_id)->Ok_0;
        let book = self.book(token.book_id)->Ok_0;
        let terms = self.sale_terms(
            token.owner,
            book.publisher,
            sale_price,
            book.royalty_bps,
        )->Ok_0;
        self.handed_over(token_id, token, new_owner, sale_price).with_event(
            Event::Transferred {
                token_id,
                old_owner: token.owner,
                new_owner,
                royalty_amount: if sale_price > 0 {
                    terms.royalty_amount
                } else {
                    0
                },
                platform_amount: if sale_price > 0 {
                    terms.platform_amount
                } else {
                    0
                },
                seller_amount: if sale_price > 0 {
                    terms.seller_amount
                } else {
                    0
                },
            },
        )
    }
}

// The marketplace.

impl LedgerState {
    pub open spec fn list_refusal(
        self,
        signers: Seq<Address>,
        seller: Address,
        token_id: u64,
        asking_price: i128,
    ) -> Option<ContractError> {
        if !signers.contains(seller) {
            Some(ContractError::NotAuthorized)
        } else if asking_price <= 0 {
            Some(ContractError::AskingPriceNotPositive)
        } else if self.token(token_id) is Err {
            Some(self.token(token_id)->Err_0)
        } else if self.token(token_id)->Ok_0.owner != seller {
            Some(ContractError::NotTokenOwner)
        } else {
            None
        }
    }

    /// The seller stays the owner until the token is sold.
    pub open spec fn listed(
        self,
        seller: Address,
        token_id: u64,
        asking_price: i128,
    ) -> LedgerState {
        self.with_listing(token_id, Listing { token_id, seller, asking_price }).with_event(
            Event::Listed { token_id, seller, asking_price },
        )
    }

    pub open spec fn cancel_refusal(
        self,
        signers: Seq<Address>,
        seller: Address,
        token_id: u64,
    ) -> Option<ContractError> {
        if !signers.contains(seller) {
            Some(ContractError::NotAuthorized)
        } else if self.listing(token_id) is Err {
            Some(self.listing(token_id)->Err_0)
        } else if self.listing(token_id)->Ok_0.seller != seller {
            Some(ContractError::ListingByOther)
        } else {
            None
        }
    }

    pub open spec fn unlisted(self, seller: Address, token_id: u64) -> LedgerState {
        self.without_entry(DataKey::Listing(token_id)).with_event(
            Event::Unlisted { token_id, seller },
        )
    }

    pub open spec fn buy_refusal(
        self,
        signers: Seq<Address>,
        buyer: Address,
        token_id: u64,
    ) -> Option<ContractError> {
        let listing = self.listing(token_id)->Ok_0;
        let token = self.token(token_id)->Ok_0;
        let book = self.book(token.book_id)->Ok_0;
        let terms = self.sale_terms(
            listing.seller,
            book.publisher,
            listing.asking_price,
            book.royalty_bps,
        );
        if !signers.contains(buyer) {
            Some(ContractError::NotAuthorized)
        } else if self.listing(token_id) is Err {
            Some(self.listing(token_id)->Err_0)
        } else if listing.seller == buyer {
            Some(ContractError::OwnListing)
        } else if self.token(token_id) is Err {
            Some(self.token(token_id)->Err_0)
        } else if token.owner != listing.seller {
            Some(ContractError::ListingOutdated)
        } else if self.owns(buyer, token.book_id) is Err {
            Some(self.owns(buyer, token.book_id)->Err_0)
        } else if self.owns(buyer, token.book_id)->Ok_0 {
            Some(ContractError::AlreadyOwned)
        } else if self.book(token.book_id) is Err {
            Some(self.book(token.book_id)->Err_0)
        } else if terms is Err {
            Some(terms->Err_0)
        } else {
            self.handover_refusal(token.owner, token_id, buyer)
        }
    }

    pub open spec fn buy_payments(self, buyer: Address, token_id: u64) -> Seq<Payment> {
        let listing = self.listing(token_id)->Ok_0;
        let book = self.book(self.token(token_id)->Ok_0.book_id)->Ok_0;
        self.sale_terms(
            listing.seller,
            book.publisher,
            listing.asking_price,
            book.royalty_bps,
        )->Ok_0.payments(buyer)
    }

    /// The token is the buyer's, at the asking price, and no longer listed.
    pub open spec fn bought(self, buyer: Address, token_id: u64) -> LedgerState {
        let token = self.token(token_id)->Ok_0;
        let price = self.listing(token_id)->Ok_0.asking_price;
        self.handed_over(token_id, token, buyer, price).without_entry(
            DataKey::Listing(token_id),
        ).with_event(
            Event::Sold {
                token_id,
                old_owner: token.owner,
                buyer,
                asking_price: price,
            },
        )
    }
}

} // verus!
