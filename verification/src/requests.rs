//! The requests as data: one account of what each is answered and what it does.

use soroban_sdk::Address;
use vstd::prelude::*;

use crate::host::{Datum, LedgerState, Payment};
use crate::types::{ContractError, DataKey};

verus! {

/// A request that can change the ledger, or the contract's code.
pub enum Request {
    Upgrade { platform: Address },
    Initialise { platform: Address, fee_bps: u32 },
    SetPaymentToken { platform: Address, payment_token: Address },
    RegisterBook {
        publisher: Address,
        price: i128,
        royalty_bps: u32,
        arweave_tx_id: soroban_sdk::String,
        title: soroban_sdk::String,
    },
    UpdateArweaveTx { publisher: Address, book_id: u64, arweave_tx_id: soroban_sdk::String },
    DeactivateBook { publisher: Address, book_id: u64 },
    Purchase { buyer: Address, book_id: u64 },
    TransferToken { token_id: u64, new_owner: Address, sale_price: i128 },
    ListForSale { seller: Address, token_id: u64, asking_price: i128 },
    CancelListing { seller: Address, token_id: u64 },
    BuyListing { buyer: Address, token_id: u64 },
}

impl Request {
    /// Who pays for the sale that the request makes, if it makes one.
    pub open spec fn payer(self) -> Option<Address> {
        match self {
            Request::Purchase { buyer, .. } => Some(buyer),
            Request::TransferToken { new_owner, .. } => Some(new_owner),
            Request::BuyListing { buyer, .. } => Some(buyer),
            _ => None,
        }
    }

    /// Whether the request is a priced resale of the token.
    pub open spec fn resells(self, id: u64) -> bool {
        match self {
            Request::TransferToken { token_id, sale_price, .. } => token_id == id && sale_price > 0,
            Request::BuyListing { token_id, .. } => token_id == id,
            _ => false,
        }
    }
}

impl LedgerState {
    /// Why the contract refuses a request, before any payment is asked for.
    pub open spec fn refusal(self, signers: Seq<Address>, request: Request) -> Option<
        ContractError,
    > {
        match request {
            Request::Upgrade { platform } => self.platform_refusal(
                signers,
                platform,
                ContractError::UpgradeByOther,
            ),
            Request::Initialise { platform, fee_bps } => self.initialise_refusal(
                signers,
                platform,
                fee_bps,
            ),
            Request::SetPaymentToken { platform, .. } => self.platform_refusal(
                signers,
                platform,
                ContractError::PaymentTokenByOther,
            ),
            Request::RegisterBook { publisher, price, royalty_bps, .. } => self.register_refusal(
                signers,
                publisher,
                price,
                royalty_bps,
            ),
            Request::UpdateArweaveTx { publisher, book_id, .. } => self.creator_refusal(
                signers,
                publisher,
                book_id,
                ContractError::UpdateByOther,
            ),
            Request::DeactivateBook { publisher, book_id } => self.creator_refusal(
                signers,
                publisher,
                book_id,
                ContractError::DeactivationByOther,
            ),
            Request::Purchase { buyer, book_id } => self.purchase_refusal(signers, buyer, book_id),
            Request::TransferToken { token_id, new_owner, sale_price } => self.transfer_refusal(
                signers,
                token_id,
                new_owner,
                sale_price,
            ),
            Request::ListForSale { seller, token_id, asking_price } => self.list_refusal(
                signers,
                seller,
                token_id,
                asking_price,
            ),
            Request::CancelListing { seller, token_id } => self.cancel_refusal(
                signers,
                seller,
                token_id,
            ),
            Request::BuyListing { buyer, token_id } => self.buy_refusal(signers, buyer, token_id),
        }
    }

    /// The payments that a request asks for.
    pub open spec fn payments(self, request: Request) -> Seq<Payment> {
        match request {
            Request::Purchase { buyer, book_id } => self.purchase_payments(buyer, book_id),
            Request::TransferToken { token_id, new_owner, sale_price } => self.transfer_payments(
                token_id,
                new_owner,
                sale_price,
            ),
            Request::BuyListing { buyer, token_id } => self.buy_payments(buyer, token_id),
            _ => Seq::empty(),
        }
    }

    /// What a request costs: the price of the sale that it makes, if it makes one.
    pub open spec fn price(self, request: Request) -> int {
        match request {
            Request::Purchase { book_id, .. } => self.book(book_id)->Ok_0.price as int,
            Request::TransferToken { sale_price, .. } => if sale_price > 0 {
                sale_price as int
            } else {
                0
            },
            Request::BuyListing { token_id, .. } => {
                self.listing(token_id)->Ok_0.asking_price as int
            },
            _ => 0,
        }
    }

    /// The ledger once a request is granted and its payments are made.
    pub open spec fn granted(self, request: Request) -> LedgerState {
        match request {
            Request::Upgrade { .. } => self,
            Request::Initialise { platform, fee_bps } => self.initialised(platform, fee_bps),
            Request::SetPaymentToken { payment_token, .. } => self.with_entry(
                DataKey::PaymentToken,
                Datum::Account(payment_token),
            ),
            Request::RegisterBook { publisher, price, royalty_bps, arweave_tx_id, title } =>
                self.registered(publisher, price, royalty_bps, arweave_tx_id, title),
            Request::UpdateArweaveTx { book_id, arweave_tx_id, .. } => self.arweave_tx_updated(
                book_id,
                arweave_tx_id,
            ),
            Request::DeactivateBook { book_id, .. } => self.deactivated(book_id),
            Request::Purchase { buyer, book_id } => self.with_payments(
                self.payments(request),
            ).purchased(buyer, book_id),
            Request::TransferToken { token_id, new_owner, sale_price } => self.with_payments(
                self.payments(request),
            ).transferred(token_id, new_owner, sale_price),
            Request::ListForSale { seller, token_id, asking_price } => self.listed(
                seller,
                token_id,
                asking_price,
            ),
            Request::CancelListing { seller, token_id } => self.unlisted(seller, token_id),
            Request::BuyListing { buyer, token_id } => self.with_payments(
                self.payments(request),
            ).bought(buyer, token_id),
        }
    }
}

} // verus!
