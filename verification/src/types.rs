//! The records that the contract keeps, what it announces and how it refuses.

use soroban_sdk::Address;
use vstd::prelude::*;

use crate::host::same_address;

verus! {

/// A work registered by a creator.
#[derive(Debug)]
pub struct Book {
    pub id: u64,
    pub publisher: Address,
    pub price: i128,
    pub royalty_bps: u32,
    pub arweave_tx_id: soroban_sdk::String,
    pub title: soroban_sdk::String,
    pub active: bool,
    pub total_sales: u64,
}

impl Clone for Book {
    fn clone(&self) -> (copy: Book)
        ensures
            copy == *self,
    {
        Book {
            id: self.id,
            publisher: self.publisher.clone(),
            price: self.price,
            royalty_bps: self.royalty_bps,
            arweave_tx_id: self.arweave_tx_id.clone(),
            title: self.title.clone(),
            active: self.active,
            total_sales: self.total_sales,
        }
    }
}

/// A reader's copy of a book.
#[derive(Debug)]
pub struct Token {
    pub id: u64,
    pub book_id: u64,
    pub owner: Address,
    pub minted_at: u32,
    pub purchase_price: i128,
}

impl Clone for Token {
    fn clone(&self) -> (copy: Token)
        ensures
            copy == *self,
    {
        Token {
            id: self.id,
            book_id: self.book_id,
            owner: self.owner.clone(),
            minted_at: self.minted_at,
            purchase_price: self.purchase_price,
        }
    }
}

/// A token put up for resale.
#[derive(Debug)]
pub struct Listing {
    pub token_id: u64,
    pub seller: Address,
    pub asking_price: i128,
}

impl Clone for Listing {
    fn clone(&self) -> (copy: Listing)
        ensures
            copy == *self,
    {
        Listing {
            token_id: self.token_id,
            seller: self.seller.clone(),
            asking_price: self.asking_price,
        }
    }
}

/// The keys under which the contract keeps its records.
pub enum DataKey {
    NextBookId,
    NextTokenId,
    Book(u64),
    Token(u64),
    Ownership(Address, u64),
    Platform,
    PlatformFeeBps,
    /// The asset that every sale settles in.
    PaymentToken,
    OwnerTokens(Address),
    /// A marketplace listing, by its token.
    Listing(u64),
}

/// What the contract announces when a request is granted.
#[derive(Debug)]
pub enum Event {
    BookRegistered { book_id: u64, publisher: Address },
    ArweaveTxUpdated { book_id: u64 },
    Purchased { token_id: u64, book_id: u64, buyer: Address },
    Transferred {
        token_id: u64,
        old_owner: Address,
        new_owner: Address,
        royalty_amount: i128,
        platform_amount: i128,
        seller_amount: i128,
    },
    Listed { token_id: u64, seller: Address, asking_price: i128 },
    Unlisted { token_id: u64, seller: Address },
    Sold { token_id: u64, old_owner: Address, buyer: Address, asking_price: i128 },
}

impl Event {
    /// The topic that an event is published under.
    pub open spec fn spec_topic(self) -> Seq<char> {
        match self {
            Event::BookRegistered { .. } => "reg_book"@,
            Event::ArweaveTxUpdated { .. } => "upd_tx"@,
            Event::Purchased { .. } => "purchase"@,
            Event::Transferred { .. } => "transfer"@,
            Event::Listed { .. } => "listed"@,
            Event::Unlisted { .. } => "unlisted"@,
            Event::Sold { .. } => "sold"@,
        }
    }

    pub fn topic(&self) -> (topic: &'static str)
        ensures
            topic@ == self.spec_topic(),
    {
        match self {
            Event::BookRegistered { .. } => "reg_book",
            Event::ArweaveTxUpdated { .. } => "upd_tx",
            Event::Purchased { .. } => "purchase",
            Event::Transferred { .. } => "transfer",
            Event::Listed { .. } => "listed",
            Event::Unlisted { .. } => "unlisted",
            Event::Sold { .. } => "sold",
        }
    }
}

/// Why a request is refused.
#[derive(Clone, Copy, Debug, PartialEq, Eq, Structural)]
pub enum ContractError {
    /// An address whose consent the request needs has not signed it.
    NotAuthorized,
    NotInitialised,
    AlreadyInitialised,
    PlatformFeeTooHigh,
    UpgradeByOther,
    PaymentTokenByOther,
    PaymentTokenNotConfigured,
    /// The payment token is the address of an account, not of a token contract.
    PaymentTokenNotContract,
    PriceNotPositive,
    RoyaltyTooHigh,
    BookNotFound,
    UpdateByOther,
    DeactivationByOther,
    BookNotAvailable,
    AlreadyOwned,
    RecipientAlreadyOwns,
    TokenNotFound,
    NotTokenOwner,
    AskingPriceNotPositive,
    ListingNotFound,
    ListingByOther,
    OwnListing,
    ListingOutdated,
    SalePriceNotPositive,
    SalePriceTooLow,
    FeeOverflow,
    /// The token contract refused a transfer.
    PaymentRefused,
    /// A counter or a list of tokens has reached the end of its range.
    CapacityExceeded,
    /// A storage entry does not hold the kind of value that its key stands for.
    MalformedEntry,
}

impl ContractError {
    pub open spec fn spec_message(self) -> Seq<char> {
        match self {
            ContractError::NotAuthorized => "Authorization required"@,
            ContractError::NotInitialised => "Contract not initialised"@,
            ContractError::AlreadyInitialised => "Contract already initialised"@,
            ContractError::PlatformFeeTooHigh => "Platform fee cannot exceed 10%"@,
            ContractError::UpgradeByOther => "Only the platform can upgrade the contract"@,
            ContractError::PaymentTokenByOther => "Only the platform can set the payment token"@,
            ContractError::PaymentTokenNotConfigured => "Payment token not configured"@,
            ContractError::PaymentTokenNotContract => "Payment token is not a contract"@,
            ContractError::PriceNotPositive => "Price must be positive"@,
            ContractError::RoyaltyTooHigh => "Royalty cannot exceed 50%"@,
            ContractError::BookNotFound => "Book not found"@,
            ContractError::UpdateByOther => "Only the creator can update this book"@,
            ContractError::DeactivationByOther => "Only the creator can deactivate this book"@,
            ContractError::BookNotAvailable => "This book is not available for purchase"@,
            ContractError::AlreadyOwned => "You already own this book"@,
            ContractError::RecipientAlreadyOwns => "Recipient already owns this book"@,
            ContractError::TokenNotFound => "Token not found"@,
            ContractError::NotTokenOwner => "You do not own this token"@,
            ContractError::AskingPriceNotPositive => "Asking price must be positive"@,
            ContractError::ListingNotFound => "Listing not found"@,
            ContractError::ListingByOther => "You did not create this listing"@,
            ContractError::OwnListing => "You cannot buy your own listing"@,
            ContractError::ListingOutdated => "Token owner has changed — listing is invalid"@,
            ContractError::SalePriceNotPositive => "Sale price must be positive"@,
            ContractError::SalePriceTooLow =>
                "Sale price too low to cover royalty and platform fees"@,
            ContractError::FeeOverflow => "Fee calculation overflowed"@,
            ContractError::PaymentRefused => "Payment refused"@,
            ContractError::CapacityExceeded => "Capacity exceeded"@,
            ContractError::MalformedEntry => "Malformed storage entry"@,
        }
    }

    /// The message that the refusal is reported with.
    pub fn message(&self) -> (message: &'static str)
        ensures
            message@ == self.spec_message(),
    {
        match self {
            ContractError::NotAuthorized => "Authorization required",
            ContractError::NotInitialised => "Contract not initialised",
            ContractError::AlreadyInitialised => "Contract already initialised",
            ContractError::PlatformFeeTooHigh => "Platform fee cannot exceed 10%",
            ContractError::UpgradeByOther => "Only the platform can upgrade the contract",
            ContractError::PaymentTokenByOther => "Only the platform can set the payment token",
            ContractError::PaymentTokenNotConfigured => "Payment token not configured",
            ContractError::PaymentTokenNotContract => "Payment token is not a contract",
            ContractError::PriceNotPositive => "Price must be positive",
            ContractError::RoyaltyTooHigh => "Royalty cannot exceed 50%",
            ContractError::BookNotFound => "Book not found",
            ContractError::UpdateByOther => "Only the creator can update this book",
            ContractError::DeactivationByOther => "Only the creator can deactivate this book",
            ContractError::BookNotAvailable => "This book is not available for purchase",
            ContractError::AlreadyOwned => "You already own this book",
            ContractError::RecipientAlreadyOwns => "Recipient already owns this book",
            ContractError::TokenNotFound => "Token not found",
            ContractError::NotTokenOwner => "You do not own this token",
            ContractError::AskingPriceNotPositive => "Asking price must be positive",
            ContractError::ListingNotFound => "Listing not found",
            ContractError::ListingByOther => "You did not create this listing",
            ContractError::OwnListing => "You cannot buy your own listing",
            ContractError::ListingOutdated => "Token owner has changed — listing is invalid",
            ContractError::SalePriceNotPositive => "Sale price must be positive",
            ContractError::SalePriceTooLow =>
                "Sale price too low to cover royalty and platform fees",
            ContractError::FeeOverflow => "Fee calculation overflowed",
            ContractError::PaymentRefused => "Payment refused",
            ContractError::CapacityExceeded => "Capacity exceeded",
            ContractError::MalformedEntry => "Malformed storage entry",
        }
    }
}

/// The addresses that have signed the request under way.
pub struct Signers {
    pub addresses: Vec<Address>,
}

impl View for Signers {
    type V = Seq<Address>;

    open spec fn view(&self) -> Seq<Address> {
        self.addresses@
    }
}

impl Signers {
    /// The request is signed by exactly these addresses.
    pub fn new(addresses: Vec<Address>) -> (signers: Signers)
        ensures
            signers@ == addresses@,
    {
        Signers { addresses }
    }

    /// Whether `address` has signed.
    pub fn contains(&self, address: &Address) -> (signed: bool)
        ensures
            signed == self@.contains(*address),
    {
        let mut i: usize = 0;
        while i < self.addresses.len()
            invariant
                i <= self.addresses@.len(),
                forall|j: int| 0 <= j < i ==> self.addresses@[j] != *address,
            decreases self.addresses@.len() - i,
        {
            if same_address(&self.addresses[i], address) {
                return true;
            }
            i = i + 1;
        }
        false
    }
}

} // verus!
