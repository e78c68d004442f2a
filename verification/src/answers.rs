//! When each request is granted, and what it is answered otherwise.
//!
//! Each law goes through the conditions of one request, in the order in which they
//! count, and tells the answer where that condition is the first to fail. Where all
//! of them hold the request is granted, whatever else the records say.

use soroban_sdk::Address;
use vstd::prelude::*;

use crate::contract::{HandoverOrder, PurchaseOrder};
use crate::host::{is_contract, Datum, LedgerState};
use crate::ledger::lemma_ids_are_listed;
use crate::rules::ids_without;
use crate::settlement::SaleTerms;
use crate::types::{ContractError, DataKey};

verus! {

// Administration.

/// A contract can be initialised by whoever signs as its platform, once, with a fee
/// of at most a tenth.
pub proof fn law_who_can_initialise(
    state: LedgerState,
    signers: Seq<Address>,
    platform: Address,
    fee_bps: u32,
)
    ensures
        ({
            let answer = state.initialise_refusal(signers, platform, fee_bps);
            let signed = signers.contains(platform);
            let fresh = state.entry(DataKey::Platform) is None;
            &&& answer is None <==> signed && fresh && fee_bps <= 1000
            &&& !signed ==> answer == Some(ContractError::NotAuthorized)
            &&& signed && !fresh ==> answer == Some(ContractError::AlreadyInitialised)
            &&& signed && fresh && fee_bps > 1000 ==> answer == Some(
                ContractError::PlatformFeeTooHigh,
            )
        }),
{
}

/// What is the platform's to do is done by the address that the contract was
/// initialised with, and by no other.
pub proof fn law_who_is_the_platform(
    state: LedgerState,
    signers: Seq<Address>,
    address: Address,
    other: ContractError,
)
    ensures
        ({
            let answer = state.platform_refusal(signers, address, other);
            let signed = signers.contains(address);
            &&& answer is None <==> signed && state.platform() == Ok::<Address, ContractError>(
                address,
            )
            &&& !signed ==> answer == Some(ContractError::NotAuthorized)
            &&& signed ==> match state.platform() {
                Err(e) => answer == Some(e),
                Ok(platform) => platform != address ==> answer == Some(other),
            }
        }),
{
}

// Books.

/// Anybody can register a book at a positive price, with a royalty of at most a
/// half, as long as there are ids.
pub proof fn law_who_can_register(
    state: LedgerState,
    signers: Seq<Address>,
    publisher: Address,
    price: i128,
    royalty_bps: u32,
)
    ensures
        ({
            let answer = state.register_refusal(signers, publisher, price, royalty_bps);
            let signed = signers.contains(publisher);
            let next = state.next_book_id();
            &&& answer is None <==> signed && price >= 1 && royalty_bps <= 5000 && next is Ok
                && next->Ok_0 < 0xffff_ffff_ffff_ffff
            &&& !signed ==> answer == Some(ContractError::NotAuthorized)
            &&& signed && price < 1 ==> answer == Some(ContractError::PriceNotPositive)
            &&& signed && price >= 1 && royalty_bps > 5000 ==> answer == Some(
                ContractError::RoyaltyTooHigh,
            )
            &&& signed && price >= 1 && royalty_bps <= 5000 ==> match next {
                Err(e) => answer == Some(e),
                Ok(id) => id == 0xffff_ffff_ffff_ffff ==> answer == Some(
                    ContractError::CapacityExceeded,
                ),
            }
        }),
{
}

/// A book is its creator's to change, whatever has become of it since.
pub proof fn law_who_can_change_a_book(
    state: LedgerState,
    signers: Seq<Address>,
    publisher: Address,
    book_id: u64,
    other: ContractError,
)
    ensures
        ({
            let answer = state.creator_refusal(signers, publisher, book_id, other);
            let signed = signers.contains(publisher);
            let book = state.book(book_id);
            &&& answer is None <==> signed && book is Ok && book->Ok_0.publisher == publisher
            &&& !signed ==> answer == Some(ContractError::NotAuthorized)
            &&& signed ==> match book {
                Err(e) => answer == Some(e),
                Ok(book) => book.publisher != publisher ==> answer == Some(other),
            }
        }),
{
}

// Sales.

/// There are terms for every positive price that the shares can be computed of and
/// that covers them, once there are a platform and a token contract to pay in.
pub proof fn law_when_there_are_terms(
    state: LedgerState,
    seller: Address,
    publisher: Address,
    total: i128,
    royalty_bps: u32,
)
    ensures
        ({
            let terms = state.sale_terms(seller, publisher, total, royalty_bps);
            let fee_bps = state.fee_bps()->Ok_0;
            let asset = state.payment_token();
            let fits = total * royalty_bps <= 0x7fff_ffff_ffff_ffff_ffff_ffff_ffff_ffff && total
                * fee_bps <= 0x7fff_ffff_ffff_ffff_ffff_ffff_ffff_ffff;
            let covered = total * royalty_bps / 10_000 + total * fee_bps / 10_000 <= total;
            let ready = total >= 1 && state.platform() is Ok && state.fee_bps() is Ok;
            &&& terms is Ok <==> ready && fits && covered && asset is Ok && is_contract(
                asset->Ok_0,
            )
            &&& total < 1 ==> terms == Err::<SaleTerms, ContractError>(
                ContractError::SalePriceNotPositive,
            )
            &&& total >= 1 && state.platform() is Err ==> terms == Err::<SaleTerms, ContractError>(
                state.platform()->Err_0,
            )
            &&& total >= 1 && state.platform() is Ok && state.fee_bps() is Err ==> terms == Err::<
                SaleTerms,
                ContractError,
            >(state.fee_bps()->Err_0)
            &&& ready && !fits ==> terms == Err::<SaleTerms, ContractError>(
                ContractError::FeeOverflow,
            )
            &&& ready && fits && !covered ==> terms == Err::<SaleTerms, ContractError>(
                ContractError::SalePriceTooLow,
            )
            &&& ready && fits && covered && asset is Err ==> terms == Err::<
                SaleTerms,
                ContractError,
            >(asset->Err_0)
            &&& ready && fits && covered && asset is Ok && !is_contract(asset->Ok_0) ==> terms
                == Err::<SaleTerms, ContractError>(ContractError::PaymentTokenNotContract)
        }),
{
    if total >= 1 {
        assert(total * royalty_bps >= 0) by (nonlinear_arith)
            requires
                total >= 1,
        ;
        let fee_bps = state.fee_bps()->Ok_0;
        assert(total * fee_bps >= 0) by (nonlinear_arith)
            requires
                total >= 1,
        ;
    }
}

/// A reader can buy a book that is on sale, does not own it already, and finds the
/// shop in order. Room means: an id for the token, a sale that can be counted and a
/// place in the reader's list.
pub proof fn law_who_can_purchase(
    state: LedgerState,
    signers: Seq<Address>,
    buyer: Address,
    book_id: u64,
)
    ensures
        ({
            let answer = state.purchase_refusal(signers, buyer, book_id);
            let signed = signers.contains(buyer);
            let book = state.book(book_id)->Ok_0;
            let owned = state.owns(buyer, book_id);
            let terms = state.sale_terms(book.publisher, book.publisher, book.price, 0);
            let next = state.next_token_id();
            let list = state.owner_list(buyer);
            let on_sale = signed && state.book(book_id) is Ok && book.active;
            let wanted = on_sale && owned == Ok::<bool, ContractError>(false);
            let room = next->Ok_0 < 0xffff_ffff_ffff_ffff && book.total_sales
                < 0xffff_ffff_ffff_ffff && list->Ok_0.len() < 0xffff_ffff;
            &&& answer is None <==> wanted && terms is Ok && next is Ok && list is Ok && room
            &&& !signed ==> answer == Some(ContractError::NotAuthorized)
            &&& signed && state.book(book_id) is Err ==> answer == Some(state.book(book_id)->Err_0)
            &&& signed && state.book(book_id) is Ok && !book.active ==> answer == Some(
                ContractError::BookNotAvailable,
            )
            &&& on_sale && owned is Err ==> answer == Some(owned->Err_0)
            &&& on_sale && owned == Ok::<bool, ContractError>(true) ==> answer == Some(
                ContractError::AlreadyOwned,
            )
            &&& wanted && terms is Err ==> answer == Some(terms->Err_0)
            &&& wanted && terms is Ok && next is Err ==> answer == Some(next->Err_0)
            &&& wanted && terms is Ok && next is Ok && list is Err ==> answer == Some(list->Err_0)
            &&& wanted && terms is Ok && next is Ok && list is Ok && !room ==> answer == Some(
                ContractError::CapacityExceeded,
            )
        }),
{
}

/// Two lists have to follow a change of owner. The one that the token leaves must be
/// a list of ids; the one that it comes to must be a list, with a place left.
pub proof fn law_when_lists_can_follow(
    state: LedgerState,
    old_owner: Address,
    token_id: u64,
    new_owner: Address,
)
    ensures
        ({
            let answer = state.handover_refusal(old_owner, token_id, new_owner);
            let old_list = state.owner_tokens(old_owner);
            let new_list = state.owner_list(new_owner);
            let kept = ids_without(old_list->Ok_0, token_id);
            &&& old_list is Err ==> answer == Some(old_list->Err_0)
            &&& old_list is Ok && new_owner == old_owner ==> answer == if kept.len()
                < 0xffff_ffff {
                None
            } else {
                Some(ContractError::CapacityExceeded)
            }
            &&& old_list is Ok && new_owner != old_owner && new_list is Err ==> answer == Some(
                new_list->Err_0,
            )
            &&& old_list is Ok && new_owner != old_owner && new_list is Ok ==> answer == if (
            new_list->Ok_0.len() < 0xffff_ffff) {
                None
            } else {
                Some(ContractError::CapacityExceeded)
            }
        }),
{
}

/// An owner can hand a token over to anybody who does not own the book, on sale or
/// not. A price has to be signed by the one who pays it, and needs terms; a gift
/// needs neither.
pub proof fn law_who_can_transfer(
    state: LedgerState,
    signers: Seq<Address>,
    token_id: u64,
    new_owner: Address,
    sale_price: i128,
)
    ensures
        ({
            let answer = state.transfer_refusal(signers, token_id, new_owner, sale_price);
            let token = state.token(token_id)->Ok_0;
            let book = state.book(token.book_id)->Ok_0;
            let owned = state.owns(new_owner, token.book_id);
            let terms = state.sale_terms(
                token.owner,
                book.publisher,
                sale_price,
                book.royalty_bps,
            );
            let lists = state.handover_refusal(token.owner, token_id, new_owner);
            let signed = state.token(token_id) is Ok && signers.contains(token.owner);
            let known = signed && state.book(token.book_id) is Ok;
            let wanted = known && owned == Ok::<bool, ContractError>(false);
            let payer_signed = sale_price < 1 || signers.contains(new_owner);
            let priced = sale_price < 1 || terms is Ok;
            &&& answer is None <==> wanted && payer_signed && priced && lists is None
            &&& state.token(token_id) is Err ==> answer == Some(state.token(token_id)->Err_0)
            &&& state.token(token_id) is Ok && !signed ==> answer == Some(
                ContractError::NotAuthorized,
            )
            &&& signed && !known ==> answer == Some(state.book(token.book_id)->Err_0)
            &&& known && owned is Err ==> answer == Some(owned->Err_0)
            &&& known && owned == Ok::<bool, ContractError>(true) ==> answer == Some(
                ContractError::RecipientAlreadyOwns,
            )
            &&& wanted && !payer_signed ==> answer == Some(ContractError::NotAuthorized)
            &&& wanted && payer_signed && !priced ==> answer == Some(terms->Err_0)
            &&& wanted && payer_signed && priced ==> answer == lists
        }),
{
}

/// On a sound ledger with room in the lists, an owner's transfer is granted to
/// everybody who has no copy of the book; a priced one if there are terms for it and
/// the new owner has signed too. Whether the book is still on sale does not matter.
pub proof fn law_owner_can_always_hand_over(
    state: LedgerState,
    signers: Seq<Address>,
    token_id: u64,
    new_owner: Address,
    sale_price: i128,
)
    requires
        state.sound(),
        state.token(token_id) is Ok,
        signers.contains(state.token(token_id)->Ok_0.owner),
        forall|id: u64| !state.holds(id, new_owner, state.token(token_id)->Ok_0.book_id),
        state.owner_list(new_owner)->Ok_0.len() < 0xffff_ffff,
    ensures
        ({
            let token = state.token(token_id)->Ok_0;
            let book = state.book(token.book_id)->Ok_0;
            let terms = state.sale_terms(
                token.owner,
                book.publisher,
                sale_price,
                book.royalty_bps,
            );
            let answer = state.transfer_refusal(signers, token_id, new_owner, sale_price);
            &&& sale_price <= 0 ==> answer is None
            &&& sale_price > 0 && signers.contains(new_owner) && terms is Ok ==> answer is None
        }),
{
    let token = state.token(token_id)->Ok_0;
    assert(state.holds(token_id, token.owner, token.book_id));
    assert(!state.owns(new_owner, token.book_id)->Ok_0);
    assert(state.owner_tokens(token.owner) is Ok);
    lemma_ids_are_listed(state, new_owner, token_id);
}

// The marketplace.

/// An owner can list a token at any positive price, however it came to the owner.
pub proof fn law_who_can_list(
    state: LedgerState,
    signers: Seq<Address>,
    seller: Address,
    token_id: u64,
    asking_price: i128,
)
    ensures
        ({
            let answer = state.list_refusal(signers, seller, token_id, asking_price);
            let signed = signers.contains(seller);
            let token = state.token(token_id);
            &&& answer is None <==> signed && asking_price >= 1 && token is Ok && token->Ok_0.owner
                == seller
            &&& !signed ==> answer == Some(ContractError::NotAuthorized)
            &&& signed && asking_price < 1 ==> answer == Some(
                ContractError::AskingPriceNotPositive,
            )
            &&& signed && asking_price >= 1 ==> match token {
                Err(e) => answer == Some(e),
                Ok(token) => token.owner != seller ==> answer == Some(ContractError::NotTokenOwner),
            }
        }),
{
}

/// A listing is its seller's to take back.
pub proof fn law_who_can_cancel(
    state: LedgerState,
    signers: Seq<Address>,
    seller: Address,
    token_id: u64,
)
    ensures
        ({
            let answer = state.cancel_refusal(signers, seller, token_id);
            let signed = signers.contains(seller);
            let listing = state.listing(token_id);
            &&& answer is None <==> signed && listing is Ok && listing->Ok_0.seller == seller
            &&& !signed ==> answer == Some(ContractError::NotAuthorized)
            &&& signed ==> match listing {
                Err(e) => answer == Some(e),
                Ok(listing) => listing.seller != seller ==> answer == Some(
                    ContractError::ListingByOther,
                ),
            }
        }),
{
}

/// Anybody but the seller can buy a listed token that is still the seller's, if
/// there are terms for its price and the buyer has no copy of the book. Whether the
/// book is still on sale does not matter.
pub proof fn law_who_can_buy_a_listing(
    state: LedgerState,
    signers: Seq<Address>,
    buyer: Address,
    token_id: u64,
)
    ensures
        ({
            let answer = state.buy_refusal(signers, buyer, token_id);
            let listing = state.listing(token_id)->Ok_0;
            let token = state.token(token_id)->Ok_0;
            let book = state.book(token.book_id)->Ok_0;
            let owned = state.owns(buyer, token.book_id);
            let terms = state.sale_terms(
                token.owner,
                book.publisher,
                listing.asking_price,
                book.royalty_bps,
            );
            let lists = state.handover_refusal(token.owner, token_id, buyer);
            let signed = signers.contains(buyer);
            let listed = signed && state.listing(token_id) is Ok;
            let offered = listed && listing.seller != buyer;
            let held = offered && state.token(token_id) is Ok;
            let live = held && token.owner == listing.seller;
            let wanted = live && owned == Ok::<bool, ContractError>(false);
            let known = wanted && state.book(token.book_id) is Ok;
            &&& answer is None <==> known && terms is Ok && lists is None
            &&& !signed ==> answer == Some(ContractError::NotAuthorized)
            &&& signed && !listed ==> answer == Some(state.listing(token_id)->Err_0)
            &&& listed && !offered ==> answer == Some(ContractError::OwnListing)
            &&& offered && !held ==> answer == Some(state.token(token_id)->Err_0)
            &&& held && !live ==> answer == Some(ContractError::ListingOutdated)
            &&& live && owned is Err ==> answer == Some(owned->Err_0)
            &&& live && owned == Ok::<bool, ContractError>(true) ==> answer == Some(
                ContractError::AlreadyOwned,
            )
            &&& wanted && !known ==> answer == Some(state.book(token.book_id)->Err_0)
            &&& known && terms is Err ==> answer == Some(terms->Err_0)
            &&& known && terms is Ok ==> answer == lists
        }),
{
}

// Orders.

/// An order that was paid is carried out wherever there is room for its token.
pub proof fn law_when_an_order_has_room(state: LedgerState, order: PurchaseOrder)
    ensures
        ({
            let list = state.owner_list(order.buyer);
            let room = order.token_id < 0xffff_ffff_ffff_ffff && order.book.total_sales
                < 0xffff_ffff_ffff_ffff && list->Ok_0.len() < 0xffff_ffff;
            &&& list is Err ==> order.obstacle(state) == Some(list->Err_0)
            &&& list is Ok && !room ==> order.obstacle(state) == Some(
                ContractError::CapacityExceeded,
            )
            &&& list is Ok && room ==> order.obstacle(state) is None
        }),
{
}

/// A change of owner that was paid is carried out wherever the lists of its old and
/// its new owner can follow.
pub proof fn law_when_a_handover_has_room(state: LedgerState, order: HandoverOrder)
    ensures
        order.obstacle(state) == state.handover_refusal(
            order.token.owner,
            order.token_id,
            order.new_owner,
        ),
{
}

// Reading.

/// A setting is what is stored of it. Without a platform the contract is not
/// initialised, without a fee the platform asks a fortieth, without a payment token
/// none is configured, and the counters begin at nought.
pub proof fn law_settings_are_read(state: LedgerState)
    ensures
        state.platform() == (match state.entry(DataKey::Platform) {
            None => Err::<Address, ContractError>(ContractError::NotInitialised),
            Some(Datum::Account(address)) => Ok(address),
            Some(_) => Err(ContractError::MalformedEntry),
        }),
        state.payment_token() == (match state.entry(DataKey::PaymentToken) {
            None => Err::<Address, ContractError>(ContractError::PaymentTokenNotConfigured),
            Some(Datum::Account(address)) => Ok(address),
            Some(_) => Err(ContractError::MalformedEntry),
        }),
        state.fee_bps() == (match state.entry(DataKey::PlatformFeeBps) {
            None => Ok::<u32, ContractError>(250),
            Some(Datum::U32(bps)) => Ok(bps),
            Some(_) => Err(ContractError::MalformedEntry),
        }),
        state.next_book_id() == (match state.entry(DataKey::NextBookId) {
            None => Ok::<u64, ContractError>(0),
            Some(Datum::U64(id)) => Ok(id),
            Some(_) => Err(ContractError::MalformedEntry),
        }),
        state.next_token_id() == (match state.entry(DataKey::NextTokenId) {
            None => Ok::<u64, ContractError>(0),
            Some(Datum::U64(id)) => Ok(id),
            Some(_) => Err(ContractError::MalformedEntry),
        }),
{
}

} // verus!
