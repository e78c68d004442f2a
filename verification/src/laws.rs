//! What holds of the contract as a whole.

use soroban_sdk::Address;
use vstd::prelude::*;

use crate::consistency::{
    law_granted_requests_keep_soundness, lemma_handed_over_reads, lemma_ids_without,
};
use crate::host::{Datum, LedgerState, Payment};
use crate::layout::{lemma_book_reads_back, lemma_listing_reads_back, lemma_token_reads_back};
use crate::ledger::{group_ledger_entries, lemma_ids_are_listed};
use crate::requests::Request;
use crate::rules::{ids_without, MAX_ROYALTY_BPS};
use crate::settlement::{
    lemma_entry_of_with_payments, payment_of, settles, share_fits, share_of, SaleTerms,
};
use crate::types::{Book, ContractError, DataKey, Event, Listing, Token};

verus! {

broadcast use {group_ledger_entries, lemma_entry_of_with_payments};

// The platform.

/// Once there is a platform, nobody can initialise the contract again.
pub proof fn law_initialised_once(
    state: LedgerState,
    signers: Seq<Address>,
    platform: Address,
    fee_bps: u32,
)
    requires
        state.platform() is Ok,
        signers.contains(platform),
    ensures
        state.refusal(signers, Request::Initialise { platform, fee_bps }) == Some(
            ContractError::AlreadyInitialised,
        ),
{
}

/// No request changes the platform or its fee once they are set, and none but the
/// platform's own changes the asset that sales settle in.
pub proof fn law_platform_stays(state: LedgerState, signers: Seq<Address>, request: Request)
    requires
        state.platform() is Ok,
        state.refusal(signers, request) is None,
    ensures
        state.granted(request).platform() == state.platform(),
        state.granted(request).fee_bps() == state.fee_bps(),
        state.granted(request).payment_token() != state.payment_token() ==> signers.contains(
            state.platform()->Ok_0,
        ),
{
}

/// New code leaves every record as it is, and only the platform can bring it.
pub proof fn law_upgrade_keeps_everything(
    state: LedgerState,
    signers: Seq<Address>,
    platform: Address,
)
    requires
        state.refusal(signers, Request::Upgrade { platform }) is None,
    ensures
        state.granted(Request::Upgrade { platform }) == state,
        state.platform() == Ok::<Address, ContractError>(platform),
        signers.contains(platform),
{
}

// Books.

/// A registered book is read back as it was registered, and no other is touched.
pub proof fn law_registered_book_reads_back(
    state: LedgerState,
    signers: Seq<Address>,
    publisher: Address,
    price: i128,
    royalty_bps: u32,
    arweave_tx_id: soroban_sdk::String,
    title: soroban_sdk::String,
)
    requires
        state.register_refusal(signers, publisher, price, royalty_bps) is None,
    ensures
        ({
            let after = state.registered(publisher, price, royalty_bps, arweave_tx_id, title);
            let id = state.next_book_id()->Ok_0;
            &&& after.book(id) == Ok::<Book, ContractError>(
                Book {
                    id,
                    publisher,
                    price,
                    royalty_bps,
                    arweave_tx_id,
                    title,
                    active: true,
                    total_sales: 0,
                },
            )
            &&& after.next_book_id() == Ok::<u64, ContractError>((id + 1) as u64)
            &&& forall|other: u64|
                other != id ==> #[trigger] after.book(other) == state.book(other)
        }),
{
    lemma_book_reads_back(
        Book {
            id: state.next_book_id()->Ok_0,
            publisher,
            price,
            royalty_bps,
            arweave_tx_id,
            title,
            active: true,
            total_sales: 0,
        },
    );
}

/// A book is never lost. Its creator, price, royalty and title never change, where
/// its content lies changes only with the creator's signature, its sales never
/// drop, and once off sale it stays so. The one request that can undo this is a
/// registration under the book's own id, which is due only after the counter of
/// books was set back.
pub proof fn law_book_terms_stay(
    state: LedgerState,
    signers: Seq<Address>,
    request: Request,
    id: u64,
)
    requires
        state.refusal(signers, request) is None,
        state.book(id) is Ok,
        request is RegisterBook ==> state.next_book_id() != Ok::<u64, ContractError>(id),
    ensures
        ({
            let before = state.book(id)->Ok_0;
            let after = state.granted(request).book(id)->Ok_0;
            &&& state.granted(request).book(id) is Ok
            &&& after.id == before.id
            &&& after.publisher == before.publisher
            &&& after.price == before.price
            &&& after.royalty_bps == before.royalty_bps
            &&& after.title == before.title
            &&& after.arweave_tx_id != before.arweave_tx_id ==> signers.contains(before.publisher)
            &&& after.total_sales >= before.total_sales
            &&& after.active ==> before.active
            &&& !after.active && before.active ==> signers.contains(before.publisher)
        }),
{
    let paid = state.with_payments(state.payments(request));
    assert(paid.book(id) == state.book(id));
    match request {
        Request::UpdateArweaveTx { book_id, arweave_tx_id, .. } => {
            lemma_book_reads_back(Book { arweave_tx_id, ..state.book(book_id)->Ok_0 });
        },
        Request::DeactivateBook { book_id, .. } => {
            lemma_book_reads_back(Book { active: false, ..state.book(book_id)->Ok_0 });
        },
        Request::Purchase { book_id, .. } => {
            let book = state.book(book_id)->Ok_0;
            assert(paid.book(book_id) == state.book(book_id));
            lemma_book_reads_back(Book { total_sales: (book.total_sales + 1) as u64, ..book });
        },
        _ => {},
    }
}

/// A book that its creator has taken off sale is sold to nobody, and whoever
/// owned it still does.
pub proof fn law_deactivated_book_is_not_sold(
    state: LedgerState,
    book_id: u64,
    signers: Seq<Address>,
    buyer: Address,
)
    requires
        state.book(book_id) is Ok,
        signers.contains(buyer),
    ensures
        state.deactivated(book_id).purchase_refusal(signers, buyer, book_id) == Some(
            ContractError::BookNotAvailable,
        ),
        state.deactivated(book_id).owns(buyer, book_id) == state.owns(buyer, book_id),
        state.deactivated(book_id).owner_list(buyer) == state.owner_list(buyer),
{
    lemma_book_reads_back(Book { active: false, ..state.book(book_id)->Ok_0 });
}

/// Ids are given out one by one: a registration takes the next book id, a purchase
/// the next token id, and nothing else does.
pub proof fn law_ids_are_consecutive(state: LedgerState, signers: Seq<Address>, request: Request)
    requires
        state.refusal(signers, request) is None,
        !(request is Initialise),
    ensures
        state.granted(request).next_book_id() == if request is RegisterBook {
            Ok::<u64, ContractError>((state.next_book_id()->Ok_0 + 1) as u64)
        } else {
            state.next_book_id()
        },
        state.granted(request).next_token_id() == if request is Purchase {
            Ok::<u64, ContractError>((state.next_token_id()->Ok_0 + 1) as u64)
        } else {
            state.next_token_id()
        },
{
}

/// No token id is ever given out twice: the next one rises by one with each purchase
/// and never falls.
pub proof fn law_token_ids_are_never_reused(
    state: LedgerState,
    signers: Seq<Address>,
    request: Request,
)
    requires
        state.holdings_sound(),
        state.refusal(signers, request) is None,
    ensures
        state.token(state.next_token_id()->Ok_0) is Err,
        state.granted(request).next_token_id() == if request is Purchase {
            Ok::<u64, ContractError>((state.next_token_id()->Ok_0 + 1) as u64)
        } else {
            state.next_token_id()
        },
{
}

// Money.

/// The sum of the amounts of `payments`.
pub open spec fn total_amount(payments: Seq<Payment>) -> int
    decreases payments.len(),
{
    if payments.len() == 0 {
        0
    } else {
        total_amount(payments.drop_last()) + payments.last().amount
    }
}

proof fn lemma_total_of_terms(terms: SaleTerms, payer: Address)
    requires
        terms.royalty_amount >= 0,
        terms.platform_amount >= 0,
        terms.seller_amount >= 0,
    ensures
        total_amount(terms.payments(payer)) == terms.royalty_amount + terms.platform_amount
            + terms.seller_amount,
        forall|i: int|
            0 <= i < terms.payments(payer).len() ==> (#[trigger] terms.payments(payer)[i]).amount
                > 0 && terms.payments(payer)[i].from == payer && terms.payments(payer)[i].asset
                == terms.asset,
{
    let royalty = payment_of(terms.asset, payer, terms.publisher, terms.royalty_amount);
    let fee = payment_of(terms.asset, payer, terms.platform, terms.platform_amount);
    let proceeds = payment_of(terms.asset, payer, terms.seller, terms.seller_amount);
    lemma_total_of_one(Seq::empty(), terms.asset, payer, terms.publisher, terms.royalty_amount);
    assert(Seq::<Payment>::empty() + royalty =~= royalty);
    lemma_total_of_one(royalty, terms.asset, payer, terms.platform, terms.platform_amount);
    lemma_total_of_one(royalty + fee, terms.asset, payer, terms.seller, terms.seller_amount);
}

proof fn lemma_total_of_one(
    payments: Seq<Payment>,
    asset: Address,
    from: Address,
    to: Address,
    amount: i128,
)
    requires
        amount >= 0,
    ensures
        total_amount(payments + payment_of(asset, from, to, amount)) == total_amount(payments)
            + amount,
{
    let all = payments + payment_of(asset, from, to, amount);
    if amount > 0 {
        assert(all.drop_last() =~= payments);
    } else {
        assert(all =~= payments);
    }
}

/// The price of a sale is split into the royalty, the platform's fee and the
/// seller's proceeds: the first two are the agreed points of the price, rounded down
/// to the ten-thousandth, and the three make up the price to the unit.
pub proof fn law_price_is_split_exactly(
    state: LedgerState,
    seller: Address,
    publisher: Address,
    total: i128,
    royalty_bps: u32,
    payer: Address,
)
    requires
        state.sale_terms(seller, publisher, total, royalty_bps) is Ok,
    ensures
        ({
            let terms = state.sale_terms(seller, publisher, total, royalty_bps)->Ok_0;
            &&& terms.royalty_amount * 10_000 <= total * royalty_bps
            &&& total * royalty_bps < (terms.royalty_amount + 1) * 10_000
            &&& terms.platform_amount * 10_000 <= total * state.fee_bps()->Ok_0
            &&& total * state.fee_bps()->Ok_0 < (terms.platform_amount + 1) * 10_000
            &&& terms.royalty_amount >= 0
            &&& terms.platform_amount >= 0
            &&& terms.seller_amount >= 0
            &&& terms.royalty_amount + terms.platform_amount + terms.seller_amount == total
            &&& total_amount(terms.payments(payer)) == total
        }),
{
    let terms = state.sale_terms(seller, publisher, total, royalty_bps)->Ok_0;
    lemma_share_bounds(total, royalty_bps);
    lemma_share_bounds(total, state.fee_bps()->Ok_0);
    lemma_total_of_terms(terms, payer);
}

proof fn lemma_share_bounds(total: i128, bps: u32)
    requires
        total > 0,
        share_fits(total, bps),
    ensures
        0 <= share_of(total as int, bps as int) <= i128::MAX,
        bps <= 5000 ==> share_of(total as int, bps as int) <= total / 2,
        bps <= 1000 ==> share_of(total as int, bps as int) <= total / 10,
{
    assert(total * bps >= 0) by (nonlinear_arith)
        requires
            total > 0,
    ;
    if bps <= 5000 {
        assert(total * bps <= total * 5000) by (nonlinear_arith)
            requires
                total > 0,
                bps <= 5000,
        ;
    }
    if bps <= 1000 {
        assert(total * bps <= total * 1000) by (nonlinear_arith)
            requires
                total > 0,
                bps <= 1000,
        ;
    }
}

/// Nothing is sold unpaid: a request that is granted has moved its whole price, out
/// of the hands of somebody who signed it, in the asset that sales settle in.
pub proof fn law_every_sale_is_paid(state: LedgerState, signers: Seq<Address>, request: Request)
    requires
        state.refusal(signers, request) is None,
    ensures
        total_amount(state.payments(request)) == state.price(request),
        forall|i: int|
            0 <= i < state.payments(request).len() ==> {
                let payment = #[trigger] state.payments(request)[i];
                &&& payment.amount > 0
                &&& request.payer() == Some(payment.from)
                &&& signers.contains(payment.from)
                &&& state.payment_token() == Ok::<Address, ContractError>(payment.asset)
            },
        state.granted(request).transfers == state.with_payments(state.payments(request)).transfers,
{
    match request {
        Request::Purchase { buyer, book_id } => {
            let book = state.book(book_id)->Ok_0;
            let terms = state.sale_terms(book.publisher, book.publisher, book.price, 0)->Ok_0;
            law_price_is_split_exactly(
                state,
                book.publisher,
                book.publisher,
                book.price,
                0,
                buyer,
            );
            lemma_total_of_terms(terms, buyer);
        },
        Request::TransferToken { token_id, new_owner, sale_price } => {
            if sale_price > 0 {
                let token = state.token(token_id)->Ok_0;
                let book = state.book(token.book_id)->Ok_0;
                let terms = state.sale_terms(
                    token.owner,
                    book.publisher,
                    sale_price,
                    book.royalty_bps,
                )->Ok_0;
                law_price_is_split_exactly(
                    state,
                    token.owner,
                    book.publisher,
                    sale_price,
                    book.royalty_bps,
                    new_owner,
                );
                lemma_total_of_terms(terms, new_owner);
            }
        },
        Request::BuyListing { buyer, token_id } => {
            let listing = state.listing(token_id)->Ok_0;
            let book = state.book(state.token(token_id)->Ok_0.book_id)->Ok_0;
            let terms = state.sale_terms(
                listing.seller,
                book.publisher,
                listing.asking_price,
                book.royalty_bps,
            )->Ok_0;
            law_price_is_split_exactly(
                state,
                listing.seller,
                book.publisher,
                listing.asking_price,
                book.royalty_bps,
                buyer,
            );
            lemma_total_of_terms(terms, buyer);
        },
        _ => {
            assert(state.transfers =~= state.with_payments(Seq::empty()).transfers);
        },
    }
}

/// A first sale pays the platform its fee and the creator all the rest; it carries
/// no royalty.
pub proof fn law_first_sale_pays_the_creator(
    state: LedgerState,
    signers: Seq<Address>,
    buyer: Address,
    book_id: u64,
)
    requires
        state.purchase_refusal(signers, buyer, book_id) is None,
    ensures
        ({
            let book = state.book(book_id)->Ok_0;
            let asset = state.payment_token()->Ok_0;
            let fee = (book.price * state.fee_bps()->Ok_0 / 10_000) as i128;
            state.purchase_payments(buyer, book_id) == payment_of(
                asset,
                buyer,
                state.platform()->Ok_0,
                fee,
            ) + payment_of(asset, buyer, book.publisher, (book.price - fee) as i128)
        }),
{
    let book = state.book(book_id)->Ok_0;
    lemma_share_bounds(book.price, 0);
    lemma_share_bounds(book.price, state.fee_bps()->Ok_0);
    assert(share_of(book.price as int, 0) == 0);
}

/// Every priced resale pays the creator's royalty, whether it is made directly or
/// on the marketplace: the creator gets the royalty, the platform its fee and the
/// seller the rest.
pub proof fn law_resale_pays_the_royalty(
    state: LedgerState,
    signers: Seq<Address>,
    request: Request,
    token_id: u64,
)
    requires
        state.refusal(signers, request) is None,
        request.resells(token_id),
    ensures
        ({
            let token = state.token(token_id)->Ok_0;
            let book = state.book(token.book_id)->Ok_0;
            let asset = state.payment_token()->Ok_0;
            let payer = request.payer()->0;
            let price = state.price(request);
            let royalty = price * book.royalty_bps / 10_000;
            let fee = price * state.fee_bps()->Ok_0 / 10_000;
            state.payments(request) == payment_of(asset, payer, book.publisher, royalty as i128)
                + payment_of(asset, payer, state.platform()->Ok_0, fee as i128) + payment_of(
                asset,
                payer,
                token.owner,
                (price - royalty - fee) as i128,
            )
        }),
{
}

/// A gift moves no money and announces none.
pub proof fn law_gift_moves_no_money(
    state: LedgerState,
    signers: Seq<Address>,
    token_id: u64,
    new_owner: Address,
    sale_price: i128,
)
    requires
        sale_price <= 0,
        state.transfer_refusal(signers, token_id, new_owner, sale_price) is None,
    ensures
        ({
            let request = Request::TransferToken { token_id, new_owner, sale_price };
            &&& state.payments(request) == Seq::<Payment>::empty()
            &&& state.granted(request).transfers == state.transfers
            &&& state.granted(request).events == state.with_event(
                Event::Transferred {
                    token_id,
                    old_owner: state.token(token_id)->Ok_0.owner,
                    new_owner,
                    royalty_amount: 0,
                    platform_amount: 0,
                    seller_amount: 0,
                },
            ).events
        }),
{
    let paid = state.with_payments(Seq::empty());
    assert(paid.token(token_id) == state.token(token_id));
    assert(paid.transfers =~= state.transfers);
}

/// A payment that is refused leaves every record as it was and announces nothing.
pub proof fn law_refused_payment_keeps_the_records(
    before: LedgerState,
    payments: Seq<Payment>,
    after: LedgerState,
)
    requires
        settles(before, payments, after, false),
    ensures
        after.instance == before.instance,
        after.persistent == before.persistent,
        after.events == before.events,
{
}

/// With the bounds that hold of fees and royalties, no price is too low for its
/// fees; and the records that a sound ledger holds can all be read.
pub proof fn law_sound_ledger_serves_every_price(
    state: LedgerState,
    signers: Seq<Address>,
    request: Request,
)
    requires
        state.sound(),
    ensures
        state.refusal(signers, request) != Some(ContractError::SalePriceTooLow),
        state.refusal(signers, request) != Some(ContractError::SalePriceNotPositive),
        state.refusal(signers, request) != Some(ContractError::MalformedEntry),
{
    match request {
        Request::Purchase { buyer, book_id } => {
            let book = state.book(book_id)->Ok_0;
            let owns = state.owns(buyer, book_id);
            lemma_ids_are_listed(state, buyer, 0);
            if state.book(book_id) is Ok {
                lemma_terms_are_served(state, book.publisher, book.publisher, book.price, 0);
            }
        },
        Request::TransferToken { token_id, new_owner, sale_price } => {
            let token = state.token(token_id)->Ok_0;
            let book = state.book(token.book_id)->Ok_0;
            let owns = state.owns(new_owner, token.book_id);
            let old_ids = state.owner_tokens(token.owner);
            lemma_ids_are_listed(state, new_owner, 0);
            if state.token(token_id) is Ok && sale_price > 0 {
                lemma_terms_are_served(
                    state,
                    token.owner,
                    book.publisher,
                    sale_price,
                    book.royalty_bps,
                );
            }
        },
        Request::BuyListing { buyer, token_id } => {
            let listing = state.listing(token_id)->Ok_0;
            let token = state.token(token_id)->Ok_0;
            let book = state.book(token.book_id)->Ok_0;
            let owns = state.owns(buyer, token.book_id);
            let old_ids = state.owner_tokens(token.owner);
            lemma_ids_are_listed(state, buyer, 0);
            if state.listing(token_id) is Ok && state.token(token_id) is Ok {
                lemma_terms_are_served(
                    state,
                    listing.seller,
                    book.publisher,
                    listing.asking_price,
                    book.royalty_bps,
                );
            }
        },
        Request::UpdateArweaveTx { book_id, .. } => {
            let book = state.book(book_id);
        },
        Request::DeactivateBook { book_id, .. } => {
            let book = state.book(book_id);
        },
        Request::ListForSale { token_id, .. } => {
            let token = state.token(token_id);
        },
        Request::CancelListing { token_id, .. } => {
            let listing = state.listing(token_id);
        },
        _ => {},
    }
}

proof fn lemma_terms_are_served(
    state: LedgerState,
    seller: Address,
    publisher: Address,
    total: i128,
    royalty_bps: u32,
)
    requires
        state.settings_sound(),
        total > 0,
        royalty_bps <= MAX_ROYALTY_BPS,
    ensures
        ({
            let terms = state.sale_terms(seller, publisher, total, royalty_bps);
            terms is Ok || !(terms->Err_0 is SalePriceTooLow || terms->Err_0 is SalePriceNotPositive
                || terms->Err_0 is MalformedEntry)
        }),
{
    let fee_bps = state.fee_bps()->Ok_0;
    if share_fits(total, royalty_bps) && share_fits(total, fee_bps) {
        lemma_share_bounds(total, royalty_bps);
        lemma_share_bounds(total, fee_bps);
    }
}

// Tokens.

/// A purchase gives the buyer a token of the book, at the end of the buyer's list,
/// and counts one more sale.
pub proof fn law_purchase_gives_a_token(
    state: LedgerState,
    signers: Seq<Address>,
    buyer: Address,
    book_id: u64,
)
    requires
        state.purchase_refusal(signers, buyer, book_id) is None,
    ensures
        ({
            let after = state.granted(Request::Purchase { buyer, book_id });
            let book = state.book(book_id)->Ok_0;
            let id = state.next_token_id()->Ok_0;
            &&& after.owns(buyer, book_id) == Ok::<bool, ContractError>(true)
            &&& after.token(id) == Ok::<Token, ContractError>(
                Token {
                    id,
                    book_id,
                    owner: buyer,
                    minted_at: state.sequence,
                    purchase_price: book.price,
                },
            )
            &&& after.owner_list(buyer) == Ok::<Seq<Datum>, ContractError>(
                state.owner_list(buyer)->Ok_0.push(Datum::U64(id)),
            )
            &&& after.book(book_id) == Ok::<Book, ContractError>(
                Book { total_sales: (book.total_sales + 1) as u64, ..book },
            )
        }),
{
    let paid = state.with_payments(state.payments(Request::Purchase { buyer, book_id }));
    let book = state.book(book_id)->Ok_0;
    let id = state.next_token_id()->Ok_0;
    assert(paid.book(book_id) == state.book(book_id));
    assert(paid.owner_list(buyer) == state.owner_list(buyer));
    assert(paid.next_token_id() == state.next_token_id());
    lemma_book_reads_back(Book { total_sales: (book.total_sales + 1) as u64, ..book });
    lemma_token_reads_back(
        Token { id, book_id, owner: buyer, minted_at: state.sequence, purchase_price: book.price },
    );
}

/// Whoever has bought a book cannot buy it again.
pub proof fn law_second_purchase_is_refused(
    state: LedgerState,
    signers: Seq<Address>,
    buyer: Address,
    book_id: u64,
)
    requires
        state.purchase_refusal(signers, buyer, book_id) is None,
    ensures
        state.granted(Request::Purchase { buyer, book_id }).purchase_refusal(
            signers,
            buyer,
            book_id,
        ) == Some(ContractError::AlreadyOwned),
{
    law_purchase_gives_a_token(state, signers, buyer, book_id);
}

/// A direct transfer and a sale of a listing move the token from its owner to the
/// new one: the token, both ownership marks and both lists follow, and no others.
pub proof fn law_handover_moves_the_token(
    state: LedgerState,
    signers: Seq<Address>,
    request: Request,
    token_id: u64,
    new_owner: Address,
    price: i128,
)
    requires
        state.holdings_sound(),
        state.refusal(signers, request) is None,
        match request {
            Request::TransferToken { token_id: id, new_owner: receiver, sale_price } => id
                == token_id && receiver == new_owner && sale_price == price,
            Request::BuyListing { buyer, token_id: id } => id == token_id && buyer == new_owner
                && state.listing(id)->Ok_0.asking_price == price,
            _ => false,
        },
    ensures
        state.token(token_id) is Ok,
        state.token(token_id)->Ok_0.owner != new_owner,
        forall|id: u64| #[trigger]
            state.granted(request).token(id) == if id == token_id {
                Ok::<Token, ContractError>(
                    Token {
                        owner: new_owner,
                        purchase_price: price,
                        ..state.token(token_id)->Ok_0
                    },
                )
            } else {
                state.token(id)
            },
        forall|reader: Address, book_id: u64| #[trigger]
            state.granted(request).owns(reader, book_id) == if book_id != state.token(
                token_id,
            )->Ok_0.book_id {
                state.owns(reader, book_id)
            } else if reader == new_owner {
                Ok::<bool, ContractError>(true)
            } else if reader == state.token(token_id)->Ok_0.owner {
                Ok(false)
            } else {
                state.owns(reader, book_id)
            },
        forall|reader: Address| #[trigger]
            state.granted(request).owner_tokens(reader) == if reader == new_owner {
                Ok::<Seq<u64>, ContractError>(state.owner_tokens(new_owner)->Ok_0.push(token_id))
            } else if reader == state.token(token_id)->Ok_0.owner {
                Ok(ids_without(state.owner_tokens(reader)->Ok_0, token_id))
            } else {
                state.owner_tokens(reader)
            },
{
    let paid = state.with_payments(state.payments(request));
    let token = state.token(token_id)->Ok_0;
    assert(paid.token(token_id) == state.token(token_id));
    assert(paid.owner_tokens(token.owner) == state.owner_tokens(token.owner));
    assert(paid.owner_tokens(new_owner) == state.owner_tokens(new_owner));
    assert(paid.listing(token_id) == state.listing(token_id));
    assert(state.holds(token_id, token.owner, token.book_id));
    lemma_handed_over_reads(paid, token_id, new_owner, price);
    let handed_over = paid.handed_over(token_id, token, new_owner, price);
    let after = state.granted(request);
    assert forall|id: u64| #[trigger] after.token(id) == handed_over.token(id) by {}
    assert forall|reader: Address, book_id: u64| #[trigger]
        after.owns(reader, book_id) == handed_over.owns(reader, book_id) by {}
    assert forall|reader: Address| #[trigger]
        after.owner_tokens(reader) == handed_over.owner_tokens(reader) by {}
    assert forall|id: u64| #[trigger] paid.token(id) == state.token(id) by {}
    assert forall|reader: Address, book_id: u64| #[trigger]
        paid.owns(reader, book_id) == state.owns(reader, book_id) by {}
    assert forall|reader: Address| #[trigger]
        paid.owner_tokens(reader) == state.owner_tokens(reader) by {}
}

/// A token that is given away and given back is where it was: every ownership mark
/// is what it was, and so is the receiver's list; in the giver's list the token has
/// gone to the end. Of the token only the price has changed, and no money has
/// moved.
pub proof fn law_gift_there_and_back(
    state: LedgerState,
    signers: Seq<Address>,
    giver: Address,
    receiver: Address,
    token_id: u64,
    back_signers: Seq<Address>,
)
    requires
        state.sound(),
        state.token(token_id) is Ok,
        state.token(token_id)->Ok_0.owner == giver,
        state.owns(receiver, state.token(token_id)->Ok_0.book_id) == Ok::<bool, ContractError>(
            false,
        ),
        signers.contains(giver),
        back_signers.contains(receiver),
        // The host counts the items of a list in 32 bits.
        state.owner_tokens(giver)->Ok_0.len() <= u32::MAX,
        state.owner_tokens(receiver)->Ok_0.len() < u32::MAX,
    ensures
        ({
            let gift = Request::TransferToken { token_id, new_owner: receiver, sale_price: 0 };
            let given = state.granted(gift);
            let back = Request::TransferToken { token_id, new_owner: giver, sale_price: 0 };
            let after = given.granted(back);
            &&& state.refusal(signers, gift) is None
            &&& given.refusal(back_signers, back) is None
            &&& forall|reader: Address, book_id: u64| #[trigger]
                after.owns(reader, book_id) == state.owns(reader, book_id)
            &&& forall|id: u64| #[trigger]
                after.token(id) == if id == token_id {
                    Ok::<Token, ContractError>(
                        Token { purchase_price: 0, ..state.token(token_id)->Ok_0 },
                    )
                } else {
                    state.token(id)
                }
            &&& forall|reader: Address| #[trigger]
                after.owner_tokens(reader) == if reader == giver {
                    Ok::<Seq<u64>, ContractError>(
                        ids_without(state.owner_tokens(giver)->Ok_0, token_id).push(token_id),
                    )
                } else {
                    state.owner_tokens(reader)
                }
            &&& state.payments(gift) == Seq::<Payment>::empty()
            &&& given.payments(back) == Seq::<Payment>::empty()
            &&& after.transfers == state.transfers
        }),
{
    let token = state.token(token_id)->Ok_0;
    let gift = Request::TransferToken { token_id, new_owner: receiver, sale_price: 0 };
    let given = state.granted(gift);
    let back = Request::TransferToken { token_id, new_owner: giver, sale_price: 0 };
    let giver_ids = state.owner_tokens(giver)->Ok_0;
    let receiver_ids = state.owner_tokens(receiver)->Ok_0;
    assert(state.holds(token_id, giver, token.book_id));
    assert(giver_ids.contains(token_id));
    assert(!receiver_ids.contains(token_id));
    lemma_ids_are_listed(state, receiver, token_id);
    law_handover_moves_the_token(state, signers, gift, token_id, receiver, 0);
    law_granted_requests_keep_soundness(state, signers, gift);
    law_gift_moves_no_money(state, signers, token_id, receiver, 0);
    lemma_ids_without(giver_ids, token_id);
    assert(given.owner_tokens(giver) == Ok::<Seq<u64>, ContractError>(
        ids_without(giver_ids, token_id),
    ));
    lemma_ids_are_listed(given, giver, token_id);
    assert(given.token(token_id)->Ok_0.owner == receiver);
    assert(given.owns(giver, token.book_id) == Ok::<bool, ContractError>(false));
    assert(given.book(token.book_id) is Ok);
    law_handover_moves_the_token(given, back_signers, back, token_id, giver, 0);
    law_gift_moves_no_money(given, back_signers, token_id, giver, 0);
    lemma_id_added_and_taken_out(receiver_ids, token_id);
    assert(given.owner_tokens(receiver) == Ok::<Seq<u64>, ContractError>(
        receiver_ids.push(token_id),
    ));
    assert(state.owns(giver, token.book_id) == Ok::<bool, ContractError>(true));
}

proof fn lemma_id_added_and_taken_out(ids: Seq<u64>, id: u64)
    requires
        !ids.contains(id),
    ensures
        ids_without(ids.push(id), id) == ids,
{
    reveal(Seq::filter);
    lemma_ids_without(ids, id);
    assert(ids.push(id).drop_last() =~= ids);
}

/// As long as a reader holds a copy of a book, the reader cannot buy another. Who
/// has given the copy away can: the new token has a higher id, and the first one
/// stays with its receiver.
pub proof fn law_giver_can_buy_again(
    state: LedgerState,
    signers: Seq<Address>,
    reader: Address,
    book_id: u64,
    token_id: u64,
    receiver: Address,
)
    requires
        state.sound(),
        state.holds(token_id, reader, book_id),
        state.book(book_id)->Ok_0.active,
        state.sale_terms(
            state.book(book_id)->Ok_0.publisher,
            state.book(book_id)->Ok_0.publisher,
            state.book(book_id)->Ok_0.price,
            0,
        ) is Ok,
        state.owns(receiver, book_id) == Ok::<bool, ContractError>(false),
        signers.contains(reader),
        // The counters and the receiver's list have room; the host counts the items of
        // a list in 32 bits.
        state.next_token_id()->Ok_0 < u64::MAX,
        state.book(book_id)->Ok_0.total_sales < u64::MAX,
        state.owner_tokens(reader)->Ok_0.len() <= u32::MAX,
        state.owner_tokens(receiver)->Ok_0.len() < u32::MAX,
    ensures
        ({
            let gift = Request::TransferToken { token_id, new_owner: receiver, sale_price: 0 };
            let given = state.granted(gift);
            let purchase = Request::Purchase { buyer: reader, book_id };
            let after = given.granted(purchase);
            let new_id = given.next_token_id()->Ok_0;
            &&& state.refusal(signers, purchase) == Some(ContractError::AlreadyOwned)
            &&& state.refusal(signers, gift) is None
            &&& given.refusal(signers, purchase) is None
            &&& new_id > token_id
            &&& after.holds(new_id, reader, book_id)
            &&& after.owns(reader, book_id) == Ok::<bool, ContractError>(true)
            &&& after.token(token_id) == given.token(token_id)
            &&& after.holds(token_id, receiver, book_id)
            &&& after.owns(receiver, book_id) == Ok::<bool, ContractError>(true)
        }),
{
    let gift = Request::TransferToken { token_id, new_owner: receiver, sale_price: 0 };
    let given = state.granted(gift);
    let purchase = Request::Purchase { buyer: reader, book_id };
    let reader_ids = state.owner_tokens(reader)->Ok_0;
    assert(state.owns(reader, book_id)->Ok_0);
    assert(reader_ids.contains(token_id));
    lemma_ids_are_listed(state, receiver, token_id);
    law_handover_moves_the_token(state, signers, gift, token_id, receiver, 0);
    law_granted_requests_keep_soundness(state, signers, gift);
    lemma_ids_without(reader_ids, token_id);
    assert(given.owner_tokens(reader) == Ok::<Seq<u64>, ContractError>(
        ids_without(reader_ids, token_id),
    ));
    lemma_ids_are_listed(given, reader, token_id);
    assert(given.book(book_id) == state.book(book_id));
    assert(given.platform() == state.platform());
    assert(given.fee_bps() == state.fee_bps());
    assert(given.payment_token() == state.payment_token());
    assert(given.next_token_id() == state.next_token_id());
    assert(given.owns(reader, book_id) == Ok::<bool, ContractError>(false));
    law_purchase_gives_a_token(given, signers, reader, book_id);
    law_granted_requests_keep_soundness(given, signers, purchase);
    let paid = given.with_payments(given.payments(purchase));
    assert(paid.token(token_id) == given.token(token_id));
    assert(paid.next_token_id() == given.next_token_id());
    assert(given.token(token_id)->Ok_0.owner == receiver);
    let after = given.granted(purchase);
    assert(after.token(token_id) == given.token(token_id));
    assert(after.holds(token_id, receiver, book_id));
}

/// A token is never lost, and never becomes a copy of another book. It changes
/// hands only with its owner's consent: the owner's signature, or a listing of the
/// owner's whose price is paid.
pub proof fn law_tokens_stay(
    state: LedgerState,
    signers: Seq<Address>,
    request: Request,
    id: u64,
)
    requires
        state.holdings_sound(),
        state.refusal(signers, request) is None,
        state.token(id) is Ok,
    ensures
        ({
            let before = state.token(id)->Ok_0;
            let after = state.granted(request).token(id)->Ok_0;
            let listing = state.listing(id)->Ok_0;
            &&& state.granted(request).token(id) is Ok
            &&& after.id == before.id
            &&& after.book_id == before.book_id
            &&& after.minted_at == before.minted_at
            &&& after.owner != before.owner ==> signers.contains(before.owner) || state.listing(
                id,
            ) is Ok && listing.seller == before.owner && state.price(request)
                == listing.asking_price
        }),
{
    let paid = state.with_payments(state.payments(request));
    assert(paid.token(id) == state.token(id));
    match request {
        Request::Purchase { .. } => {
            assert(state.token(state.next_token_id()->Ok_0) is Err);
            assert(paid.next_token_id() == state.next_token_id());
        },
        Request::TransferToken { token_id, new_owner, sale_price } => {
            lemma_token_reads_back(
                Token { owner: new_owner, purchase_price: sale_price, ..state.token(id)->Ok_0 },
            );
        },
        Request::BuyListing { buyer, token_id } => {
            let price = paid.listing(token_id)->Ok_0.asking_price;
            assert(paid.listing(token_id) == state.listing(token_id));
            lemma_token_reads_back(
                Token { owner: buyer, purchase_price: price, ..state.token(id)->Ok_0 },
            );
        },
        _ => {},
    }
}

/// Whoever is marked as an owner of a book holds a token of it, and the other way
/// round.
pub proof fn law_owning_is_holding(state: LedgerState, owner: Address, book_id: u64)
    requires
        state.holdings_sound(),
    ensures
        state.owns(owner, book_id) is Ok,
        state.owns(owner, book_id)->Ok_0 <==> exists|id: u64| state.holds(id, owner, book_id),
{
}

/// Nobody ever holds two copies of a book.
pub proof fn law_one_copy_per_reader(
    state: LedgerState,
    owner: Address,
    book_id: u64,
    id: u64,
    other: u64,
)
    requires
        state.holdings_sound(),
        state.holds(id, owner, book_id),
        state.holds(other, owner, book_id),
    ensures
        id == other,
{
}

/// The list of an owner has exactly the tokens of that owner, each once.
pub proof fn law_list_has_what_is_held(state: LedgerState, owner: Address, id: u64)
    requires
        state.holdings_sound(),
    ensures
        state.owner_tokens(owner) is Ok,
        state.owner_tokens(owner)->Ok_0.no_duplicates(),
        state.owner_tokens(owner)->Ok_0.contains(id) <==> state.token(id) is Ok && state.token(
            id,
        )->Ok_0.owner == owner,
        state.owner_list(owner) == Ok::<Seq<Datum>, ContractError>(
            state.owner_tokens(owner)->Ok_0.map_values(|id: u64| Datum::U64(id)),
        ),
{
    lemma_ids_are_listed(state, owner, id);
}

// The marketplace.

/// A listing is read back as it was made, and its seller stays the owner.
pub proof fn law_listing_reads_back(
    state: LedgerState,
    signers: Seq<Address>,
    seller: Address,
    token_id: u64,
    asking_price: i128,
)
    requires
        state.list_refusal(signers, seller, token_id, asking_price) is None,
    ensures
        ({
            let after = state.listed(seller, token_id, asking_price);
            &&& after.listing(token_id) == Ok::<Listing, ContractError>(
                Listing { token_id, seller, asking_price },
            )
            &&& after.token(token_id) == state.token(token_id)
            &&& state.token(token_id)->Ok_0.owner == seller
        }),
{
    lemma_listing_reads_back(Listing { token_id, seller, asking_price });
}

/// A listing comes about only with the signature of its seller, who owns the token.
pub proof fn law_listings_are_signed(
    state: LedgerState,
    signers: Seq<Address>,
    request: Request,
    id: u64,
)
    requires
        state.refusal(signers, request) is None,
        state.granted(request).listing(id) is Ok,
        state.granted(request).listing(id) != state.listing(id),
    ensures
        signers.contains(state.granted(request).listing(id)->Ok_0.seller),
        state.token(id) is Ok,
        state.token(id)->Ok_0.owner == state.granted(request).listing(id)->Ok_0.seller,
{
    match request {
        Request::ListForSale { seller, token_id, asking_price } => {
            lemma_listing_reads_back(Listing { token_id, seller, asking_price });
        },
        _ => {},
    }
}

/// Taking a listing back undoes it: where there was none before, every record is
/// what it was.
pub proof fn law_cancelling_undoes_listing(
    state: LedgerState,
    signers: Seq<Address>,
    seller: Address,
    token_id: u64,
    asking_price: i128,
)
    requires
        state.listing(token_id) == Err::<Listing, ContractError>(ContractError::ListingNotFound),
        state.list_refusal(signers, seller, token_id, asking_price) is None,
    ensures
        ({
            let listed = state.listed(seller, token_id, asking_price);
            &&& listed.cancel_refusal(signers, seller, token_id) is None
            &&& listed.unlisted(seller, token_id).instance == state.instance
            &&& listed.unlisted(seller, token_id).persistent == state.persistent
        }),
{
    lemma_listing_reads_back(Listing { token_id, seller, asking_price });
    let key = DataKey::Listing(token_id);
    assert(state.entry(key) is None);
    assert(state.listed(seller, token_id, asking_price).unlisted(seller, token_id).persistent
        =~= state.persistent);
}

/// A listing can be fulfilled only once: it is gone when the token is sold.
pub proof fn law_listing_is_sold_once(
    state: LedgerState,
    signers: Seq<Address>,
    buyer: Address,
    token_id: u64,
    other_signers: Seq<Address>,
    other: Address,
)
    requires
        state.buy_refusal(signers, buyer, token_id) is None,
        other_signers.contains(other),
    ensures
        ({
            let after = state.granted(Request::BuyListing { buyer, token_id });
            &&& after.listing(token_id) == Err::<Listing, ContractError>(
                ContractError::ListingNotFound,
            )
            &&& after.buy_refusal(other_signers, other, token_id) == Some(
                ContractError::ListingNotFound,
            )
        }),
{
}

/// A listing whose token has been handed over directly cannot be fulfilled.
pub proof fn law_transfer_voids_the_listing(
    state: LedgerState,
    signers: Seq<Address>,
    token_id: u64,
    new_owner: Address,
    sale_price: i128,
    other_signers: Seq<Address>,
    buyer: Address,
)
    requires
        state.holdings_sound(),
        state.transfer_refusal(signers, token_id, new_owner, sale_price) is None,
        state.listing(token_id) is Ok,
        state.listing(token_id)->Ok_0.seller == state.token(token_id)->Ok_0.owner,
        other_signers.contains(buyer),
        buyer != state.listing(token_id)->Ok_0.seller,
    ensures
        state.granted(
            Request::TransferToken { token_id, new_owner, sale_price },
        ).buy_refusal(other_signers, buyer, token_id) == Some(ContractError::ListingOutdated),
{
    let request = Request::TransferToken { token_id, new_owner, sale_price };
    law_handover_moves_the_token(state, signers, request, token_id, new_owner, sale_price);
    let after = state.granted(request);
    assert(after.listing(token_id) == state.listing(token_id));
}

/// Nobody gets a second copy of a book: not by purchase, nor by transfer, nor on
/// the marketplace.
pub proof fn law_second_copy_is_refused(
    state: LedgerState,
    signers: Seq<Address>,
    reader: Address,
    token_id: u64,
    sale_price: i128,
)
    requires
        state.sound(),
        state.token(token_id) is Ok,
        state.owns(reader, state.token(token_id)->Ok_0.book_id) == Ok::<bool, ContractError>(true),
        signers.contains(reader),
        signers.contains(state.token(token_id)->Ok_0.owner),
    ensures
        ({
            let token = state.token(token_id)->Ok_0;
            let listing = state.listing(token_id);
            &&& state.purchase_refusal(signers, reader, token.book_id) == Some(
                if state.book(token.book_id)->Ok_0.active {
                    ContractError::AlreadyOwned
                } else {
                    ContractError::BookNotAvailable
                },
            )
            &&& state.transfer_refusal(signers, token_id, reader, sale_price) == Some(
                ContractError::RecipientAlreadyOwns,
            )
            &&& state.buy_refusal(signers, reader, token_id) == Some(
                if listing is Err {
                    ContractError::ListingNotFound
                } else if listing->Ok_0.seller == reader {
                    ContractError::OwnListing
                } else if listing->Ok_0.seller != token.owner {
                    ContractError::ListingOutdated
                } else {
                    ContractError::AlreadyOwned
                },
            )
        }),
{
    let token = state.token(token_id)->Ok_0;
    let book = state.book(token.book_id);
    let listing = state.listing(token_id);
}

} // verus!
