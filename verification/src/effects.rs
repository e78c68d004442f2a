//! What each request changes, told by what can be read afterwards.
//!
//! Each law names every entry that a granted request writes and what is read of it
//! afterwards; every other entry reads as before. It also tells which event is
//! published and which payments are on record.

use soroban_sdk::Address;
use vstd::prelude::*;

use crate::contract::{HandoverOrder, PurchaseOrder};
use crate::host::{Announcement, Datum, LedgerState, Payment, TransferCall};
use crate::layout::{
    lemma_book_reads_back, lemma_ids_read_back, lemma_listing_reads_back, lemma_token_reads_back,
};
use crate::ledger::{group_ledger_entries, lemma_ids_are_listed};
use crate::rules::ids_without;
use crate::settlement::{
    lemma_entry_of_with_payments, settles, share_fits, share_of, SaleTerms,
};
use crate::types::{Book, ContractError, DataKey, Listing, Token};

verus! {

broadcast use {group_ledger_entries, lemma_entry_of_with_payments};

// Administration.

/// A contract that was initialised has the platform and the fee that were given, and
/// counts books and tokens from nought.
pub proof fn law_initialising_sets_platform_and_fee(
    state: LedgerState,
    signers: Seq<Address>,
    platform: Address,
    fee_bps: u32,
)
    requires
        state.initialise_refusal(signers, platform, fee_bps) is None,
    ensures
        ({
            let after = state.initialised(platform, fee_bps);
            &&& after.platform() == Ok::<Address, ContractError>(platform)
            &&& after.fee_bps() == Ok::<u32, ContractError>(fee_bps)
            &&& after.next_book_id() == Ok::<u64, ContractError>(0)
            &&& after.next_token_id() == Ok::<u64, ContractError>(0)
            &&& forall|key: DataKey|
                key != DataKey::Platform && key != DataKey::PlatformFeeBps && key
                    != DataKey::NextBookId && key != DataKey::NextTokenId ==> #[trigger] after.entry(
                    key,
                ) == state.entry(key)
            &&& after.transfers == state.transfers
            &&& after.events == state.events
            &&& after.sequence == state.sequence
        }),
{
}

/// The asset that sales settle in is the one set last.
pub proof fn law_payment_token_is_the_one_set(state: LedgerState, payment_token: Address)
    ensures
        ({
            let after = state.with_entry(DataKey::PaymentToken, Datum::Account(payment_token));
            &&& after.payment_token() == Ok::<Address, ContractError>(payment_token)
            &&& forall|key: DataKey|
                key != DataKey::PaymentToken ==> #[trigger] after.entry(key) == state.entry(key)
            &&& after.transfers == state.transfers
            &&& after.events == state.events
            &&& after.sequence == state.sequence
        }),
{
}

// Books.

/// A registered book reads as it was given, on sale and unsold, under the next id.
pub proof fn law_registering_adds_the_book(
    state: LedgerState,
    signers: Seq<Address>,
    publisher: Address,
    price: i128,
    royalty_bps: u32,
    arweave_tx_id: soroban_sdk::String,
    title: soroban_sdk::String,
)
    requires
        state.register_refusal(signers, publisher, price, royalty_bps) is None,
    ensures
        ({
            let after = state.registered(publisher, price, royalty_bps, arweave_tx_id, title);
            let id = state.next_book_id()->Ok_0;
            let book = after.book(id)->Ok_0;
            &&& after.book(id) is Ok
            &&& book.id == id
            &&& book.publisher == publisher
            &&& book.price == price
            &&& book.royalty_bps == royalty_bps
            &&& book.arweave_tx_id == arweave_tx_id
            &&& book.title == title
            &&& book.active
            &&& book.total_sales == 0
            &&& after.next_book_id() is Ok
            &&& after.next_book_id()->Ok_0 == id + 1
            &&& forall|key: DataKey|
                key != DataKey::Book(id) && key != DataKey::NextBookId ==> #[trigger] after.entry(
                    key,
                ) == state.entry(key)
            &&& after.transfers == state.transfers
            &&& after.events == state.events.push(
                Announcement {
                    topic: "reg_book"@,
                    data: Datum::List(seq![Datum::U64(id), Datum::Account(publisher)]),
                },
            )
            &&& after.sequence == state.sequence
        }),
{
    lemma_book_reads_back(
        Book {
            id: state.next_book_id()->Ok_0,
            publisher,
            price,
            royalty_bps,
            arweave_tx_id,
            title,
            active: true,
            total_sales: 0,
        },
    );
}

/// After an update the book's content lies where the creator said, whatever the book
/// has been through; nothing else of the book has changed, nor any other record.
pub proof fn law_update_moves_the_content(
    state: LedgerState,
    book_id: u64,
    arweave_tx_id: soroban_sdk::String,
)
    requires
        state.book(book_id) is Ok,
    ensures
        ({
            let after = state.arweave_tx_updated(book_id, arweave_tx_id);
            let before_book = state.book(book_id)->Ok_0;
            let book = after.book(book_id)->Ok_0;
            &&& after.book(book_id) is Ok
            &&& book.arweave_tx_id == arweave_tx_id
            &&& book.id == before_book.id
            &&& book.publisher == before_book.publisher
            &&& book.price == before_book.price
            &&& book.royalty_bps == before_book.royalty_bps
            &&& book.title == before_book.title
            &&& book.active == before_book.active
            &&& book.total_sales == before_book.total_sales
            &&& forall|key: DataKey|
                key != DataKey::Book(book_id) ==> #[trigger] after.entry(key) == state.entry(key)
            &&& after.transfers == state.transfers
            &&& after.events == state.events.push(
                Announcement {
                    topic: "upd_tx"@,
                    data: Datum::List(seq![Datum::U64(book_id)]),
                },
            )
            &&& after.sequence == state.sequence
        }),
{
    lemma_book_reads_back(Book { arweave_tx_id, ..state.book(book_id)->Ok_0 });
}

/// A deactivated book is off sale; nothing else of it has changed, nor any other
/// record, and nothing is announced.
pub proof fn law_deactivation_ends_the_sale(state: LedgerState, book_id: u64)
    requires
        state.book(book_id) is Ok,
    ensures
        ({
            let after = state.deactivated(book_id);
            let before_book = state.book(book_id)->Ok_0;
            let book = after.book(book_id)->Ok_0;
            &&& after.book(book_id) is Ok
            &&& !book.active
            &&& book.id == before_book.id
            &&& book.publisher == before_book.publisher
            &&& book.price == before_book.price
            &&& book.royalty_bps == before_book.royalty_bps
            &&& book.arweave_tx_id == before_book.arweave_tx_id
            &&& book.title == before_book.title
            &&& book.total_sales == before_book.total_sales
            &&& forall|key: DataKey|
                key != DataKey::Book(book_id) ==> #[trigger] after.entry(key) == state.entry(key)
            &&& after.transfers == state.transfers
            &&& after.events == state.events
            &&& after.sequence == state.sequence
        }),
{
    lemma_book_reads_back(Book { active: false, ..state.book(book_id)->Ok_0 });
}

// Shares and payments.

/// A share of an amount is the largest number of units that ten thousand times over
/// is no more than the amount times the points; of a negative amount, it is the
/// share of the opposite amount, taken away.
pub proof fn law_share_is_the_floor(amount: int, bps: int)
    requires
        bps >= 0,
    ensures
        amount >= 0 ==> {
            let share = share_of(amount, bps);
            share * 10_000 <= amount * bps && amount * bps < (share + 1) * 10_000
        },
        amount < 0 ==> {
            let share = -share_of(amount, bps);
            share * 10_000 <= -(amount * bps) && -(amount * bps) < (share + 1) * 10_000
        },
{
    assert(-amount * bps == -(amount * bps)) by (nonlinear_arith);
}

/// A share can be computed of exactly those amounts whose product with the points is
/// an amount.
pub proof fn law_share_needs_room(amount: i128, bps: u32)
    ensures
        share_fits(amount, bps) <==> -0x8000_0000_0000_0000_0000_0000_0000_0000 <= amount * bps
            <= 0x7fff_ffff_ffff_ffff_ffff_ffff_ffff_ffff,
{
}

/// The terms of a sale: the creator's royalty is the royalty points of the price, the
/// platform's fee is the platform's points of it, both rounded down, and the seller
/// gets what is left.
pub proof fn law_terms_split_the_price(
    state: LedgerState,
    seller: Address,
    publisher: Address,
    total: i128,
    royalty_bps: u32,
)
    requires
        state.sale_terms(seller, publisher, total, royalty_bps) is Ok,
    ensures
        ({
            let terms = state.sale_terms(seller, publisher, total, royalty_bps)->Ok_0;
            let fee_bps = state.fee_bps()->Ok_0;
            let royalty = terms.royalty_amount;
            let fee = terms.platform_amount;
            &&& royalty * 10_000 <= total * royalty_bps < (royalty + 1) * 10_000
            &&& fee * 10_000 <= total * fee_bps < (fee + 1) * 10_000
            &&& terms.seller_amount == total - royalty - fee
            &&& royalty >= 0 && fee >= 0 && terms.seller_amount >= 0
            &&& terms.seller == seller
            &&& terms.publisher == publisher
            &&& state.platform() == Ok::<Address, ContractError>(terms.platform)
            &&& state.payment_token() == Ok::<Address, ContractError>(terms.asset)
        }),
{
    let fee_bps = state.fee_bps()->Ok_0;
    assert(total * royalty_bps >= 0) by (nonlinear_arith)
        requires
            total > 0,
    ;
    assert(total * fee_bps >= 0) by (nonlinear_arith)
        requires
            total > 0,
    ;
}

/// What is paid of a sale: first the royalty to the creator, then the fee to the
/// platform, then the rest to the seller, each by the payer, each unless it is
/// nought.
pub proof fn law_sale_is_paid_in_three(terms: SaleTerms, payer: Address)
    requires
        terms.royalty_amount >= 0,
        terms.platform_amount >= 0,
        terms.seller_amount >= 0,
    ensures
        ({
            let payments = terms.payments(payer);
            let fee_at: int = if terms.royalty_amount == 0 {
                0
            } else {
                1
            };
            let rest_at: int = fee_at + if terms.platform_amount == 0 {
                0int
            } else {
                1int
            };
            &&& payments.len() == rest_at + if terms.seller_amount == 0 {
                0int
            } else {
                1int
            }
            &&& terms.royalty_amount != 0 ==> payments[0] == (Payment {
                asset: terms.asset,
                from: payer,
                to: terms.publisher,
                amount: terms.royalty_amount,
            })
            &&& terms.platform_amount != 0 ==> payments[fee_at] == (Payment {
                asset: terms.asset,
                from: payer,
                to: terms.platform,
                amount: terms.platform_amount,
            })
            &&& terms.seller_amount != 0 ==> payments[rest_at] == (Payment {
                asset: terms.asset,
                from: payer,
                to: terms.seller,
                amount: terms.seller_amount,
            })
        }),
{
}

/// Payments that were all granted are on record in their order, behind those before;
/// they change nothing else.
pub proof fn law_payments_are_on_record(state: LedgerState, payments: Seq<Payment>)
    ensures
        ({
            let after = state.with_payments(payments);
            &&& after.transfers.len() == state.transfers.len() + payments.len()
            &&& forall|i: int|
                0 <= i < state.transfers.len() ==> #[trigger] after.transfers[i]
                    == state.transfers[i]
            &&& forall|i: int|
                0 <= i < payments.len() ==> #[trigger] after.transfers[state.transfers.len() + i]
                    == (TransferCall { payment: payments[i], accepted: true })
            &&& after.instance == state.instance
            &&& after.persistent == state.persistent
            &&& after.events == state.events
            &&& after.sequence == state.sequence
        }),
{
}

/// A settlement has either made every payment, or made some of them, in order, up to
/// one that was refused.
pub proof fn law_settlement_is_on_record(
    before: LedgerState,
    payments: Seq<Payment>,
    after: LedgerState,
    paid: bool,
)
    requires
        settles(before, payments, after, paid),
    ensures
        after.instance == before.instance,
        after.persistent == before.persistent,
        after.events == before.events,
        after.sequence == before.sequence,
        ({
            let made = after.transfers.len() - before.transfers.len();
            &&& paid ==> made == payments.len()
            &&& !paid ==> 1 <= made <= payments.len()
            &&& forall|i: int|
                0 <= i < before.transfers.len() ==> #[trigger] after.transfers[i]
                    == before.transfers[i]
            &&& forall|i: int|
                0 <= i < made ==> #[trigger] after.transfers[before.transfers.len() + i] == (
                TransferCall { payment: payments[i], accepted: paid || i < made - 1 })
        }),
{
    if !paid {
        let refused = choose|refused: int|
            0 <= refused < payments.len() && after == before.with_payments(
                payments.take(refused),
            ).with_transfer(#[trigger] payments[refused], false);
        assert(after == before.with_payments(payments.take(refused)).with_transfer(
            payments[refused],
            false,
        ));
    }
}

// Purchases.

/// A purchase gives the buyer a new token under the next id, minted now at the price
/// of the book, marks the buyer as an owner, adds the token to the buyer's list and
/// counts the sale.
pub proof fn law_purchase_mints_a_token(
    state: LedgerState,
    signers: Seq<Address>,
    buyer: Address,
    book_id: u64,
)
    requires
        state.purchase_refusal(signers, buyer, book_id) is None,
    ensures
        ({
            let after = state.with_payments(state.purchase_payments(buyer, book_id)).purchased(
                buyer,
                book_id,
            );
            let before_book = state.book(book_id)->Ok_0;
            let book = after.book(book_id)->Ok_0;
            let id = state.next_token_id()->Ok_0;
            let token = after.token(id)->Ok_0;
            &&& after.token(id) is Ok
            &&& token.id == id
            &&& token.book_id == book_id
            &&& token.owner == buyer
            &&& token.minted_at == state.sequence
            &&& token.purchase_price == before_book.price
            &&& after.owns(buyer, book_id) == Ok::<bool, ContractError>(true)
            &&& after.owner_list(buyer) == Ok::<Seq<Datum>, ContractError>(
                state.owner_list(buyer)->Ok_0.push(Datum::U64(id)),
            )
            &&& after.next_token_id() is Ok
            &&& after.next_token_id()->Ok_0 == id + 1
            &&& after.book(book_id) is Ok
            &&& book.total_sales == before_book.total_sales + 1
            &&& book.id == before_book.id
            &&& book.publisher == before_book.publisher
            &&& book.price == before_book.price
            &&& book.royalty_bps == before_book.royalty_bps
            &&& book.arweave_tx_id == before_book.arweave_tx_id
            &&& book.title == before_book.title
            &&& book.active == before_book.active
            &&& forall|key: DataKey|
                key != DataKey::Token(id) && key != DataKey::Ownership(buyer, book_id) && key
                    != DataKey::OwnerTokens(buyer) && key != DataKey::NextTokenId && key
                    != DataKey::Book(book_id) ==> #[trigger] after.entry(key) == state.entry(key)
            &&& after.events == state.events.push(
                Announcement {
                    topic: "purchase"@,
                    data: Datum::List(
                        seq![Datum::U64(id), Datum::U64(book_id), Datum::Account(buyer)],
                    ),
                },
            )
            &&& after.sequence == state.sequence
        }),
{
    let paid = state.with_payments(state.purchase_payments(buyer, book_id));
    let book = state.book(book_id)->Ok_0;
    let id = state.next_token_id()->Ok_0;
    assert(paid.book(book_id) == state.book(book_id));
    assert(paid.owner_list(buyer) == state.owner_list(buyer));
    assert(paid.next_token_id() == state.next_token_id());
    lemma_book_reads_back(Book { total_sales: (book.total_sales + 1) as u64, ..book });
    lemma_token_reads_back(
        Token { id, book_id, owner: buyer, minted_at: state.sequence, purchase_price: book.price },
    );
}

/// A purchase costs the price of the book: the platform's points of it, rounded down,
/// go to the platform, and all the rest to the creator.
pub proof fn law_purchase_pays_platform_and_creator(
    state: LedgerState,
    signers: Seq<Address>,
    buyer: Address,
    book_id: u64,
)
    requires
        state.purchase_refusal(signers, buyer, book_id) is None,
    ensures
        ({
            let after = state.with_payments(state.purchase_payments(buyer, book_id)).purchased(
                buyer,
                book_id,
            );
            let book = state.book(book_id)->Ok_0;
            let asset = state.payment_token()->Ok_0;
            let fee = book.price * state.fee_bps()->Ok_0 / 10_000;
            let to_platform = TransferCall {
                payment: Payment {
                    asset,
                    from: buyer,
                    to: state.platform()->Ok_0,
                    amount: fee as i128,
                },
                accepted: true,
            };
            let to_creator = TransferCall {
                payment: Payment {
                    asset,
                    from: buyer,
                    to: book.publisher,
                    amount: (book.price - fee) as i128,
                },
                accepted: true,
            };
            &&& 0 <= fee <= book.price
            &&& after.transfers == state.transfers + (if fee == 0 {
                seq![to_creator]
            } else if fee == book.price {
                seq![to_platform]
            } else {
                seq![to_platform, to_creator]
            })
        }),
{
    let book = state.book(book_id)->Ok_0;
    let fee_bps = state.fee_bps()->Ok_0;
    assert(book.price * fee_bps >= 0) by (nonlinear_arith)
        requires
            book.price > 0,
    ;
    assert(share_of(book.price as int, 0) == 0);
    let after = state.with_payments(state.purchase_payments(buyer, book_id)).purchased(
        buyer,
        book_id,
    );
    assert(after.transfers == state.with_payments(
        state.purchase_payments(buyer, book_id),
    ).transfers);
}

/// An order that is carried out mints its token as a purchase does.
pub proof fn law_order_mints_its_token(state: LedgerState, order: PurchaseOrder)
    requires
        order.obstacle(state) is None,
    ensures
        ({
            let after = order.carried_out(state);
            let id = order.token_id;
            let token = after.token(id)->Ok_0;
            let book = after.book(order.book_id)->Ok_0;
            &&& after.token(id) is Ok
            &&& token.id == id
            &&& token.book_id == order.book_id
            &&& token.owner == order.buyer
            &&& token.minted_at == state.sequence
            &&& token.purchase_price == order.book.price
            &&& after.owns(order.buyer, order.book_id) == Ok::<bool, ContractError>(true)
            &&& after.owner_list(order.buyer) == Ok::<Seq<Datum>, ContractError>(
                state.owner_list(order.buyer)->Ok_0.push(Datum::U64(id)),
            )
            &&& after.next_token_id() is Ok
            &&& after.next_token_id()->Ok_0 == id + 1
            &&& after.book(order.book_id) is Ok
            &&& book.total_sales == order.book.total_sales + 1
            &&& book.id == order.book.id
            &&& book.publisher == order.book.publisher
            &&& book.price == order.book.price
            &&& book.royalty_bps == order.book.royalty_bps
            &&& book.arweave_tx_id == order.book.arweave_tx_id
            &&& book.title == order.book.title
            &&& book.active == order.book.active
            &&& forall|key: DataKey|
                key != DataKey::Token(id) && key != DataKey::Ownership(order.buyer, order.book_id)
                    && key != DataKey::OwnerTokens(order.buyer) && key != DataKey::NextTokenId
                    && key != DataKey::Book(order.book_id) ==> #[trigger] after.entry(key)
                    == state.entry(key)
            &&& after.transfers == state.transfers
            &&& after.events == state.events.push(
                Announcement {
                    topic: "purchase"@,
                    data: Datum::List(
                        seq![
                            Datum::U64(id),
                            Datum::U64(order.book_id),
                            Datum::Account(order.buyer),
                        ],
                    ),
                },
            )
            &&& after.sequence == state.sequence
        }),
{
    lemma_book_reads_back(
        Book { total_sales: (order.book.total_sales + 1) as u64, ..order.book },
    );
    lemma_token_reads_back(
        Token {
            id: order.token_id,
            book_id: order.book_id,
            owner: order.buyer,
            minted_at: state.sequence,
            purchase_price: order.book.price,
        },
    );
}

// Changes of owner.

/// Taking an id out of a list goes through it from one end to the other, drops every
/// occurrence of that id and keeps all else in its order.
pub proof fn law_taking_an_id_out(ids: Seq<u64>, id: u64, last: u64)
    ensures
        ids_without(Seq::<u64>::empty(), id) == Seq::<u64>::empty(),
        ids_without(ids.push(id), id) == ids_without(ids, id),
        last != id ==> ids_without(ids.push(last), id) == ids_without(ids, id).push(last),
{
    reveal(Seq::filter);
    assert(ids.push(id).drop_last() =~= ids);
    assert(ids.push(last).drop_last() =~= ids);
}

/// A token that is handed over is the new owner's at the price, and otherwise what it
/// was. The new owner is marked as an owner and the old one no longer; the token
/// leaves the list of the one and goes to the end of the list of the other.
pub proof fn law_handover(
    state: LedgerState,
    token_id: u64,
    token: Token,
    new_owner: Address,
    price: i128,
)
    requires
        state.handover_refusal(token.owner, token_id, new_owner) is None,
    ensures
        ({
            let after = state.handed_over(token_id, token, new_owner, price);
            let old_owner = token.owner;
            let handed = after.token(token_id)->Ok_0;
            let kept = ids_without(state.owner_tokens(old_owner)->Ok_0, token_id);
            &&& after.token(token_id) is Ok
            &&& handed.owner == new_owner
            &&& handed.purchase_price == price
            &&& handed.id == token.id
            &&& handed.book_id == token.book_id
            &&& handed.minted_at == token.minted_at
            &&& after.owns(new_owner, token.book_id) == Ok::<bool, ContractError>(true)
            &&& new_owner != old_owner ==> {
                &&& after.owns(old_owner, token.book_id) == Ok::<bool, ContractError>(false)
                &&& after.owner_tokens(old_owner) == Ok::<Seq<u64>, ContractError>(kept)
                &&& after.owner_list(new_owner) == Ok::<Seq<Datum>, ContractError>(
                    state.owner_list(new_owner)->Ok_0.push(Datum::U64(token_id)),
                )
            }
            &&& new_owner == old_owner ==> after.owner_tokens(new_owner) == Ok::<
                Seq<u64>,
                ContractError,
            >(kept.push(token_id))
            &&& forall|key: DataKey|
                key != DataKey::Token(token_id) && key != DataKey::Ownership(
                    old_owner,
                    token.book_id,
                ) && key != DataKey::Ownership(new_owner, token.book_id) && key
                    != DataKey::OwnerTokens(old_owner) && key != DataKey::OwnerTokens(new_owner)
                    ==> #[trigger] after.entry(key) == state.entry(key)
            &&& after.transfers == state.transfers
            &&& after.events == state.events
            &&& after.sequence == state.sequence
        }),
{
    let kept = ids_without(state.owner_tokens(token.owner)->Ok_0, token_id);
    let halfway = state.with_ownership(token.owner, token.book_id, false).with_ownership(
        new_owner,
        token.book_id,
        true,
    ).with_owner_tokens(token.owner, kept);
    lemma_token_reads_back(Token { owner: new_owner, purchase_price: price, ..token });
    lemma_ids_read_back(kept);
    if new_owner == token.owner {
        assert(halfway.owner_tokens(new_owner) == Ok::<Seq<u64>, ContractError>(kept));
        lemma_ids_are_listed(halfway, new_owner, token_id);
        lemma_ids_read_back(kept.push(token_id));
    } else {
        assert(halfway.owner_list(new_owner) == state.owner_list(new_owner));
    }
}

/// An order to hand a token over that is carried out does just that.
pub proof fn law_order_hands_over(state: LedgerState, order: HandoverOrder)
    ensures
        order.carried_out(state) == state.handed_over(
            order.token_id,
            order.token,
            order.new_owner,
            order.price,
        ),
{
}

/// A direct transfer hands the token over at the price that was named, and does not
/// touch a listing of it. It announces both owners and what was paid to whom.
pub proof fn law_transfer_hands_over(
    state: LedgerState,
    signers: Seq<Address>,
    token_id: u64,
    new_owner: Address,
    sale_price: i128,
)
    requires
        state.transfer_refusal(signers, token_id, new_owner, sale_price) is None,
    ensures
        ({
            let after = state.with_payments(
                state.transfer_payments(token_id, new_owner, sale_price),
            ).transferred(token_id, new_owner, sale_price);
            let token = state.token(token_id)->Ok_0;
            let book = state.book(token.book_id)->Ok_0;
            let old_owner = token.owner;
            let handed = after.token(token_id)->Ok_0;
            let kept = ids_without(state.owner_tokens(old_owner)->Ok_0, token_id);
            let royalty = if sale_price > 0 {
                sale_price * book.royalty_bps / 10_000
            } else {
                0
            };
            let fee = if sale_price > 0 {
                sale_price * state.fee_bps()->Ok_0 / 10_000
            } else {
                0
            };
            let rest = if sale_price > 0 {
                sale_price - royalty - fee
            } else {
                0
            };
            &&& after.token(token_id) is Ok
            &&& handed.owner == new_owner
            &&& handed.purchase_price == sale_price
            &&& handed.id == token.id
            &&& handed.book_id == token.book_id
            &&& handed.minted_at == token.minted_at
            &&& after.owns(new_owner, token.book_id) == Ok::<bool, ContractError>(true)
            &&& new_owner != old_owner ==> {
                &&& after.owns(old_owner, token.book_id) == Ok::<bool, ContractError>(false)
                &&& after.owner_tokens(old_owner) == Ok::<Seq<u64>, ContractError>(kept)
                &&& after.owner_list(new_owner) == Ok::<Seq<Datum>, ContractError>(
                    state.owner_list(new_owner)->Ok_0.push(Datum::U64(token_id)),
                )
            }
            &&& new_owner == old_owner ==> after.owner_tokens(new_owner) == Ok::<
                Seq<u64>,
                ContractError,
            >(kept.push(token_id))
            &&& forall|key: DataKey|
                key != DataKey::Token(token_id) && key != DataKey::Ownership(
                    old_owner,
                    token.book_id,
                ) && key != DataKey::Ownership(new_owner, token.book_id) && key
                    != DataKey::OwnerTokens(old_owner) && key != DataKey::OwnerTokens(new_owner)
                    ==> #[trigger] after.entry(key) == state.entry(key)
            &&& after.events == state.events.push(
                Announcement {
                    topic: "transfer"@,
                    data: Datum::List(
                        seq![
                            Datum::U64(token_id),
                            Datum::Account(old_owner),
                            Datum::Account(new_owner),
                            Datum::I128(royalty as i128),
                            Datum::I128(fee as i128),
                            Datum::I128(rest as i128),
                        ],
                    ),
                },
            )
            &&& after.sequence == state.sequence
        }),
{
    let paid = state.with_payments(state.transfer_payments(token_id, new_owner, sale_price));
    let token = state.token(token_id)->Ok_0;
    let book = state.book(token.book_id)->Ok_0;
    assert(paid.token(token_id) == state.token(token_id));
    assert(paid.book(token.book_id) == state.book(token.book_id));
    assert(paid.owner_tokens(token.owner) == state.owner_tokens(token.owner));
    assert(paid.owner_list(new_owner) == state.owner_list(new_owner));
    assert(paid.sale_terms(token.owner, book.publisher, sale_price, book.royalty_bps)
        == state.sale_terms(token.owner, book.publisher, sale_price, book.royalty_bps));
    law_handover(paid, token_id, token, new_owner, sale_price);
    let handed_over = paid.handed_over(token_id, token, new_owner, sale_price);
    let after = paid.transferred(token_id, new_owner, sale_price);
    assert forall|key: DataKey| #[trigger] after.entry(key) == handed_over.entry(key) by {}
    assert(after.owner_tokens(token.owner) == handed_over.owner_tokens(token.owner));
    assert(after.owner_tokens(new_owner) == handed_over.owner_tokens(new_owner));
    assert(after.owner_list(new_owner) == handed_over.owner_list(new_owner));
    assert(after.token(token_id) == handed_over.token(token_id));
    assert(after.owns(token.owner, token.book_id) == handed_over.owns(token.owner, token.book_id));
    assert(after.owns(new_owner, token.book_id) == handed_over.owns(new_owner, token.book_id));
}

/// A listing that is bought hands the token over at the asking price and is gone. It
/// announces both owners and the price.
pub proof fn law_buying_hands_over(
    state: LedgerState,
    signers: Seq<Address>,
    buyer: Address,
    token_id: u64,
)
    requires
        state.buy_refusal(signers, buyer, token_id) is None,
    ensures
        ({
            let after = state.with_payments(state.buy_payments(buyer, token_id)).bought(
                buyer,
                token_id,
            );
            let token = state.token(token_id)->Ok_0;
            let seller = state.listing(token_id)->Ok_0.seller;
            let price = state.listing(token_id)->Ok_0.asking_price;
            let handed = after.token(token_id)->Ok_0;
            &&& after.token(token_id) is Ok
            &&& handed.owner == buyer
            &&& handed.purchase_price == price
            &&& handed.id == token.id
            &&& handed.book_id == token.book_id
            &&& handed.minted_at == token.minted_at
            &&& after.owns(buyer, token.book_id) == Ok::<bool, ContractError>(true)
            &&& after.owns(seller, token.book_id) == Ok::<bool, ContractError>(false)
            &&& after.owner_tokens(seller) == Ok::<Seq<u64>, ContractError>(
                ids_without(state.owner_tokens(seller)->Ok_0, token_id),
            )
            &&& after.owner_list(buyer) == Ok::<Seq<Datum>, ContractError>(
                state.owner_list(buyer)->Ok_0.push(Datum::U64(token_id)),
            )
            &&& after.entry(DataKey::Listing(token_id)) is None
            &&& forall|key: DataKey|
                key != DataKey::Token(token_id) && key != DataKey::Listing(token_id) && key
                    != DataKey::Ownership(seller, token.book_id) && key != DataKey::Ownership(
                    buyer,
                    token.book_id,
                ) && key != DataKey::OwnerTokens(seller) && key != DataKey::OwnerTokens(buyer)
                    ==> #[trigger] after.entry(key) == state.entry(key)
            &&& after.events == state.events.push(
                Announcement {
                    topic: "sold"@,
                    data: Datum::List(
                        seq![
                            Datum::U64(token_id),
                            Datum::Account(seller),
                            Datum::Account(buyer),
                            Datum::I128(price),
                        ],
                    ),
                },
            )
            &&& after.sequence == state.sequence
        }),
{
    let paid = state.with_payments(state.buy_payments(buyer, token_id));
    let token = state.token(token_id)->Ok_0;
    let price = state.listing(token_id)->Ok_0.asking_price;
    assert(paid.token(token_id) == state.token(token_id));
    assert(paid.listing(token_id) == state.listing(token_id));
    assert(paid.owner_tokens(token.owner) == state.owner_tokens(token.owner));
    assert(paid.owner_list(buyer) == state.owner_list(buyer));
    law_handover(paid, token_id, token, buyer, price);
    let handed_over = paid.handed_over(token_id, token, buyer, price);
    let after = paid.bought(buyer, token_id);
    assert forall|key: DataKey| key != DataKey::Listing(token_id) implies #[trigger] after.entry(
        key,
    ) == handed_over.entry(key) by {}
    assert(after.owner_tokens(token.owner) == handed_over.owner_tokens(token.owner));
    assert(after.owner_list(buyer) == handed_over.owner_list(buyer));
    assert(after.token(token_id) == handed_over.token(token_id));
    assert(after.owns(token.owner, token.book_id) == handed_over.owns(token.owner, token.book_id));
    assert(after.owns(buyer, token.book_id) == handed_over.owns(buyer, token.book_id));
}

proof fn lemma_sale_is_on_record(
    state: LedgerState,
    seller: Address,
    publisher: Address,
    price: i128,
    royalty_bps: u32,
    payer: Address,
)
    requires
        state.sale_terms(seller, publisher, price, royalty_bps) is Ok,
    ensures
        ({
            let payments = state.sale_terms(
                seller,
                publisher,
                price,
                royalty_bps,
            )->Ok_0.payments(payer);
            let asset = state.payment_token()->Ok_0;
            let royalty = price * royalty_bps / 10_000;
            let fee = price * state.fee_bps()->Ok_0 / 10_000;
            let rest = price - royalty - fee;
            let paid = |to: Address, amount: int|
                if amount > 0 {
                    seq![
                        TransferCall {
                            payment: Payment { asset, from: payer, to, amount: amount as i128 },
                            accepted: true,
                        },
                    ]
                } else {
                    Seq::empty()
                };
            &&& royalty >= 0 && fee >= 0 && rest >= 0
            &&& state.with_payments(payments).transfers == state.transfers + paid(
                publisher,
                royalty,
            ) + paid(state.platform()->Ok_0, fee) + paid(seller, rest)
        }),
{
    let fee_bps = state.fee_bps()->Ok_0;
    assert(price * royalty_bps >= 0) by (nonlinear_arith)
        requires
            price > 0,
    ;
    assert(price * fee_bps >= 0) by (nonlinear_arith)
        requires
            price > 0,
    ;
}

/// What a direct transfer pays: of the price that was named, the royalty points go to
/// the creator and the platform's points to the platform, both rounded down, and the
/// rest to the old owner, all out of the new owner's hands. A gift pays nothing.
pub proof fn law_transfer_pays_three(
    state: LedgerState,
    signers: Seq<Address>,
    token_id: u64,
    new_owner: Address,
    sale_price: i128,
)
    requires
        state.transfer_refusal(signers, token_id, new_owner, sale_price) is None,
    ensures
        ({
            let after = state.with_payments(
                state.transfer_payments(token_id, new_owner, sale_price),
            ).transferred(token_id, new_owner, sale_price);
            let token = state.token(token_id)->Ok_0;
            let book = state.book(token.book_id)->Ok_0;
            let asset = state.payment_token()->Ok_0;
            let price = sale_price;
            let royalty = price * book.royalty_bps / 10_000;
            let fee = price * state.fee_bps()->Ok_0 / 10_000;
            let rest = price - royalty - fee;
            let paid = |to: Address, amount: int|
                if amount > 0 {
                    seq![
                        TransferCall {
                            payment: Payment { asset, from: new_owner, to, amount: amount as i128 },
                            accepted: true,
                        },
                    ]
                } else {
                    Seq::empty()
                };
            &&& price <= 0 ==> after.transfers == state.transfers
            &&& price > 0 ==> royalty >= 0 && fee >= 0 && rest >= 0 && after.transfers
                == state.transfers + paid(book.publisher, royalty) + paid(
                state.platform()->Ok_0,
                fee,
            ) + paid(token.owner, rest)
        }),
{
    let token = state.token(token_id)->Ok_0;
    let book = state.book(token.book_id)->Ok_0;
    if sale_price > 0 {
        lemma_sale_is_on_record(
            state,
            token.owner,
            book.publisher,
            sale_price,
            book.royalty_bps,
            new_owner,
        );
    }
}

/// What the buyer of a listing pays: of the asking price, the royalty points go to the
/// creator and the platform's points to the platform, both rounded down, and the rest
/// to the seller.
pub proof fn law_buying_pays_three(
    state: LedgerState,
    signers: Seq<Address>,
    buyer: Address,
    token_id: u64,
)
    requires
        state.buy_refusal(signers, buyer, token_id) is None,
    ensures
        ({
            let after = state.with_payments(state.buy_payments(buyer, token_id)).bought(
                buyer,
                token_id,
            );
            let listing = state.listing(token_id)->Ok_0;
            let book = state.book(state.token(token_id)->Ok_0.book_id)->Ok_0;
            let asset = state.payment_token()->Ok_0;
            let price = listing.asking_price;
            let royalty = price * book.royalty_bps / 10_000;
            let fee = price * state.fee_bps()->Ok_0 / 10_000;
            let rest = price - royalty - fee;
            let paid = |to: Address, amount: int|
                if amount > 0 {
                    seq![
                        TransferCall {
                            payment: Payment { asset, from: buyer, to, amount: amount as i128 },
                            accepted: true,
                        },
                    ]
                } else {
                    Seq::empty()
                };
            &&& royalty >= 0 && fee >= 0 && rest >= 0
            &&& after.transfers == state.transfers + paid(book.publisher, royalty) + paid(
                state.platform()->Ok_0,
                fee,
            ) + paid(listing.seller, rest)
        }),
{
    let listing = state.listing(token_id)->Ok_0;
    let book = state.book(state.token(token_id)->Ok_0.book_id)->Ok_0;
    lemma_sale_is_on_record(
        state,
        listing.seller,
        book.publisher,
        listing.asking_price,
        book.royalty_bps,
        buyer,
    );
}

// The marketplace.

/// A listing reads as it was made, in place of one before it; the token stays where
/// it is.
pub proof fn law_listing_offers_the_token(
    state: LedgerState,
    seller: Address,
    token_id: u64,
    asking_price: i128,
)
    ensures
        ({
            let after = state.listed(seller, token_id, asking_price);
            let listing = after.listing(token_id)->Ok_0;
            &&& after.listing(token_id) is Ok
            &&& listing.token_id == token_id
            &&& listing.seller == seller
            &&& listing.asking_price == asking_price
            &&& forall|key: DataKey|
                key != DataKey::Listing(token_id) ==> #[trigger] after.entry(key) == state.entry(
                    key,
                )
            &&& after.transfers == state.transfers
            &&& after.events == state.events.push(
                Announcement {
                    topic: "listed"@,
                    data: Datum::List(
                        seq![
                            Datum::U64(token_id),
                            Datum::Account(seller),
                            Datum::I128(asking_price),
                        ],
                    ),
                },
            )
            &&& after.sequence == state.sequence
        }),
{
    lemma_listing_reads_back(Listing { token_id, seller, asking_price });
}

/// A listing that was taken back is gone, and nothing else.
pub proof fn law_cancelling_removes_the_listing(
    state: LedgerState,
    seller: Address,
    token_id: u64,
)
    ensures
        ({
            let after = state.unlisted(seller, token_id);
            &&& after.listing(token_id) == Err::<Listing, ContractError>(
                ContractError::ListingNotFound,
            )
            &&& after.entry(DataKey::Listing(token_id)) is None
            &&& forall|key: DataKey|
                key != DataKey::Listing(token_id) ==> #[trigger] after.entry(key) == state.entry(
                    key,
                )
            &&& after.transfers == state.transfers
            &&& after.events == state.events.push(
                Announcement {
                    topic: "unlisted"@,
                    data: Datum::List(seq![Datum::U64(token_id), Datum::Account(seller)]),
                },
            )
            &&& after.sequence == state.sequence
        }),
{
}

} // verus!
