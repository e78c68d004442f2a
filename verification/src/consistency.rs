//! What the contract keeps true of its records.

use soroban_sdk::Address;
use vstd::prelude::*;

use crate::host::{Datum, LedgerState, Payment};
use crate::layout::{
    lemma_book_reads_back, lemma_ids_read_back, lemma_listing_reads_back, lemma_token_reads_back,
};
use crate::ledger::{group_ledger_entries, lemma_ids_are_listed};
use crate::requests::Request;
use crate::rules::{ids_without, MAX_FEE_BPS, MAX_ROYALTY_BPS};
use crate::settlement::{lemma_entry_of_with_payments, settles};
use crate::types::{Book, ContractError, DataKey, Listing, Token};

verus! {

impl LedgerState {
    /// The settings and the counters can be read, and the fee is within bounds.
    pub open spec fn settings_sound(self) -> bool {
        &&& self.platform() is Ok || self.platform() == Err::<Address, ContractError>(
            ContractError::NotInitialised,
        )
        &&& self.fee_bps() is Ok
        &&& self.fee_bps()->Ok_0 <= MAX_FEE_BPS
        &&& self.payment_token() is Ok || self.payment_token() == Err::<Address, ContractError>(
            ContractError::PaymentTokenNotConfigured,
        )
        &&& self.next_book_id() is Ok
        &&& self.next_token_id() is Ok
    }

    /// Every book can be read and is within bounds.
    pub open spec fn books_sound(self) -> bool {
        forall|id: u64|
            #![trigger self.book(id)]
            {
                let book = self.book(id);
                if book is Ok {
                    &&& book->Ok_0.id == id
                    &&& book->Ok_0.price > 0
                    &&& book->Ok_0.royalty_bps <= MAX_ROYALTY_BPS
                } else {
                    book == Err::<Book, ContractError>(ContractError::BookNotFound)
                }
            }
    }

    /// Every token is a copy of a book.
    pub open spec fn copies_sound(self) -> bool {
        forall|id: u64|
            #![trigger self.token(id)]
            self.token(id) is Ok ==> self.book(self.token(id)->Ok_0.book_id) is Ok
    }

    /// A listing is of a token that exists, at a positive price.
    pub open spec fn listings_sound(self) -> bool {
        forall|id: u64|
            #![trigger self.listing(id)]
            {
                let listing = self.listing(id);
                if listing is Ok {
                    &&& listing->Ok_0.token_id == id
                    &&& listing->Ok_0.asking_price > 0
                    &&& self.token(id) is Ok
                } else {
                    listing == Err::<Listing, ContractError>(ContractError::ListingNotFound)
                }
            }
    }

    /// The tokens are those with the ids below the counter.
    pub open spec fn tokens_sound(self) -> bool {
        forall|id: u64|
            #![trigger self.token(id)]
            {
                let token = self.token(id);
                if id < self.next_token_id()->Ok_0 {
                    &&& token is Ok
                    &&& token->Ok_0.id == id
                } else {
                    token == Err::<Token, ContractError>(ContractError::TokenNotFound)
                }
            }
    }

    /// The token `id` is a copy of the book, held by `owner`.
    pub open spec fn holds(self, id: u64, owner: Address, book_id: u64) -> bool {
        self.token(id) is Ok && self.token(id)->Ok_0.owner == owner && self.token(id)->Ok_0.book_id
            == book_id
    }

    /// An address is marked as an owner of a book if and only if it holds a copy,
    /// and it never holds two.
    pub open spec fn ownership_sound(self) -> bool {
        &&& forall|owner: Address, book_id: u64| #[trigger] self.owns(owner, book_id) is Ok
        &&& forall|owner: Address, book_id: u64| #[trigger]
            self.owns(owner, book_id)->Ok_0 ==> exists|id: u64| self.holds(id, owner, book_id)
        &&& forall|id: u64, owner: Address, book_id: u64| #[trigger]
            self.holds(id, owner, book_id) ==> self.owns(owner, book_id)->Ok_0
        &&& forall|id: u64, other: u64, owner: Address, book_id: u64|
            #[trigger] self.holds(id, owner, book_id) && #[trigger] self.holds(
                other,
                owner,
                book_id,
            ) ==> id == other
    }

    /// The list of an owner has each token that the owner holds, once.
    pub open spec fn lists_sound(self) -> bool {
        &&& forall|owner: Address| #[trigger] self.owner_tokens(owner) is Ok
        &&& forall|owner: Address| (#[trigger] self.owner_tokens(owner))->Ok_0.no_duplicates()
        &&& forall|owner: Address, id: u64| #[trigger]
            self.owner_tokens(owner)->Ok_0.contains(id) <==> self.token(id) is Ok && self.token(
                id,
            )->Ok_0.owner == owner
    }

    /// The tokens, the ownership marks and the lists agree, and there is no token
    /// before there is a platform.
    pub open spec fn holdings_sound(self) -> bool {
        &&& self.next_token_id() is Ok
        &&& self.next_token_id()->Ok_0 > 0 ==> self.entry(DataKey::Platform) is Some
        &&& self.tokens_sound()
        &&& self.ownership_sound()
        &&& self.lists_sound()
    }

    /// The settings, the books and the listings are in order.
    pub open spec fn records_sound(self) -> bool {
        &&& self.settings_sound()
        &&& self.books_sound()
        &&& self.copies_sound()
        &&& self.listings_sound()
    }

    /// The records are in order, whenever the contract was initialised.
    pub open spec fn sound(self) -> bool {
        self.holdings_sound() && self.records_sound()
    }

    /// The books are those with the ids below the counter.
    pub open spec fn books_counted(self) -> bool {
        forall|id: u64|
            #![trigger self.book(id)]
            self.book(id) is Ok <==> id < self.next_book_id()->Ok_0
    }

    /// The number of tokens with ids below `n` that are copies of a book.
    pub open spec fn copies(self, book_id: u64, n: nat) -> nat
        decreases n,
    {
        if n == 0 {
            0
        } else {
            let last = self.token((n - 1) as u64);
            let counted: nat = if last is Ok && last->Ok_0.book_id == book_id {
                1
            } else {
                0
            };
            self.copies(book_id, (n - 1) as nat) + counted
        }
    }

    /// The sales of a book are the copies that there are of it.
    pub open spec fn sales_sound(self) -> bool {
        forall|id: u64|
            id < self.next_book_id()->Ok_0 ==> (#[trigger] self.book(id))->Ok_0.total_sales
                == self.copies(id, self.next_token_id()->Ok_0 as nat)
    }

    /// The records are in order, and the books agree with their counter and with
    /// their sales.
    pub open spec fn consistent(self) -> bool {
        &&& self.sound()
        &&& self.books_counted()
        &&& self.sales_sound()
    }
}

// What is read after a write.

proof fn lemma_purchased_reads(state: LedgerState, buyer: Address, book_id: u64)
    requires
        state.owner_tokens(buyer) is Ok,
    ensures
        ({
            let after = state.purchased(buyer, book_id);
            let id = state.next_token_id()->Ok_0;
            let book = state.book(book_id)->Ok_0;
            &&& after.platform() == state.platform()
            &&& after.fee_bps() == state.fee_bps()
            &&& after.payment_token() == state.payment_token()
            &&& after.next_book_id() == state.next_book_id()
            &&& after.next_token_id() == Ok::<u64, ContractError>((id + 1) as u64)
            &&& forall|i: u64| #[trigger]
                after.book(i) == if i == book_id {
                    Ok::<Book, ContractError>(
                        Book { total_sales: (book.total_sales + 1) as u64, ..book },
                    )
                } else {
                    state.book(i)
                }
            &&& forall|i: u64| #[trigger]
                after.token(i) == if i == id {
                    Ok::<Token, ContractError>(
                        Token {
                            id,
                            book_id,
                            owner: buyer,
                            minted_at: state.sequence,
                            purchase_price: book.price,
                        },
                    )
                } else {
                    state.token(i)
                }
            &&& forall|i: u64| #[trigger] after.listing(i) == state.listing(i)
            &&& forall|a: Address, b: u64| #[trigger]
                after.owns(a, b) == if a == buyer && b == book_id {
                    Ok::<bool, ContractError>(true)
                } else {
                    state.owns(a, b)
                }
            &&& forall|a: Address| #[trigger]
                after.owner_tokens(a) == if a == buyer {
                    Ok::<Seq<u64>, ContractError>(state.owner_tokens(buyer)->Ok_0.push(id))
                } else {
                    state.owner_tokens(a)
                }
        }),
{
    broadcast use group_ledger_entries;

    let id = state.next_token_id()->Ok_0;
    let book = state.book(book_id)->Ok_0;
    lemma_book_reads_back(Book { total_sales: (book.total_sales + 1) as u64, ..book });
    lemma_token_reads_back(
        Token {
            id,
            book_id,
            owner: buyer,
            minted_at: state.sequence,
            purchase_price: book.price,
        },
    );
    lemma_ids_are_listed(state, buyer, id);
    lemma_ids_read_back(state.owner_tokens(buyer)->Ok_0.push(id));
}

pub(crate) proof fn lemma_handed_over_reads(
    state: LedgerState,
    token_id: u64,
    new_owner: Address,
    price: i128,
)
    requires
        state.token(token_id) is Ok,
        state.token(token_id)->Ok_0.owner != new_owner,
        state.owner_tokens(state.token(token_id)->Ok_0.owner) is Ok,
        state.owner_tokens(new_owner) is Ok,
    ensures
        ({
            let token = state.token(token_id)->Ok_0;
            let after = state.handed_over(token_id, token, new_owner, price);
            &&& after.platform() == state.platform()
            &&& after.fee_bps() == state.fee_bps()
            &&& after.payment_token() == state.payment_token()
            &&& after.next_book_id() == state.next_book_id()
            &&& after.next_token_id() == state.next_token_id()
            &&& forall|i: u64| #[trigger] after.book(i) == state.book(i)
            &&& forall|i: u64| #[trigger]
                after.token(i) == if i == token_id {
                    Ok::<Token, ContractError>(
                        Token { owner: new_owner, purchase_price: price, ..token },
                    )
                } else {
                    state.token(i)
                }
            &&& forall|i: u64| #[trigger] after.listing(i) == state.listing(i)
            &&& forall|a: Address, b: u64| #[trigger]
                after.owns(a, b) == if a == new_owner && b == token.book_id {
                    Ok::<bool, ContractError>(true)
                } else if a == token.owner && b == token.book_id {
                    Ok(false)
                } else {
                    state.owns(a, b)
                }
            &&& forall|a: Address| #[trigger]
                after.owner_tokens(a) == if a == new_owner {
                    Ok::<Seq<u64>, ContractError>(
                        state.owner_tokens(new_owner)->Ok_0.push(token_id),
                    )
                } else if a == token.owner {
                    Ok(ids_without(state.owner_tokens(token.owner)->Ok_0, token_id))
                } else {
                    state.owner_tokens(a)
                }
        }),
{
    broadcast use group_ledger_entries;

    let token = state.token(token_id)->Ok_0;
    lemma_token_reads_back(Token { owner: new_owner, purchase_price: price, ..token });
    lemma_ids_read_back(ids_without(state.owner_tokens(token.owner)->Ok_0, token_id));
    lemma_ids_are_listed(state, new_owner, token_id);
    lemma_ids_read_back(state.owner_tokens(new_owner)->Ok_0.push(token_id));
}

// Counting.

/// Copies are counted by the tokens' books alone.
proof fn lemma_same_copies(a: LedgerState, b: LedgerState, book_id: u64, n: nat)
    requires
        n <= u64::MAX,
        forall|i: u64|
            i < n ==> {
                &&& (#[trigger] b.token(i)) is Ok <==> a.token(i) is Ok
                &&& a.token(i) is Ok ==> a.token(i)->Ok_0.book_id == b.token(i)->Ok_0.book_id
            },
    ensures
        a.copies(book_id, n) == b.copies(book_id, n),
    decreases n,
{
    if n > 0 {
        lemma_same_copies(a, b, book_id, (n - 1) as nat);
        let last = b.token((n - 1) as u64);
    }
}

/// There is no copy of a book that is not registered yet.
proof fn lemma_no_copies(state: LedgerState, book_id: u64, n: nat)
    requires
        state.copies_sound(),
        state.book(book_id) is Err,
    ensures
        state.copies(book_id, n) == 0,
    decreases n,
{
    if n > 0 {
        lemma_no_copies(state, book_id, (n - 1) as nat);
        let last = state.token((n - 1) as u64);
    }
}

// Lists.

/// Taking an id out takes out that id and no other.
pub(crate) proof fn lemma_ids_without(ids: Seq<u64>, id: u64)
    ensures
        ids.no_duplicates() ==> ids_without(ids, id).no_duplicates(),
        forall|other: u64| #[trigger]
            ids_without(ids, id).contains(other) <==> ids.contains(other) && other != id,
        ids_without(ids, id).len() <= ids.len(),
        ids.contains(id) ==> ids_without(ids, id).len() < ids.len(),
        !ids.contains(id) ==> ids_without(ids, id) == ids,
    decreases ids.len(),
{
    reveal(Seq::filter);
    if ids.len() > 0 {
        let init = ids.drop_last();
        let kept = ids_without(init, id);
        lemma_ids_without(init, id);
        assert(ids =~= init.push(ids.last()));
        lemma_contains_of_push(init, ids.last());
        lemma_contains_of_push(kept, ids.last());
        if ids.no_duplicates() {
            assert(init.no_duplicates());
            assert(!init.contains(ids.last()));
        }
    }
}

proof fn lemma_contains_of_push(ids: Seq<u64>, id: u64)
    ensures
        forall|other: u64| #[trigger]
            ids.push(id).contains(other) <==> ids.contains(other) || other == id,
        ids.no_duplicates() && !ids.contains(id) ==> ids.push(id).no_duplicates(),
{
    assert forall|other: u64| ids.contains(other) || other == id implies #[trigger] ids.push(
        id,
    ).contains(other) by {
        if ids.contains(other) {
            let i = choose|i: int| 0 <= i < ids.len() && ids[i] == other;
            assert(ids.push(id)[i] == other);
        } else {
            assert(ids.push(id)[ids.len() as int] == other);
        }
    }
}

// What stays when no token moves.

/// The same tokens, in the same hands.
pub open spec fn same_holdings(a: LedgerState, b: LedgerState) -> bool {
    &&& a.next_token_id() == b.next_token_id()
    &&& a.entry(DataKey::Platform) is Some ==> b.entry(DataKey::Platform) is Some
    &&& forall|id: u64| #[trigger] b.token(id) == a.token(id)
    &&& forall|owner: Address, book_id: u64| #[trigger]
        b.owns(owner, book_id) == a.owns(owner, book_id)
    &&& forall|owner: Address| #[trigger] b.owner_tokens(owner) == a.owner_tokens(owner)
}

proof fn lemma_same_holdings_sound(a: LedgerState, b: LedgerState)
    requires
        same_holdings(a, b),
        a.holdings_sound(),
    ensures
        b.holdings_sound(),
{
    assert forall|id: u64, owner: Address, book_id: u64| #[trigger]
        b.holds(id, owner, book_id) == a.holds(id, owner, book_id) by {}
    assert forall|owner: Address, book_id: u64|
        #[trigger] b.owns(owner, book_id)->Ok_0 implies exists|id: u64|
        b.holds(id, owner, book_id) by {
        assert(a.owns(owner, book_id)->Ok_0);
        let id = choose|id: u64| a.holds(id, owner, book_id);
        assert(b.holds(id, owner, book_id));
    }
}

/// Books that keep their sales, and new ones that have none, agree with the copies.
proof fn lemma_same_holdings_sales(a: LedgerState, b: LedgerState)
    requires
        same_holdings(a, b),
        a.consistent(),
        forall|id: u64|
            id < b.next_book_id()->Ok_0 ==> (#[trigger] b.book(id))->Ok_0.total_sales == if a.book(
                id,
            ) is Ok {
                a.book(id)->Ok_0.total_sales
            } else {
                0
            },
    ensures
        b.sales_sound(),
{
    let n = a.next_token_id()->Ok_0 as nat;
    assert forall|id: u64| id < b.next_book_id()->Ok_0 implies (#[trigger] b.book(
        id,
    ))->Ok_0.total_sales == b.copies(id, n) by {
        lemma_same_copies(a, b, id, n);
        if a.book(id) is Err {
            lemma_no_copies(a, id, n);
        }
    }
}

/// What is read follows from the entries.
proof fn lemma_same_entries_read_alike(a: LedgerState, b: LedgerState)
    ensures
        forall|id: u64|
            #![trigger b.book(id)]
            b.entry(DataKey::Book(id)) == a.entry(DataKey::Book(id)) ==> b.book(id) == a.book(id),
        forall|id: u64|
            #![trigger b.listing(id)]
            b.entry(DataKey::Listing(id)) == a.entry(DataKey::Listing(id)) ==> b.listing(id)
                == a.listing(id),
        forall|id: u64|
            #![trigger b.token(id)]
            b.entry(DataKey::Token(id)) == a.entry(DataKey::Token(id)) ==> b.token(id) == a.token(
                id,
            ),
{
}

/// Requests that neither mint nor hand over a token.
pub open spec fn moves_no_token(request: Request) -> bool {
    !(request is Purchase || request is TransferToken || request is BuyListing)
}

proof fn lemma_no_token_moves(state: LedgerState, signers: Seq<Address>, request: Request)
    requires
        moves_no_token(request),
        state.holdings_sound(),
        state.refusal(signers, request) is None,
    ensures
        same_holdings(state, state.granted(request)),
{
    broadcast use group_ledger_entries;

}

/// A ledger with the same entries is in the same order.
proof fn lemma_same_entries_keep(state: LedgerState, after: LedgerState)
    requires
        after.instance == state.instance,
        after.persistent == state.persistent,
    ensures
        same_holdings(state, after),
        state.holdings_sound() ==> after.holdings_sound(),
        state.records_sound() ==> after.records_sound(),
        state.consistent() ==> after.consistent(),
{
    assert forall|key: DataKey| #[trigger] after.entry(key) == state.entry(key) by {}
    lemma_same_entries_read_alike(state, after);
    if state.holdings_sound() {
        lemma_same_holdings_sound(state, after);
    }
    if state.consistent() {
        lemma_same_holdings_sales(state, after);
    }
}

// What each request keeps of the books and the listings.

proof fn lemma_settings_request_keeps(state: LedgerState, signers: Seq<Address>, request: Request)
    requires
        request is Upgrade || request is Initialise || request is SetPaymentToken,
        state.sound(),
        state.refusal(signers, request) is None,
    ensures
        state.granted(request).records_sound(),
        state.consistent() && (request is Initialise ==> state.next_book_id() == Ok::<
            u64,
            ContractError,
        >(0)) ==> state.granted(request).books_counted() && state.granted(request).sales_sound(),
{
    broadcast use group_ledger_entries;

    let after = state.granted(request);
    lemma_no_token_moves(state, signers, request);
    lemma_same_entries_read_alike(state, after);
    if state.consistent() && (request is Initialise ==> state.next_book_id() == Ok::<
        u64,
        ContractError,
    >(0)) {
        lemma_same_holdings_sales(state, after);
    }
}

proof fn lemma_book_request_keeps(state: LedgerState, signers: Seq<Address>, request: Request)
    requires
        request is RegisterBook || request is UpdateArweaveTx || request is DeactivateBook,
        state.sound(),
        state.refusal(signers, request) is None,
    ensures
        state.granted(request).records_sound(),
        state.consistent() ==> state.granted(request).books_counted() && state.granted(
            request,
        ).sales_sound(),
{
    broadcast use group_ledger_entries;

    let after = state.granted(request);
    lemma_no_token_moves(state, signers, request);
    lemma_same_entries_read_alike(state, after);
    match request {
        Request::RegisterBook { publisher, price, royalty_bps, arweave_tx_id, title } => {
            lemma_book_reads_back(
                Book {
                    id: state.next_book_id()->Ok_0,
                    publisher,
                    price,
                    royalty_bps,
                    arweave_tx_id,
                    title,
                    active: true,
                    total_sales: 0,
                },
            );
        },
        Request::UpdateArweaveTx { book_id, arweave_tx_id, .. } => {
            lemma_book_reads_back(Book { arweave_tx_id, ..state.book(book_id)->Ok_0 });
        },
        Request::DeactivateBook { book_id, .. } => {
            lemma_book_reads_back(Book { active: false, ..state.book(book_id)->Ok_0 });
        },
        _ => {},
    }
    if state.consistent() {
        lemma_same_holdings_sales(state, after);
    }
}

proof fn lemma_listing_request_keeps(state: LedgerState, signers: Seq<Address>, request: Request)
    requires
        request is ListForSale || request is CancelListing,
        state.sound(),
        state.refusal(signers, request) is None,
    ensures
        state.granted(request).records_sound(),
        state.consistent() ==> state.granted(request).books_counted() && state.granted(
            request,
        ).sales_sound(),
{
    broadcast use group_ledger_entries;

    let after = state.granted(request);
    lemma_no_token_moves(state, signers, request);
    lemma_same_entries_read_alike(state, after);
    match request {
        Request::ListForSale { seller, token_id, asking_price } => {
            lemma_listing_reads_back(Listing { token_id, seller, asking_price });
        },
        _ => {},
    }
    if state.consistent() {
        lemma_same_holdings_sales(state, after);
    }
}

// What a new token and a new owner keep.

proof fn lemma_purchased_keeps_holdings(state: LedgerState, buyer: Address, book_id: u64)
    requires
        state.holdings_sound(),
        state.entry(DataKey::Platform) is Some,
        state.owns(buyer, book_id) == Ok::<bool, ContractError>(false),
        state.next_token_id()->Ok_0 < u64::MAX,
    ensures
        state.purchased(buyer, book_id).holdings_sound(),
{
    broadcast use group_ledger_entries;

    lemma_purchased_reads(state, buyer, book_id);
    let after = state.purchased(buyer, book_id);
    let id = state.next_token_id()->Ok_0;
    // The new token is in nobody's hands yet.
    assert(state.token(id) is Err);
    assert(!state.owner_tokens(buyer)->Ok_0.contains(id));
    assert(forall|a: Address| !(#[trigger] state.owner_tokens(a)->Ok_0.contains(id)));
    lemma_contains_of_push(state.owner_tokens(buyer)->Ok_0, id);
    assert forall|a: Address, i: u64| #[trigger]
        after.owner_tokens(a)->Ok_0.contains(i) <==> after.token(i) is Ok && after.token(
            i,
        )->Ok_0.owner == a by {
        assert(state.owner_tokens(a)->Ok_0.contains(i) <==> state.token(i) is Ok && state.token(
            i,
        )->Ok_0.owner == a);
    }
    assert(after.lists_sound());
    assert forall|i: u64, a: Address, b: u64| #[trigger] after.holds(i, a, b) <==> (if i == id {
        a == buyer && b == book_id
    } else {
        state.holds(i, a, b)
    }) by {}
    assert(forall|i: u64| !(#[trigger] state.holds(i, buyer, book_id)));
    assert forall|a: Address, b: u64| #[trigger]
        after.owns(a, b)->Ok_0 implies exists|i: u64| after.holds(i, a, b) by {
        if a == buyer && b == book_id {
            assert(after.holds(id, a, b));
        } else {
            assert(state.owns(a, b)->Ok_0);
            let i = choose|i: u64| state.holds(i, a, b);
            assert(after.holds(i, a, b));
        }
    }
    assert(after.ownership_sound());
}

proof fn lemma_purchased_keeps(state: LedgerState, buyer: Address, book_id: u64)
    requires
        state.sound(),
        state.book(book_id) is Ok,
        state.book(book_id)->Ok_0.total_sales < u64::MAX,
        state.next_token_id()->Ok_0 < u64::MAX,
    ensures
        state.purchased(buyer, book_id).records_sound(),
        state.consistent() ==> state.purchased(buyer, book_id).books_counted() && state.purchased(
            buyer,
            book_id,
        ).sales_sound(),
{
    lemma_purchased_reads(state, buyer, book_id);
    let after = state.purchased(buyer, book_id);
    let id = state.next_token_id()->Ok_0;
    let n = id as nat;
    if state.consistent() {
        assert forall|i: u64| i < after.next_book_id()->Ok_0 implies (#[trigger] after.book(
            i,
        ))->Ok_0.total_sales == after.copies(i, (n + 1) as nat) by {
            lemma_same_copies(state, after, i, n);
            let last = after.token(id);
            let book = state.book(i);
        }
    }
}

proof fn lemma_handed_over_keeps_holdings(
    state: LedgerState,
    token_id: u64,
    new_owner: Address,
    price: i128,
)
    requires
        state.holdings_sound(),
        state.token(token_id) is Ok,
        state.owns(new_owner, state.token(token_id)->Ok_0.book_id) == Ok::<bool, ContractError>(
            false,
        ),
    ensures
        state.token(token_id)->Ok_0.owner != new_owner,
        state.handed_over(
            token_id,
            state.token(token_id)->Ok_0,
            new_owner,
            price,
        ).holdings_sound(),
{
    broadcast use group_ledger_entries;

    let token = state.token(token_id)->Ok_0;
    let after = state.handed_over(token_id, token, new_owner, price);
    assert(state.holds(token_id, token.owner, token.book_id));
    lemma_handed_over_reads(state, token_id, new_owner, price);
    let old_ids = state.owner_tokens(token.owner)->Ok_0;
    let new_ids = state.owner_tokens(new_owner)->Ok_0;
    lemma_ids_without(old_ids, token_id);
    assert(!new_ids.contains(token_id));
    lemma_contains_of_push(new_ids, token_id);
    assert forall|a: Address, i: u64| #[trigger]
        after.owner_tokens(a)->Ok_0.contains(i) <==> after.token(i) is Ok && after.token(
            i,
        )->Ok_0.owner == a by {
        assert(state.owner_tokens(a)->Ok_0.contains(i) <==> state.token(i) is Ok && state.token(
            i,
        )->Ok_0.owner == a);
    }
    assert(after.lists_sound());
    assert forall|i: u64, a: Address, b: u64| #[trigger] after.holds(i, a, b) <==> (if i
        == token_id {
        a == new_owner && b == token.book_id
    } else {
        state.holds(i, a, b)
    }) by {}
    assert(forall|i: u64| !(#[trigger] state.holds(i, new_owner, token.book_id)));
    assert forall|a: Address, b: u64| #[trigger]
        after.owns(a, b)->Ok_0 implies exists|i: u64| after.holds(i, a, b) by {
        if a == new_owner && b == token.book_id {
            assert(after.holds(token_id, a, b));
        } else {
            assert(state.owns(a, b)->Ok_0);
            let i = choose|i: u64| state.holds(i, a, b);
            assert(after.holds(i, a, b));
        }
    }
    assert(after.ownership_sound());
}

proof fn lemma_handed_over_keeps(
    state: LedgerState,
    token_id: u64,
    new_owner: Address,
    price: i128,
)
    requires
        state.sound(),
        state.token(token_id) is Ok,
        state.token(token_id)->Ok_0.owner != new_owner,
    ensures
        ({
            let token = state.token(token_id)->Ok_0;
            let after = state.handed_over(token_id, token, new_owner, price);
            &&& after.records_sound()
            &&& state.consistent() ==> after.books_counted() && after.sales_sound()
        }),
{
    lemma_handed_over_reads(state, token_id, new_owner, price);
    let token = state.token(token_id)->Ok_0;
    let after = state.handed_over(token_id, token, new_owner, price);
    let n = state.next_token_id()->Ok_0 as nat;
    if state.consistent() {
        assert forall|i: u64| i < after.next_book_id()->Ok_0 implies (#[trigger] after.book(
            i,
        ))->Ok_0.total_sales == after.copies(i, n) by {
            lemma_same_copies(state, after, i, n);
            let book = state.book(i);
        }
    }
}

proof fn lemma_listing_removed_keeps(state: LedgerState, token_id: u64)
    ensures
        ({
            let after = state.without_entry(DataKey::Listing(token_id));
            &&& state.holdings_sound() ==> after.holdings_sound()
            &&& state.records_sound() ==> after.records_sound()
            &&& state.consistent() ==> after.consistent()
        }),
{
    broadcast use group_ledger_entries;

    let after = state.without_entry(DataKey::Listing(token_id));
    lemma_same_entries_read_alike(state, after);
    if state.holdings_sound() {
        lemma_same_holdings_sound(state, after);
    }
    if state.consistent() {
        lemma_same_holdings_sales(state, after);
    }
}

// The laws.

/// A ledger without entries is consistent.
pub proof fn law_empty_ledger_is_consistent(state: LedgerState)
    requires
        state.instance == Map::<Datum, Datum>::empty(),
        state.persistent == Map::<Datum, Datum>::empty(),
    ensures
        state.consistent(),
{
    assert forall|key: DataKey| #[trigger] state.entry(key) is None by {}
    assert forall|id: u64, owner: Address, book_id: u64| !(#[trigger] state.holds(
        id,
        owner,
        book_id,
    )) by {
        assert(state.token(id) is Err);
    }
    assert forall|owner: Address, id: u64| !(#[trigger] state.owner_tokens(owner)->Ok_0.contains(
        id,
    )) && state.token(id) is Err by {}
}

/// Every request that is granted keeps the holdings in order: the tokens, the
/// ownership marks and the lists agree afterwards as they did before.
pub proof fn law_granted_requests_keep_holdings(
    state: LedgerState,
    signers: Seq<Address>,
    request: Request,
)
    requires
        state.holdings_sound(),
        state.refusal(signers, request) is None,
    ensures
        state.granted(request).holdings_sound(),
{
    broadcast use lemma_entry_of_with_payments;

    let paid = state.with_payments(state.payments(request));
    lemma_same_entries_keep(state, paid);
    match request {
        Request::Purchase { buyer, book_id } => {
            lemma_purchased_keeps_holdings(paid, buyer, book_id);
        },
        Request::TransferToken { token_id, new_owner, sale_price } => {
            let token = paid.token(token_id)->Ok_0;
            lemma_handed_over_keeps_holdings(paid, token_id, new_owner, sale_price);
            lemma_same_entries_keep(
                paid.handed_over(token_id, token, new_owner, sale_price),
                state.granted(request),
            );
        },
        Request::BuyListing { buyer, token_id } => {
            let token = paid.token(token_id)->Ok_0;
            let price = paid.listing(token_id)->Ok_0.asking_price;
            let handed_over = paid.handed_over(token_id, token, buyer, price);
            lemma_handed_over_keeps_holdings(paid, token_id, buyer, price);
            lemma_listing_removed_keeps(handed_over, token_id);
            lemma_same_entries_keep(
                handed_over.without_entry(DataKey::Listing(token_id)),
                state.granted(request),
            );
        },
        _ => {
            lemma_no_token_moves(state, signers, request);
            lemma_same_holdings_sound(state, state.granted(request));
        },
    }
}

proof fn lemma_granted_requests_keep_records(
    state: LedgerState,
    signers: Seq<Address>,
    request: Request,
)
    requires
        state.sound(),
        state.refusal(signers, request) is None,
    ensures
        state.granted(request).records_sound(),
        state.consistent() && (request is Initialise ==> state.next_book_id() == Ok::<
            u64,
            ContractError,
        >(0)) ==> state.granted(request).books_counted() && state.granted(request).sales_sound(),
{
    broadcast use lemma_entry_of_with_payments;

    let paid = state.with_payments(state.payments(request));
    lemma_same_entries_keep(state, paid);
    match request {
        Request::Purchase { buyer, book_id } => {
            lemma_purchased_keeps(paid, buyer, book_id);
        },
        Request::TransferToken { token_id, new_owner, sale_price } => {
            let token = paid.token(token_id)->Ok_0;
            let handed_over = paid.handed_over(token_id, token, new_owner, sale_price);
            lemma_handed_over_keeps_holdings(paid, token_id, new_owner, sale_price);
            lemma_handed_over_keeps(paid, token_id, new_owner, sale_price);
            lemma_same_entries_keep(handed_over, state.granted(request));
        },
        Request::BuyListing { buyer, token_id } => {
            let token = paid.token(token_id)->Ok_0;
            let price = paid.listing(token_id)->Ok_0.asking_price;
            let handed_over = paid.handed_over(token_id, token, buyer, price);
            lemma_handed_over_keeps_holdings(paid, token_id, buyer, price);
            lemma_handed_over_keeps(paid, token_id, buyer, price);
            lemma_listing_removed_keeps(handed_over, token_id);
            lemma_same_entries_keep(
                handed_over.without_entry(DataKey::Listing(token_id)),
                state.granted(request),
            );
        },
        Request::RegisterBook { .. } => {
            lemma_book_request_keeps(state, signers, request);
        },
        Request::UpdateArweaveTx { .. } => {
            lemma_book_request_keeps(state, signers, request);
        },
        Request::DeactivateBook { .. } => {
            lemma_book_request_keeps(state, signers, request);
        },
        Request::ListForSale { .. } => {
            lemma_listing_request_keeps(state, signers, request);
        },
        Request::CancelListing { .. } => {
            lemma_listing_request_keeps(state, signers, request);
        },
        _ => {
            lemma_settings_request_keeps(state, signers, request);
        },
    }
}

/// Every request that is granted leaves a sound ledger sound.
pub proof fn law_granted_requests_keep_soundness(
    state: LedgerState,
    signers: Seq<Address>,
    request: Request,
)
    requires
        state.sound(),
        state.refusal(signers, request) is None,
    ensures
        state.granted(request).sound(),
{
    law_granted_requests_keep_holdings(state, signers, request);
    lemma_granted_requests_keep_records(state, signers, request);
}

/// Every request that is granted leaves a consistent ledger consistent, but for one:
/// to initialise the contract when it has books sets their counter back.
pub proof fn law_granted_requests_keep_consistency(
    state: LedgerState,
    signers: Seq<Address>,
    request: Request,
)
    requires
        state.consistent(),
        state.refusal(signers, request) is None,
        request is Initialise ==> state.next_book_id() == Ok::<u64, ContractError>(0),
    ensures
        state.granted(request).consistent(),
{
    law_granted_requests_keep_soundness(state, signers, request);
    lemma_granted_requests_keep_records(state, signers, request);
}

/// A request that fails for want of payment leaves the ledger in the order that it
/// was in.
pub proof fn law_refused_payment_keeps_consistency(
    before: LedgerState,
    payments: Seq<Payment>,
    after: LedgerState,
)
    requires
        settles(before, payments, after, false),
    ensures
        before.holdings_sound() ==> after.holdings_sound(),
        before.sound() ==> after.sound(),
        before.consistent() ==> after.consistent(),
{
    lemma_same_entries_keep(before, after);
}

/// A request and those who signed it.
pub struct Step {
    pub signers: Seq<Address>,
    pub request: Request,
}

/// The ledger after `steps`, all of them granted.
pub open spec fn ledger_after(state: LedgerState, steps: Seq<Step>) -> LedgerState
    decreases steps.len(),
{
    if steps.len() == 0 {
        state
    } else {
        ledger_after(state, steps.drop_last()).granted(steps.last().request)
    }
}

/// Each of `steps` is granted in its turn.
pub open spec fn all_granted(state: LedgerState, steps: Seq<Step>) -> bool
    decreases steps.len(),
{
    steps.len() == 0 || {
        let before = ledger_after(state, steps.drop_last());
        let step = steps.last();
        &&& all_granted(state, steps.drop_last())
        &&& before.refusal(step.signers, step.request) is None
    }
}

/// The contract is initialised, if at all, before a book is registered.
pub open spec fn initialised_in_time(state: LedgerState, steps: Seq<Step>) -> bool
    decreases steps.len(),
{
    steps.len() == 0 || {
        let before = ledger_after(state, steps.drop_last());
        &&& initialised_in_time(state, steps.drop_last())
        &&& steps.last().request is Initialise ==> before.next_book_id() == Ok::<
            u64,
            ContractError,
        >(0)
    }
}

/// Requests that are granted, however many, keep the holdings in order.
pub proof fn law_every_run_keeps_holdings(state: LedgerState, steps: Seq<Step>)
    requires
        state.holdings_sound(),
        all_granted(state, steps),
    ensures
        ledger_after(state, steps).holdings_sound(),
    decreases steps.len(),
{
    if steps.len() > 0 {
        let step = steps.last();
        law_every_run_keeps_holdings(state, steps.drop_last());
        law_granted_requests_keep_holdings(
            ledger_after(state, steps.drop_last()),
            step.signers,
            step.request,
        );
    }
}

/// Whatever is asked of a new contract, and granted, in whatever order: its ledger
/// is sound.
pub proof fn law_every_reachable_ledger_is_sound(state: LedgerState, steps: Seq<Step>)
    requires
        state.instance == Map::<Datum, Datum>::empty(),
        state.persistent == Map::<Datum, Datum>::empty(),
        all_granted(state, steps),
    ensures
        ledger_after(state, steps).sound(),
    decreases steps.len(),
{
    if steps.len() == 0 {
        law_empty_ledger_is_consistent(state);
    } else {
        let step = steps.last();
        law_every_reachable_ledger_is_sound(state, steps.drop_last());
        law_granted_requests_keep_soundness(
            ledger_after(state, steps.drop_last()),
            step.signers,
            step.request,
        );
    }
}

/// Whatever is asked of a new contract that is initialised in time, and granted: its
/// books agree with their counter and their sales, too.
pub proof fn law_every_reachable_ledger_is_consistent(state: LedgerState, steps: Seq<Step>)
    requires
        state.instance == Map::<Datum, Datum>::empty(),
        state.persistent == Map::<Datum, Datum>::empty(),
        all_granted(state, steps),
        initialised_in_time(state, steps),
    ensures
        ledger_after(state, steps).consistent(),
    decreases steps.len(),
{
    if steps.len() == 0 {
        law_empty_ledger_is_consistent(state);
    } else {
        let step = steps.last();
        law_every_reachable_ledger_is_consistent(state, steps.drop_last());
        law_granted_requests_keep_consistency(
            ledger_after(state, steps.drop_last()),
            step.signers,
            step.request,
        );
    }
}

} // verus!
