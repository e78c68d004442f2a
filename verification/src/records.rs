//! How the records lie in storage, and what is read of what lies there.

use soroban_sdk::Address;
use vstd::prelude::*;

use crate::host::{Announcement, Datum, LedgerState};
use crate::layout::{ids_datum, ids_from_datum};
use crate::types::{Book, ContractError, DataKey, Event, Listing, Token};

verus! {

/// The settings and the counters lie in instance storage, each under its name.
pub proof fn law_where_settings_lie(state: LedgerState)
    ensures
        state.entry(DataKey::Platform) == state.instance.get(
            Datum::List(seq![Datum::Symbol("Platform"@)]),
        ),
        state.entry(DataKey::PlatformFeeBps) == state.instance.get(
            Datum::List(seq![Datum::Symbol("PlatformFeeBps"@)]),
        ),
        state.entry(DataKey::PaymentToken) == state.instance.get(
            Datum::List(seq![Datum::Symbol("PaymentToken"@)]),
        ),
        state.entry(DataKey::NextBookId) == state.instance.get(
            Datum::List(seq![Datum::Symbol("NextBookId"@)]),
        ),
        state.entry(DataKey::NextTokenId) == state.instance.get(
            Datum::List(seq![Datum::Symbol("NextTokenId"@)]),
        ),
{
}

/// The records lie in persistent storage, each under its name and what it is about.
pub proof fn law_where_records_lie(state: LedgerState, id: u64, owner: Address)
    ensures
        state.entry(DataKey::Book(id)) == state.persistent.get(
            Datum::List(seq![Datum::Symbol("Book"@), Datum::U64(id)]),
        ),
        state.entry(DataKey::Token(id)) == state.persistent.get(
            Datum::List(seq![Datum::Symbol("Token"@), Datum::U64(id)]),
        ),
        state.entry(DataKey::Listing(id)) == state.persistent.get(
            Datum::List(seq![Datum::Symbol("Listing"@), Datum::U64(id)]),
        ),
        state.entry(DataKey::Ownership(owner, id)) == state.persistent.get(
            Datum::List(seq![Datum::Symbol("Ownership"@), Datum::Account(owner), Datum::U64(id)]),
        ),
        state.entry(DataKey::OwnerTokens(owner)) == state.persistent.get(
            Datum::List(seq![Datum::Symbol("OwnerTokens"@), Datum::Account(owner)]),
        ),
{
}

/// A book is stored by the names of its eight fields.
pub proof fn law_form_of_a_book(book: Book)
    ensures
        book.datum() == (Datum::Record {
            fields: map![
                "id"@ => Datum::U64(book.id),
                "publisher"@ => Datum::Account(book.publisher),
                "price"@ => Datum::I128(book.price),
                "royalty_bps"@ => Datum::U32(book.royalty_bps),
                "arweave_tx_id"@ => Datum::Text(book.arweave_tx_id),
                "title"@ => Datum::Text(book.title),
                "active"@ => Datum::Bool(book.active),
                "total_sales"@ => Datum::U64(book.total_sales),
            ],
            size: 8,
        }),
{
}

/// A token is stored by the names of its five fields.
pub proof fn law_form_of_a_token(token: Token)
    ensures
        token.datum() == (Datum::Record {
            fields: map![
                "id"@ => Datum::U64(token.id),
                "book_id"@ => Datum::U64(token.book_id),
                "owner"@ => Datum::Account(token.owner),
                "minted_at"@ => Datum::U32(token.minted_at),
                "purchase_price"@ => Datum::I128(token.purchase_price),
            ],
            size: 5,
        }),
{
}

/// A listing is stored by the names of its three fields.
pub proof fn law_form_of_a_listing(listing: Listing)
    ensures
        listing.datum() == (Datum::Record {
            fields: map![
                "token_id"@ => Datum::U64(listing.token_id),
                "seller"@ => Datum::Account(listing.seller),
                "asking_price"@ => Datum::I128(listing.asking_price),
            ],
            size: 3,
        }),
{
}

/// A book is read of exactly those values that have its eight fields and no other.
pub proof fn law_book_is_read_of_its_fields(value: Datum, book: Book)
    ensures
        Book::from_datum(value) == Some(book) <==> (value matches Datum::Record { fields, size }
            && {
            &&& size == 8
            &&& fields.get("id"@) == Some(Datum::U64(book.id))
            &&& fields.get("publisher"@) == Some(Datum::Account(book.publisher))
            &&& fields.get("price"@) == Some(Datum::I128(book.price))
            &&& fields.get("royalty_bps"@) == Some(Datum::U32(book.royalty_bps))
            &&& fields.get("arweave_tx_id"@) == Some(Datum::Text(book.arweave_tx_id))
            &&& fields.get("title"@) == Some(Datum::Text(book.title))
            &&& fields.get("active"@) == Some(Datum::Bool(book.active))
            &&& fields.get("total_sales"@) == Some(Datum::U64(book.total_sales))
        }),
{
}

/// A token is read of exactly those values that have its five fields and no other.
pub proof fn law_token_is_read_of_its_fields(value: Datum, token: Token)
    ensures
        Token::from_datum(value) == Some(token) <==> (value matches Datum::Record { fields, size }
            && {
            &&& size == 5
            &&& fields.get("id"@) == Some(Datum::U64(token.id))
            &&& fields.get("book_id"@) == Some(Datum::U64(token.book_id))
            &&& fields.get("owner"@) == Some(Datum::Account(token.owner))
            &&& fields.get("minted_at"@) == Some(Datum::U32(token.minted_at))
            &&& fields.get("purchase_price"@) == Some(Datum::I128(token.purchase_price))
        }),
{
}

/// A listing is read of exactly those values that have its three fields and no other.
pub proof fn law_listing_is_read_of_its_fields(value: Datum, listing: Listing)
    ensures
        Listing::from_datum(value) == Some(listing) <==> (value matches Datum::Record {
            fields,
            size,
        } && {
            &&& size == 3
            &&& fields.get("token_id"@) == Some(Datum::U64(listing.token_id))
            &&& fields.get("seller"@) == Some(Datum::Account(listing.seller))
            &&& fields.get("asking_price"@) == Some(Datum::I128(listing.asking_price))
        }),
{
}

/// A record is what is read of the value under its key. Where nothing lies there is
/// no such record; where something else lies, the entry is malformed.
pub proof fn law_records_are_read(state: LedgerState, id: u64)
    ensures
        state.book(id) == (match state.entry(DataKey::Book(id)) {
            None => Err::<Book, ContractError>(ContractError::BookNotFound),
            Some(value) => if Book::from_datum(value) is Some {
                Ok(Book::from_datum(value)->0)
            } else {
                Err(ContractError::MalformedEntry)
            },
        }),
        state.token(id) == (match state.entry(DataKey::Token(id)) {
            None => Err::<Token, ContractError>(ContractError::TokenNotFound),
            Some(value) => if Token::from_datum(value) is Some {
                Ok(Token::from_datum(value)->0)
            } else {
                Err(ContractError::MalformedEntry)
            },
        }),
        state.listing(id) == (match state.entry(DataKey::Listing(id)) {
            None => Err::<Listing, ContractError>(ContractError::ListingNotFound),
            Some(value) => if Listing::from_datum(value) is Some {
                Ok(Listing::from_datum(value)->0)
            } else {
                Err(ContractError::MalformedEntry)
            },
        }),
{
}

/// An address owns a book if and only if it is marked so, and what is listed under it
/// is the list that is stored; without an entry there is no ownership and an empty
/// list.
pub proof fn law_holdings_are_read(state: LedgerState, owner: Address, book_id: u64)
    ensures
        state.owns(owner, book_id) == (match state.entry(DataKey::Ownership(owner, book_id)) {
            None => Ok::<bool, ContractError>(false),
            Some(Datum::Bool(owns)) => Ok(owns),
            Some(_) => Err(ContractError::MalformedEntry),
        }),
        state.owner_list(owner) == (match state.entry(DataKey::OwnerTokens(owner)) {
            None => Ok::<Seq<Datum>, ContractError>(Seq::empty()),
            Some(Datum::List(items)) => Ok(items),
            Some(_) => Err(ContractError::MalformedEntry),
        }),
{
}

/// A list is a list of ids if and only if every item of it is a number, and then the
/// ids are those numbers, in their order.
pub proof fn law_ids_are_read(state: LedgerState, owner: Address)
    requires
        state.owner_list(owner) is Ok,
    ensures
        ({
            let items = state.owner_list(owner)->Ok_0;
            let ids = state.owner_tokens(owner);
            &&& ids is Ok <==> forall|i: int| 0 <= i < items.len() ==> (#[trigger] items[i]) is U64
            &&& ids is Ok ==> {
                &&& ids->Ok_0.len() == items.len()
                &&& forall|i: int|
                    0 <= i < items.len() ==> #[trigger] items[i] == Datum::U64(ids->Ok_0[i])
            }
            &&& ids is Err ==> ids->Err_0 == ContractError::MalformedEntry
        }),
{
    let items = state.owner_list(owner)->Ok_0;
    if forall|i: int| 0 <= i < items.len() ==> (#[trigger] items[i]) is U64 {
        match state.entry(DataKey::OwnerTokens(owner)) {
            Some(value) => {
                let ids = ids_from_datum(value)->0;
                assert(forall|i: int| 0 <= i < items.len() ==> ids[i] == items[i]->U64_0);
            },
            None => {},
        }
    }
}

/// A list of ids is stored as those numbers, in their order.
pub proof fn law_form_of_a_list(ids: Seq<u64>)
    ensures
        ids_datum(ids) matches Datum::List(items) && items.len() == ids.len() && forall|i: int|
            0 <= i < ids.len() ==> #[trigger] items[i] == Datum::U64(ids[i]),
{
}

/// An event is published under its name, with its fields in their order, behind the
/// events before it.
pub proof fn law_form_of_an_event(state: LedgerState, event: Event)
    ensures
        state.with_event(event).events == state.events.push(
            match event {
                Event::BookRegistered { book_id, publisher } => Announcement {
                    topic: "reg_book"@,
                    data: Datum::List(seq![Datum::U64(book_id), Datum::Account(publisher)]),
                },
                Event::ArweaveTxUpdated { book_id } => Announcement {
                    topic: "upd_tx"@,
                    data: Datum::List(seq![Datum::U64(book_id)]),
                },
                Event::Purchased { token_id, book_id, buyer } => Announcement {
                    topic: "purchase"@,
                    data: Datum::List(
                        seq![Datum::U64(token_id), Datum::U64(book_id), Datum::Account(buyer)],
                    ),
                },
                Event::Transferred {
                    token_id,
                    old_owner,
                    new_owner,
                    royalty_amount,
                    platform_amount,
                    seller_amount,
                } => Announcement {
                    topic: "transfer"@,
                    data: Datum::List(
                        seq![
                            Datum::U64(token_id),
                            Datum::Account(old_owner),
                            Datum::Account(new_owner),
                            Datum::I128(royalty_amount),
                            Datum::I128(platform_amount),
                            Datum::I128(seller_amount),
                        ],
                    ),
                },
                Event::Listed { token_id, seller, asking_price } => Announcement {
                    topic: "listed"@,
                    data: Datum::List(
                        seq![
                            Datum::U64(token_id),
                            Datum::Account(seller),
                            Datum::I128(asking_price),
                        ],
                    ),
                },
                Event::Unlisted { token_id, seller } => Announcement {
                    topic: "unlisted"@,
                    data: Datum::List(seq![Datum::U64(token_id), Datum::Account(seller)]),
                },
                Event::Sold { token_id, old_owner, buyer, asking_price } => Announcement {
                    topic: "sold"@,
                    data: Datum::List(
                        seq![
                            Datum::U64(token_id),
                            Datum::Account(old_owner),
                            Datum::Account(buyer),
                            Datum::I128(asking_price),
                        ],
                    ),
                },
            },
        ),
        state.with_event(event).instance == state.instance,
        state.with_event(event).persistent == state.persistent,
        state.with_event(event).transfers == state.transfers,
        state.with_event(event).sequence == state.sequence,
{
}

// Writing.

/// Writing under a key touches what lies under it in its own storage, and nothing
/// else that the host holds.
pub proof fn law_writing_touches_one_key(state: LedgerState, key: DataKey, value: Datum)
    ensures
        ({
            let after = state.with_entry(key, value);
            let setting = key == DataKey::Platform || key == DataKey::PlatformFeeBps || key
                == DataKey::PaymentToken || key == DataKey::NextBookId || key
                == DataKey::NextTokenId;
            &&& after.instance == if setting {
                state.instance.insert(key.datum(), value)
            } else {
                state.instance
            }
            &&& after.persistent == if setting {
                state.persistent
            } else {
                state.persistent.insert(key.datum(), value)
            }
            &&& after.transfers == state.transfers
            &&& after.events == state.events
            &&& after.sequence == state.sequence
        }),
{
}

/// Removing a listing touches what lies under its key, and nothing else that the host
/// holds.
pub proof fn law_removing_touches_one_key(state: LedgerState, token_id: u64)
    ensures
        ({
            let after = state.without_entry(DataKey::Listing(token_id));
            &&& after.persistent == state.persistent.remove(
                Datum::List(seq![Datum::Symbol("Listing"@), Datum::U64(token_id)]),
            )
            &&& after.instance == state.instance
            &&& after.transfers == state.transfers
            &&& after.events == state.events
            &&& after.sequence == state.sequence
        }),
{
}

} // verus!
