//! How the records lie in the contract's storage, and how events are published.
//!
//! A key is a list that begins with the name of its variant, followed by the
//! variant's fields. A record is a dictionary from the names of its fields to
//! their values, and has no other entries. The data of an event is the list of its
//! fields.

use soroban_sdk::{Address, Env, Symbol, Val};
use vstd::prelude::*;

use crate::host::{
    address_of_val, bool_of_val, datum, i128_of_val, is_symbol, list_get, list_items, list_len,
    list_new, list_of_val, list_push, record_fields, record_get, record_len, record_new,
    record_of_val, record_set, text_of_val, u32_of_val, u64_of_val, val_of_address, val_of_bool,
    val_of_i128, val_of_list, val_of_record, val_of_symbol, val_of_text, val_of_u32, val_of_u64,
    Datum,
};
use crate::types::{Book, DataKey, Event, Listing, Token};

verus! {

// Keys.

impl DataKey {
    /// The name of the variant.
    pub open spec fn tag(self) -> Seq<char> {
        match self {
            DataKey::NextBookId => "NextBookId"@,
            DataKey::NextTokenId => "NextTokenId"@,
            DataKey::Book(_) => "Book"@,
            DataKey::Token(_) => "Token"@,
            DataKey::Ownership(_, _) => "Ownership"@,
            DataKey::Platform => "Platform"@,
            DataKey::PlatformFeeBps => "PlatformFeeBps"@,
            DataKey::PaymentToken => "PaymentToken"@,
            DataKey::OwnerTokens(_) => "OwnerTokens"@,
            DataKey::Listing(_) => "Listing"@,
        }
    }

    /// The key as the host sees it.
    pub open spec fn datum(self) -> Datum {
        let tag = Datum::Symbol(self.tag());
        match self {
            DataKey::Book(id) => Datum::List(seq![tag, Datum::U64(id)]),
            DataKey::Token(id) => Datum::List(seq![tag, Datum::U64(id)]),
            DataKey::Listing(id) => Datum::List(seq![tag, Datum::U64(id)]),
            DataKey::Ownership(owner, id) => Datum::List(
                seq![tag, Datum::Account(owner), Datum::U64(id)],
            ),
            DataKey::OwnerTokens(owner) => Datum::List(seq![tag, Datum::Account(owner)]),
            _ => Datum::List(seq![tag]),
        }
    }

    /// Whether the entry lies in instance storage, with the settings and the
    /// counters, rather than in persistent storage, with the records.
    pub open spec fn in_instance(self) -> bool {
        match self {
            DataKey::NextBookId => true,
            DataKey::NextTokenId => true,
            DataKey::Platform => true,
            DataKey::PlatformFeeBps => true,
            DataKey::PaymentToken => true,
            _ => false,
        }
    }

    pub(crate) fn is_in_instance(&self) -> (instance: bool)
        ensures
            instance == self.in_instance(),
    {
        match self {
            DataKey::NextBookId => true,
            DataKey::NextTokenId => true,
            DataKey::Platform => true,
            DataKey::PlatformFeeBps => true,
            DataKey::PaymentToken => true,
            _ => false,
        }
    }

    fn tag_name(&self) -> (name: &'static str)
        ensures
            name@ == self.tag(),
    {
        match self {
            DataKey::NextBookId => "NextBookId",
            DataKey::NextTokenId => "NextTokenId",
            DataKey::Book(_) => "Book",
            DataKey::Token(_) => "Token",
            DataKey::Ownership(_, _) => "Ownership",
            DataKey::Platform => "Platform",
            DataKey::PlatformFeeBps => "PlatformFeeBps",
            DataKey::PaymentToken => "PaymentToken",
            DataKey::OwnerTokens(_) => "OwnerTokens",
            DataKey::Listing(_) => "Listing",
        }
    }

    pub(crate) fn to_val(&self, env: &Env) -> (val: Val)
        ensures
            datum(val) == self.datum(),
            datum(val).is_key(),
    {
        let mut list = list_new(env);
        proof {
            lemma_tag_is_symbol(*self);
        }
        list_push(&mut list, val_of_symbol(env, self.tag_name()));
        match self {
            DataKey::Book(id) => {
                list_push(&mut list, val_of_u64(env, *id));
            },
            DataKey::Token(id) => {
                list_push(&mut list, val_of_u64(env, *id));
            },
            DataKey::Listing(id) => {
                list_push(&mut list, val_of_u64(env, *id));
            },
            DataKey::Ownership(owner, id) => {
                list_push(&mut list, val_of_address(owner));
                list_push(&mut list, val_of_u64(env, *id));
            },
            DataKey::OwnerTokens(owner) => {
                list_push(&mut list, val_of_address(owner));
            },
            _ => {},
        }
        proof {
            assert(self.datum() == Datum::List(list_items(list))) by {
                assert(list_items(list) =~= self.datum()->List_0);
            }
        }
        val_of_list(&list)
    }
}

proof fn lemma_tag_is_symbol(key: DataKey)
    ensures
        is_symbol(key.tag()),
{
    reveal_strlit("NextBookId");
    reveal_strlit("NextTokenId");
    reveal_strlit("Book");
    reveal_strlit("Token");
    reveal_strlit("Ownership");
    reveal_strlit("Platform");
    reveal_strlit("PlatformFeeBps");
    reveal_strlit("PaymentToken");
    reveal_strlit("OwnerTokens");
    reveal_strlit("Listing");
}

/// Different keys of one storage lie apart.
pub proof fn lemma_keys_lie_apart(a: DataKey, b: DataKey)
    requires
        a.in_instance() == b.in_instance(),
        a.datum() == b.datum(),
    ensures
        a == b,
{
    reveal_strlit("NextBookId");
    reveal_strlit("NextTokenId");
    reveal_strlit("Book");
    reveal_strlit("Token");
    reveal_strlit("Ownership");
    reveal_strlit("Platform");
    reveal_strlit("PlatformFeeBps");
    reveal_strlit("PaymentToken");
    reveal_strlit("OwnerTokens");
    reveal_strlit("Listing");
    let items_a = a.datum()->List_0;
    let items_b = b.datum()->List_0;
    assert(items_a[0] == Datum::Symbol(a.tag()));
    assert(items_b[0] == Datum::Symbol(b.tag()));
    assert(a.tag() == b.tag());
    assert(a.tag().len() == b.tag().len());
    if items_a.len() > 1 {
        assert(items_a[1] == items_b[1]);
    }
    if items_a.len() > 2 {
        assert(items_a[2] == items_b[2]);
    }
}

// Fields.

/// The number under `name`, if there is one of that type.
pub open spec fn u64_field(fields: Map<Seq<char>, Datum>, name: Seq<char>) -> Option<u64> {
    if fields.contains_key(name) {
        match fields[name] {
            Datum::U64(n) => Some(n),
            _ => None,
        }
    } else {
        None
    }
}

pub open spec fn u32_field(fields: Map<Seq<char>, Datum>, name: Seq<char>) -> Option<u32> {
    if fields.contains_key(name) {
        match fields[name] {
            Datum::U32(n) => Some(n),
            _ => None,
        }
    } else {
        None
    }
}

pub open spec fn i128_field(fields: Map<Seq<char>, Datum>, name: Seq<char>) -> Option<i128> {
    if fields.contains_key(name) {
        match fields[name] {
            Datum::I128(n) => Some(n),
            _ => None,
        }
    } else {
        None
    }
}

pub open spec fn bool_field(fields: Map<Seq<char>, Datum>, name: Seq<char>) -> Option<bool> {
    if fields.contains_key(name) {
        match fields[name] {
            Datum::Bool(b) => Some(b),
            _ => None,
        }
    } else {
        None
    }
}

pub open spec fn address_field(fields: Map<Seq<char>, Datum>, name: Seq<char>) -> Option<Address> {
    if fields.contains_key(name) {
        match fields[name] {
            Datum::Account(a) => Some(a),
            _ => None,
        }
    } else {
        None
    }
}

pub open spec fn text_field(
    fields: Map<Seq<char>, Datum>,
    name: Seq<char>,
) -> Option<soroban_sdk::String> {
    if fields.contains_key(name) {
        match fields[name] {
            Datum::Text(t) => Some(t),
            _ => None,
        }
    } else {
        None
    }
}

fn read_u64(env: &Env, record: &soroban_sdk::Map<Symbol, Val>, name: &str) -> (number: Option<u64>)
    requires
        is_symbol(name@),
    ensures
        number == u64_field(record_fields(*record), name@),
{
    match record_get(env, record, name) {
        Some(val) => u64_of_val(env, &val),
        None => None,
    }
}

fn read_u32(env: &Env, record: &soroban_sdk::Map<Symbol, Val>, name: &str) -> (number: Option<u32>)
    requires
        is_symbol(name@),
    ensures
        number == u32_field(record_fields(*record), name@),
{
    match record_get(env, record, name) {
        Some(val) => u32_of_val(env, &val),
        None => None,
    }
}

fn read_i128(
    env: &Env,
    record: &soroban_sdk::Map<Symbol, Val>,
    name: &str,
) -> (number: Option<i128>)
    requires
        is_symbol(name@),
    ensures
        number == i128_field(record_fields(*record), name@),
{
    match record_get(env, record, name) {
        Some(val) => i128_of_val(env, &val),
        None => None,
    }
}

fn read_bool(env: &Env, record: &soroban_sdk::Map<Symbol, Val>, name: &str) -> (flag: Option<bool>)
    requires
        is_symbol(name@),
    ensures
        flag == bool_field(record_fields(*record), name@),
{
    match record_get(env, record, name) {
        Some(val) => bool_of_val(env, &val),
        None => None,
    }
}

fn read_address(
    env: &Env,
    record: &soroban_sdk::Map<Symbol, Val>,
    name: &str,
) -> (address: Option<Address>)
    requires
        is_symbol(name@),
    ensures
        address == address_field(record_fields(*record), name@),
{
    match record_get(env, record, name) {
        Some(val) => address_of_val(env, &val),
        None => None,
    }
}

fn read_text(
    env: &Env,
    record: &soroban_sdk::Map<Symbol, Val>,
    name: &str,
) -> (text: Option<soroban_sdk::String>)
    requires
        is_symbol(name@),
    ensures
        text == text_field(record_fields(*record), name@),
{
    match record_get(env, record, name) {
        Some(val) => text_of_val(env, &val),
        None => None,
    }
}

// Books.

impl Book {
    /// The book as it is stored.
    pub open spec fn datum(self) -> Datum {
        Datum::Record {
            fields: map![
                "id"@ => Datum::U64(self.id),
                "publisher"@ => Datum::Account(self.publisher),
                "price"@ => Datum::I128(self.price),
                "royalty_bps"@ => Datum::U32(self.royalty_bps),
                "arweave_tx_id"@ => Datum::Text(self.arweave_tx_id),
                "title"@ => Datum::Text(self.title),
                "active"@ => Datum::Bool(self.active),
                "total_sales"@ => Datum::U64(self.total_sales),
            ],
            size: 8,
        }
    }

    /// The book that a stored value holds, if it holds one.
    pub open spec fn from_datum(datum: Datum) -> Option<Book> {
        match datum {
            Datum::Record { fields, size } => {
                let id = u64_field(fields, "id"@);
                let publisher = address_field(fields, "publisher"@);
                let price = i128_field(fields, "price"@);
                let royalty_bps = u32_field(fields, "royalty_bps"@);
                let arweave_tx_id = text_field(fields, "arweave_tx_id"@);
                let title = text_field(fields, "title"@);
                let active = bool_field(fields, "active"@);
                let total_sales = u64_field(fields, "total_sales"@);
                if size == 8 && id is Some && publisher is Some && price is Some
                    && royalty_bps is Some && arweave_tx_id is Some && title is Some
                    && active is Some && total_sales is Some {
                    Some(
                        Book {
                            id: id->0,
                            publisher: publisher->0,
                            price: price->0,
                            royalty_bps: royalty_bps->0,
                            arweave_tx_id: arweave_tx_id->0,
                            title: title->0,
                            active: active->0,
                            total_sales: total_sales->0,
                        },
                    )
                } else {
                    None
                }
            },
            _ => None,
        }
    }

    pub(crate) fn to_val(&self, env: &Env) -> (val: Val)
        ensures
            datum(val) == self.datum(),
            datum(val).is_storable(),
    {
        proof {
            lemma_book_field_names();
        }
        let mut record = record_new(env);
        record_set(env, &mut record, "id", val_of_u64(env, self.id));
        record_set(env, &mut record, "publisher", val_of_address(&self.publisher));
        record_set(env, &mut record, "price", val_of_i128(env, self.price));
        record_set(env, &mut record, "royalty_bps", val_of_u32(env, self.royalty_bps));
        record_set(env, &mut record, "arweave_tx_id", val_of_text(&self.arweave_tx_id));
        record_set(env, &mut record, "title", val_of_text(&self.title));
        record_set(env, &mut record, "active", val_of_bool(env, self.active));
        record_set(env, &mut record, "total_sales", val_of_u64(env, self.total_sales));
        val_of_record(&record)
    }

    pub(crate) fn from_val(env: &Env, val: &Val) -> (book: Option<Book>)
        ensures
            book == Book::from_datum(datum(*val)),
    {
        proof {
            lemma_book_field_names();
        }
        let record = match record_of_val(env, val) {
            Some(record) => record,
            None => {
                return None;
            },
        };
        if record_len(&record) != 8 {
            return None;
        }
        let id = read_u64(env, &record, "id");
        let publisher = read_address(env, &record, "publisher");
        let price = read_i128(env, &record, "price");
        let royalty_bps = read_u32(env, &record, "royalty_bps");
        let arweave_tx_id = read_text(env, &record, "arweave_tx_id");
        let title = read_text(env, &record, "title");
        let active = read_bool(env, &record, "active");
        let total_sales = read_u64(env, &record, "total_sales");
        match (id, publisher, price, royalty_bps, arweave_tx_id, title, active, total_sales) {
            (
                Some(id),
                Some(publisher),
                Some(price),
                Some(royalty_bps),
                Some(arweave_tx_id),
                Some(title),
                Some(active),
                Some(total_sales),
            ) => Some(
                Book {
                    id,
                    publisher,
                    price,
                    royalty_bps,
                    arweave_tx_id,
                    title,
                    active,
                    total_sales,
                },
            ),
            _ => None,
        }
    }
}

proof fn lemma_book_field_names()
    ensures
        is_symbol("id"@),
        is_symbol("publisher"@),
        is_symbol("price"@),
        is_symbol("royalty_bps"@),
        is_symbol("arweave_tx_id"@),
        is_symbol("title"@),
        is_symbol("active"@),
        is_symbol("total_sales"@),
        "id"@.len() == 2,
        "publisher"@.len() == 9,
        "price"@.len() == 5,
        "royalty_bps"@.len() == 11,
        "arweave_tx_id"@.len() == 13,
        "title"@.len() == 5,
        "active"@.len() == 6,
        "total_sales"@.len() == 11,
        "price"@ != "title"@,
        "royalty_bps"@ != "total_sales"@,
{
    reveal_strlit("id");
    reveal_strlit("publisher");
    reveal_strlit("price");
    reveal_strlit("royalty_bps");
    reveal_strlit("arweave_tx_id");
    reveal_strlit("title");
    reveal_strlit("active");
    reveal_strlit("total_sales");
    assert("price"@[0] == 'p' && "title"@[0] == 't');
    assert("royalty_bps"@[0] == 'r' && "total_sales"@[0] == 't');
}

/// What is read back of a stored book is that book.
pub proof fn lemma_book_reads_back(book: Book)
    ensures
        Book::from_datum(book.datum()) == Some(book),
        book.datum().is_storable(),
{
    lemma_book_field_names();
}

// Tokens.

impl Token {
    /// The token as it is stored.
    pub open spec fn datum(self) -> Datum {
        Datum::Record {
            fields: map![
                "id"@ => Datum::U64(self.id),
                "book_id"@ => Datum::U64(self.book_id),
                "owner"@ => Datum::Account(self.owner),
                "minted_at"@ => Datum::U32(self.minted_at),
                "purchase_price"@ => Datum::I128(self.purchase_price),
            ],
            size: 5,
        }
    }

    /// The token that a stored value holds, if it holds one.
    pub open spec fn from_datum(datum: Datum) -> Option<Token> {
        match datum {
            Datum::Record { fields, size } => {
                let id = u64_field(fields, "id"@);
                let book_id = u64_field(fields, "book_id"@);
                let owner = address_field(fields, "owner"@);
                let minted_at = u32_field(fields, "minted_at"@);
                let purchase_price = i128_field(fields, "purchase_price"@);
                if size == 5 && id is Some && book_id is Some && owner is Some && minted_at is Some
                    && purchase_price is Some {
                    Some(
                        Token {
                            id: id->0,
                            book_id: book_id->0,
                            owner: owner->0,
                            minted_at: minted_at->0,
                            purchase_price: purchase_price->0,
                        },
                    )
                } else {
                    None
                }
            },
            _ => None,
        }
    }

    pub(crate) fn to_val(&self, env: &Env) -> (val: Val)
        ensures
            datum(val) == self.datum(),
            datum(val).is_storable(),
    {
        proof {
            lemma_token_field_names();
        }
        let mut record = record_new(env);
        record_set(env, &mut record, "id", val_of_u64(env, self.id));
        record_set(env, &mut record, "book_id", val_of_u64(env, self.book_id));
        record_set(env, &mut record, "owner", val_of_address(&self.owner));
        record_set(env, &mut record, "minted_at", val_of_u32(env, self.minted_at));
        record_set(env, &mut record, "purchase_price", val_of_i128(env, self.purchase_price));
        val_of_record(&record)
    }

    pub(crate) fn from_val(env: &Env, val: &Val) -> (token: Option<Token>)
        ensures
            token == Token::from_datum(datum(*val)),
    {
        proof {
            lemma_token_field_names();
        }
        let record = match record_of_val(env, val) {
            Some(record) => record,
            None => {
                return None;
            },
        };
        if record_len(&record) != 5 {
            return None;
        }
        let id = read_u64(env, &record, "id");
        let book_id = read_u64(env, &record, "book_id");
        let owner = read_address(env, &record, "owner");
        let minted_at = read_u32(env, &record, "minted_at");
        let purchase_price = read_i128(env, &record, "purchase_price");
        match (id, book_id, owner, minted_at, purchase_price) {
            (Some(id), Some(book_id), Some(owner), Some(minted_at), Some(purchase_price)) => Some(
                Token { id, book_id, owner, minted_at, purchase_price },
            ),
            _ => None,
        }
    }
}

proof fn lemma_token_field_names()
    ensures
        is_symbol("id"@),
        is_symbol("book_id"@),
        is_symbol("owner"@),
        is_symbol("minted_at"@),
        is_symbol("purchase_price"@),
        "id"@.len() == 2,
        "book_id"@.len() == 7,
        "owner"@.len() == 5,
        "minted_at"@.len() == 9,
        "purchase_price"@.len() == 14,
{
    reveal_strlit("id");
    reveal_strlit("book_id");
    reveal_strlit("owner");
    reveal_strlit("minted_at");
    reveal_strlit("purchase_price");
}

/// What is read back of a stored token is that token.
pub proof fn lemma_token_reads_back(token: Token)
    ensures
        Token::from_datum(token.datum()) == Some(token),
        token.datum().is_storable(),
{
    lemma_token_field_names();
}

// Listings.

impl Listing {
    /// The listing as it is stored.
    pub open spec fn datum(self) -> Datum {
        Datum::Record {
            fields: map![
                "token_id"@ => Datum::U64(self.token_id),
                "seller"@ => Datum::Account(self.seller),
                "asking_price"@ => Datum::I128(self.asking_price),
            ],
            size: 3,
        }
    }

    /// The listing that a stored value holds, if it holds one.
    pub open spec fn from_datum(datum: Datum) -> Option<Listing> {
        match datum {
            Datum::Record { fields, size } => {
                let token_id = u64_field(fields, "token_id"@);
                let seller = address_field(fields, "seller"@);
                let asking_price = i128_field(fields, "asking_price"@);
                if size == 3 && token_id is Some && seller is Some && asking_price is Some {
                    Some(
                        Listing {
                            token_id: token_id->0,
                            seller: seller->0,
                            asking_price: asking_price->0,
                        },
                    )
                } else {
                    None
                }
            },
            _ => None,
        }
    }

    pub(crate) fn to_val(&self, env: &Env) -> (val: Val)
        ensures
            datum(val) == self.datum(),
            datum(val).is_storable(),
    {
        proof {
            lemma_listing_field_names();
        }
        let mut record = record_new(env);
        record_set(env, &mut record, "token_id", val_of_u64(env, self.token_id));
        record_set(env, &mut record, "seller", val_of_address(&self.seller));
        record_set(env, &mut record, "asking_price", val_of_i128(env, self.asking_price));
        val_of_record(&record)
    }

    pub(crate) fn from_val(env: &Env, val: &Val) -> (listing: Option<Listing>)
        ensures
            listing == Listing::from_datum(datum(*val)),
    {
        proof {
            lemma_listing_field_names();
        }
        let record = match record_of_val(env, val) {
            Some(record) => record,
            None => {
                return None;
            },
        };
        if record_len(&record) != 3 {
            return None;
        }
        let token_id = read_u64(env, &record, "token_id");
        let seller = read_address(env, &record, "seller");
        let asking_price = read_i128(env, &record, "asking_price");
        match (token_id, seller, asking_price) {
            (Some(token_id), Some(seller), Some(asking_price)) => Some(
                Listing { token_id, seller, asking_price },
            ),
            _ => None,
        }
    }
}

proof fn lemma_listing_field_names()
    ensures
        is_symbol("token_id"@),
        is_symbol("seller"@),
        is_symbol("asking_price"@),
        "token_id"@.len() == 8,
        "seller"@.len() == 6,
        "asking_price"@.len() == 12,
{
    reveal_strlit("token_id");
    reveal_strlit("seller");
    reveal_strlit("asking_price");
}

/// What is read back of a stored listing is that listing.
pub proof fn lemma_listing_reads_back(listing: Listing)
    ensures
        Listing::from_datum(listing.datum()) == Some(listing),
        listing.datum().is_storable(),
{
    lemma_listing_field_names();
}

// Lists of token ids.

/// A list of ids as it is stored.
pub open spec fn ids_datum(ids: Seq<u64>) -> Datum {
    Datum::List(ids.map_values(|id: u64| Datum::U64(id)))
}

/// The ids that a stored value holds, if it is a list of ids.
pub open spec fn ids_from_datum(datum: Datum) -> Option<Seq<u64>> {
    match datum {
        Datum::List(items) => if forall|i: int|
            0 <= i < items.len() ==> (#[trigger] items[i]) is U64 {
            Some(items.map_values(|item: Datum| item->U64_0))
        } else {
            None
        },
        _ => None,
    }
}

/// What is read back of a stored list of ids is that list.
pub proof fn lemma_ids_read_back(ids: Seq<u64>)
    ensures
        ids_from_datum(ids_datum(ids)) == Some(ids),
        ids_datum(ids).is_storable(),
{
    let items = ids_datum(ids)->List_0;
    assert(items.map_values(|item: Datum| item->U64_0) =~= ids);
}

pub(crate) fn val_of_ids(env: &Env, ids: &Vec<u64>) -> (val: Val)
    requires
        ids@.len() <= u32::MAX,
    ensures
        datum(val) == ids_datum(ids@),
        datum(val).is_storable(),
{
    let mut list = list_new(env);
    let mut i: usize = 0;
    while i < ids.len()
        invariant
            i <= ids@.len() <= u32::MAX,
            list_items(list) == ids@.take(i as int).map_values(|id: u64| Datum::U64(id)),
        decreases ids@.len() - i,
    {
        list_push(&mut list, val_of_u64(env, ids[i]));
        i = i + 1;
        assert(list_items(list) =~= ids@.take(i as int).map_values(|id: u64| Datum::U64(id)));
    }
    proof {
        assert(ids@.take(i as int) =~= ids@);
        lemma_ids_read_back(ids@);
    }
    val_of_list(&list)
}

pub(crate) fn ids_of_val(env: &Env, val: &Val) -> (ids: Option<Vec<u64>>)
    ensures
        match ids {
            Some(ids) => ids_from_datum(datum(*val)) == Some(ids@) && ids@.len() <= u32::MAX,
            None => ids_from_datum(datum(*val)) is None,
        },
{
    let list = match list_of_val(env, val) {
        Some(list) => list,
        None => {
            return None;
        },
    };
    let ghost items = list_items(list);
    let len: u32 = list_len(&list);
    let mut ids: Vec<u64> = Vec::new();
    let mut i: u32 = 0;
    while i < len
        invariant
            i <= len,
            len == items.len(),
            items == list_items(list),
            datum(*val) == Datum::List(items),
            ids@.len() == i,
            forall|j: int|
                0 <= j < i ==> (#[trigger] items[j]) is U64 && items[j]->U64_0 == ids@[j],
        decreases len - i,
    {
        let number = match list_get(&list, i) {
            Some(item) => u64_of_val(env, &item),
            None => None,
        };
        match number {
            Some(id) => {
                ids.push(id);
            },
            None => {
                assert(!(items[i as int] is U64));
                return None;
            },
        }
        i = i + 1;
    }
    proof {
        assert(items.map_values(|item: Datum| item->U64_0) =~= ids@);
    }
    Some(ids)
}

// Events.

impl Event {
    /// The data that the event is published with.
    pub open spec fn datum(self) -> Datum {
        match self {
            Event::BookRegistered { book_id, publisher } => Datum::List(
                seq![Datum::U64(book_id), Datum::Account(publisher)],
            ),
            Event::ArweaveTxUpdated { book_id } => Datum::List(seq![Datum::U64(book_id)]),
            Event::Purchased { token_id, book_id, buyer } => Datum::List(
                seq![Datum::U64(token_id), Datum::U64(book_id), Datum::Account(buyer)],
            ),
            Event::Transferred {
                token_id,
                old_owner,
                new_owner,
                royalty_amount,
                platform_amount,
                seller_amount,
            } => Datum::List(
                seq![
                    Datum::U64(token_id),
                    Datum::Account(old_owner),
                    Datum::Account(new_owner),
                    Datum::I128(royalty_amount),
                    Datum::I128(platform_amount),
                    Datum::I128(seller_amount),
                ],
            ),
            Event::Listed { token_id, seller, asking_price } => Datum::List(
                seq![Datum::U64(token_id), Datum::Account(seller), Datum::I128(asking_price)],
            ),
            Event::Unlisted { token_id, seller } => Datum::List(
                seq![Datum::U64(token_id), Datum::Account(seller)],
            ),
            Event::Sold { token_id, old_owner, buyer, asking_price } => Datum::List(
                seq![
                    Datum::U64(token_id),
                    Datum::Account(old_owner),
                    Datum::Account(buyer),
                    Datum::I128(asking_price),
                ],
            ),
        }
    }

    pub(crate) fn to_val(&self, env: &Env) -> (val: Val)
        ensures
            datum(val) == self.datum(),
            datum(val).is_storable(),
    {
        let mut list = list_new(env);
        match self {
            Event::BookRegistered { book_id, publisher } => {
                list_push(&mut list, val_of_u64(env, *book_id));
                list_push(&mut list, val_of_address(publisher));
            },
            Event::ArweaveTxUpdated { book_id } => {
                list_push(&mut list, val_of_u64(env, *book_id));
            },
            Event::Purchased { token_id, book_id, buyer } => {
                list_push(&mut list, val_of_u64(env, *token_id));
                list_push(&mut list, val_of_u64(env, *book_id));
                list_push(&mut list, val_of_address(buyer));
            },
            Event::Transferred {
                token_id,
                old_owner,
                new_owner,
                royalty_amount,
                platform_amount,
                seller_amount,
            } => {
                list_push(&mut list, val_of_u64(env, *token_id));
                list_push(&mut list, val_of_address(old_owner));
                list_push(&mut list, val_of_address(new_owner));
                list_push(&mut list, val_of_i128(env, *royalty_amount));
                list_push(&mut list, val_of_i128(env, *platform_amount));
                list_push(&mut list, val_of_i128(env, *seller_amount));
            },
            Event::Listed { token_id, seller, asking_price } => {
                list_push(&mut list, val_of_u64(env, *token_id));
                list_push(&mut list, val_of_address(seller));
                list_push(&mut list, val_of_i128(env, *asking_price));
            },
            Event::Unlisted { token_id, seller } => {
                list_push(&mut list, val_of_u64(env, *token_id));
                list_push(&mut list, val_of_address(seller));
            },
            Event::Sold { token_id, old_owner, buyer, asking_price } => {
                list_push(&mut list, val_of_u64(env, *token_id));
                list_push(&mut list, val_of_address(old_owner));
                list_push(&mut list, val_of_address(buyer));
                list_push(&mut list, val_of_i128(env, *asking_price));
            },
        }
        proof {
            assert(list_items(list) =~= self.datum()->List_0);
        }
        val_of_list(&list)
    }
}

pub proof fn lemma_topic_is_symbol(event: Event)
    ensures
        is_symbol(event.spec_topic()),
{
    reveal_strlit("reg_book");
    reveal_strlit("upd_tx");
    reveal_strlit("purchase");
    reveal_strlit("transfer");
    reveal_strlit("listed");
    reveal_strlit("unlisted");
    reveal_strlit("sold");
}

} // verus!
