//! The contract's ledger: its records, read and written through the host.

use soroban_sdk::{Address, Env, Val};
use vstd::prelude::*;

use crate::host::{
    address_of_val, bool_of_val, datum, id_list_items, id_list_of_val, instance_get, instance_has,
    instance_set, is_contract, ledger_sequence, ledger_state, list_items, list_len, list_new,
    list_of_val, list_push, persistent_get, persistent_remove, persistent_set, publish_event,
    request_transfer, u32_of_val, u64_of_val, val_of_address, val_of_bool, val_of_list,
    val_of_u32, val_of_u64, Announcement, Datum, LedgerState, Payment, TransferCall,
};
use crate::layout::{
    ids_datum, ids_from_datum, ids_of_val, lemma_keys_lie_apart, lemma_topic_is_symbol, val_of_ids,
};
use crate::types::{Book, ContractError, DataKey, Event, Listing, Token};

verus! {

/// The platform's share of a sale while none is set, in basis points.
pub const DEFAULT_FEE_BPS: u32 = 250;

impl LedgerState {
    /// The value under a key.
    pub open spec fn entry(self, key: DataKey) -> Option<Datum> {
        let entries = if key.in_instance() {
            self.instance
        } else {
            self.persistent
        };
        if entries.contains_key(key.datum()) {
            Some(entries[key.datum()])
        } else {
            None
        }
    }

    /// The same ledger with `value` under `key`.
    pub open spec fn with_entry(self, key: DataKey, value: Datum) -> LedgerState {
        if key.in_instance() {
            LedgerState { instance: self.instance.insert(key.datum(), value), ..self }
        } else {
            LedgerState { persistent: self.persistent.insert(key.datum(), value), ..self }
        }
    }

    /// The same ledger with nothing under `key`.
    pub open spec fn without_entry(self, key: DataKey) -> LedgerState {
        if key.in_instance() {
            LedgerState { instance: self.instance.remove(key.datum()), ..self }
        } else {
            LedgerState { persistent: self.persistent.remove(key.datum()), ..self }
        }
    }

    /// The same ledger with one more announcement.
    pub open spec fn with_event(self, event: Event) -> LedgerState {
        LedgerState {
            events: self.events.push(
                Announcement { topic: event.spec_topic(), data: event.datum() },
            ),
            ..self
        }
    }

    /// The same ledger with one more transfer on record.
    pub open spec fn with_transfer(self, payment: Payment, accepted: bool) -> LedgerState {
        LedgerState {
            transfers: self.transfers.push(TransferCall { payment, accepted }),
            ..self
        }
    }

    /// The platform's address, set when the contract is initialised.
    pub open spec fn platform(self) -> Result<Address, ContractError> {
        match self.entry(DataKey::Platform) {
            Some(Datum::Account(address)) => Ok(address),
            Some(_) => Err(ContractError::MalformedEntry),
            None => Err(ContractError::NotInitialised),
        }
    }

    /// The platform's share of a sale, in basis points.
    pub open spec fn fee_bps(self) -> Result<u32, ContractError> {
        match self.entry(DataKey::PlatformFeeBps) {
            Some(Datum::U32(bps)) => Ok(bps),
            Some(_) => Err(ContractError::MalformedEntry),
            None => Ok(DEFAULT_FEE_BPS),
        }
    }

    /// The asset that every sale settles in.
    pub open spec fn payment_token(self) -> Result<Address, ContractError> {
        match self.entry(DataKey::PaymentToken) {
            Some(Datum::Account(address)) => Ok(address),
            Some(_) => Err(ContractError::MalformedEntry),
            None => Err(ContractError::PaymentTokenNotConfigured),
        }
    }

    /// The id that the next book will get.
    pub open spec fn next_book_id(self) -> Result<u64, ContractError> {
        match self.entry(DataKey::NextBookId) {
            Some(Datum::U64(id)) => Ok(id),
            Some(_) => Err(ContractError::MalformedEntry),
            None => Ok(0),
        }
    }

    /// The id that the next token will get.
    pub open spec fn next_token_id(self) -> Result<u64, ContractError> {
        match self.entry(DataKey::NextTokenId) {
            Some(Datum::U64(id)) => Ok(id),
            Some(_) => Err(ContractError::MalformedEntry),
            None => Ok(0),
        }
    }

    pub open spec fn book(self, book_id: u64) -> Result<Book, ContractError> {
        match self.entry(DataKey::Book(book_id)) {
            Some(value) => match Book::from_datum(value) {
                Some(book) => Ok(book),
                None => Err(ContractError::MalformedEntry),
            },
            None => Err(ContractError::BookNotFound),
        }
    }

    pub open spec fn token(self, token_id: u64) -> Result<Token, ContractError> {
        match self.entry(DataKey::Token(token_id)) {
            Some(value) => match Token::from_datum(value) {
                Some(token) => Ok(token),
                None => Err(ContractError::MalformedEntry),
            },
            None => Err(ContractError::TokenNotFound),
        }
    }

    pub open spec fn listing(self, token_id: u64) -> Result<Listing, ContractError> {
        match self.entry(DataKey::Listing(token_id)) {
            Some(value) => match Listing::from_datum(value) {
                Some(listing) => Ok(listing),
                None => Err(ContractError::MalformedEntry),
            },
            None => Err(ContractError::ListingNotFound),
        }
    }

    /// Whether an address is marked as an owner of a book.
    pub open spec fn owns(self, owner: Address, book_id: u64) -> Result<bool, ContractError> {
        match self.entry(DataKey::Ownership(owner, book_id)) {
            Some(Datum::Bool(owns)) => Ok(owns),
            Some(_) => Err(ContractError::MalformedEntry),
            None => Ok(false),
        }
    }

    /// What is listed under an owner, oldest first.
    pub open spec fn owner_list(self, owner: Address) -> Result<Seq<Datum>, ContractError> {
        match self.entry(DataKey::OwnerTokens(owner)) {
            Some(Datum::List(items)) => Ok(items),
            Some(_) => Err(ContractError::MalformedEntry),
            None => Ok(Seq::empty()),
        }
    }

    /// The tokens listed under an owner, oldest first, where nothing else is.
    pub open spec fn owner_tokens(self, owner: Address) -> Result<Seq<u64>, ContractError> {
        match self.entry(DataKey::OwnerTokens(owner)) {
            Some(value) => match ids_from_datum(value) {
                Some(ids) => Ok(ids),
                None => Err(ContractError::MalformedEntry),
            },
            None => Ok(Seq::empty()),
        }
    }

    pub open spec fn with_book(self, book_id: u64, book: Book) -> LedgerState {
        self.with_entry(DataKey::Book(book_id), book.datum())
    }

    pub open spec fn with_token(self, token_id: u64, token: Token) -> LedgerState {
        self.with_entry(DataKey::Token(token_id), token.datum())
    }

    pub open spec fn with_listing(self, token_id: u64, listing: Listing) -> LedgerState {
        self.with_entry(DataKey::Listing(token_id), listing.datum())
    }

    pub open spec fn with_ownership(self, owner: Address, book_id: u64, owns: bool) -> LedgerState {
        self.with_entry(DataKey::Ownership(owner, book_id), Datum::Bool(owns))
    }

    pub open spec fn with_owner_tokens(self, owner: Address, ids: Seq<u64>) -> LedgerState {
        self.with_entry(DataKey::OwnerTokens(owner), ids_datum(ids))
    }

    /// The same ledger with one more token at the end of an owner's list.
    pub open spec fn with_listed_token(self, owner: Address, token_id: u64) -> LedgerState {
        self.with_entry(
            DataKey::OwnerTokens(owner),
            Datum::List(self.owner_list(owner)->Ok_0.push(Datum::U64(token_id))),
        )
    }
}

/// A list of ids can be read as a list, and an id can be added to it.
pub proof fn lemma_ids_are_listed(state: LedgerState, owner: Address, token_id: u64)
    requires
        state.owner_tokens(owner) is Ok,
    ensures
        state.owner_list(owner) is Ok,
        state.owner_list(owner)->Ok_0.len() == state.owner_tokens(owner)->Ok_0.len(),
        Datum::List(state.owner_list(owner)->Ok_0) == ids_datum(state.owner_tokens(owner)->Ok_0),
        Datum::List(state.owner_list(owner)->Ok_0.push(Datum::U64(token_id))) == ids_datum(
            state.owner_tokens(owner)->Ok_0.push(token_id),
        ),
{
    let ids = state.owner_tokens(owner)->Ok_0;
    let items = state.owner_list(owner)->Ok_0;
    assert(items =~= ids_datum(ids)->List_0);
    assert(items.push(Datum::U64(token_id)) =~= ids_datum(ids.push(token_id))->List_0);
}

/// A key reads what was last written under it, and no other write touches it.
pub broadcast proof fn lemma_entry_of_with_entry(
    state: LedgerState,
    written: DataKey,
    value: Datum,
    key: DataKey,
)
    ensures
        #[trigger] state.with_entry(written, value).entry(key) == if key == written {
            Some(value)
        } else {
            state.entry(key)
        },
{
    if key.in_instance() == written.in_instance() && key.datum() == written.datum() {
        lemma_keys_lie_apart(key, written);
    }
}

/// A removed key reads nothing, and no other key is touched by the removal.
pub broadcast proof fn lemma_entry_of_without_entry(
    state: LedgerState,
    removed: DataKey,
    key: DataKey,
)
    ensures
        #[trigger] state.without_entry(removed).entry(key) == if key == removed {
            None::<Datum>
        } else {
            state.entry(key)
        },
{
    if key.in_instance() == removed.in_instance() && key.datum() == removed.datum() {
        lemma_keys_lie_apart(key, removed);
    }
}

/// An announcement touches no entry.
pub broadcast proof fn lemma_entry_of_with_event(state: LedgerState, event: Event, key: DataKey)
    ensures
        #[trigger] state.with_event(event).entry(key) == state.entry(key),
{
}

pub broadcast group group_ledger_entries {
    lemma_entry_of_with_entry,
    lemma_entry_of_without_entry,
    lemma_entry_of_with_event,
}

/// The ledger of the running contract.
///
/// This library writes through it alone. Whoever makes one leaves the contract's
/// storage to it for as long as it is in use.
pub struct Ledger {
    env: Env,
}

impl View for Ledger {
    type V = LedgerState;

    closed spec fn view(&self) -> LedgerState {
        ledger_state(self.env)
    }
}

impl Ledger {
    /// The ledger behind `env`.
    pub fn new(env: Env) -> (ledger: Ledger)
        ensures
            ledger@ == ledger_state(env),
    {
        Ledger { env }
    }

    fn get(&self, key: &DataKey) -> (val: Option<Val>)
        ensures
            match val {
                Some(v) => self@.entry(*key) == Some(datum(v)),
                None => self@.entry(*key) is None,
            },
    {
        let key_val = key.to_val(&self.env);
        if key.is_in_instance() {
            instance_get(&self.env, &key_val)
        } else {
            persistent_get(&self.env, &key_val)
        }
    }

    fn set(&mut self, key: &DataKey, val: &Val)
        requires
            datum(*val).is_storable() || !key.in_instance() && old(self)@.adds_to_list(
                key.datum(),
                datum(*val),
            ),
        ensures
            final(self)@ == old(self)@.with_entry(*key, datum(*val)),
    {
        let key_val = key.to_val(&self.env);
        if key.is_in_instance() {
            instance_set(&mut self.env, &key_val, val);
        } else {
            persistent_set(&mut self.env, &key_val, val);
        }
    }

    /// Publishes an event.
    pub(crate) fn announce(&mut self, event: &Event)
        ensures
            final(self)@ == old(self)@.with_event(*event),
    {
        let data = event.to_val(&self.env);
        proof {
            lemma_topic_is_symbol(*event);
        }
        publish_event(&mut self.env, event.topic(), data);
    }

    /// The sequence number of the ledger.
    pub(crate) fn sequence(&self) -> (sequence: u32)
        ensures
            sequence == self@.sequence,
    {
        ledger_sequence(&self.env)
    }

    /// Asks the token contract `asset` for a transfer and tells its answer.
    pub(crate) fn transfer(
        &mut self,
        asset: &Address,
        from: &Address,
        to: &Address,
        amount: i128,
    ) -> (accepted: bool)
        requires
            is_contract(*asset),
        ensures
            final(self)@ == old(self)@.with_transfer(
                Payment { asset: *asset, from: *from, to: *to, amount },
                accepted,
            ),
    {
        request_transfer(&mut self.env, asset, from, to, amount)
    }

    /// Whether the contract has been initialised.
    pub(crate) fn has_platform(&self) -> (has: bool)
        ensures
            has == (self@.entry(DataKey::Platform) is Some),
    {
        let key_val = DataKey::Platform.to_val(&self.env);
        instance_has(&self.env, &key_val)
    }

    pub(crate) fn platform(&self) -> (platform: Result<Address, ContractError>)
        ensures
            platform == self@.platform(),
    {
        match self.get(&DataKey::Platform) {
            Some(val) => match address_of_val(&self.env, &val) {
                Some(address) => Ok(address),
                None => Err(ContractError::MalformedEntry),
            },
            None => Err(ContractError::NotInitialised),
        }
    }

    pub(crate) fn set_platform(&mut self, platform: &Address)
        ensures
            final(self)@ == old(self)@.with_entry(DataKey::Platform, Datum::Account(*platform)),
    {
        self.set(&DataKey::Platform, &val_of_address(platform));
    }

    pub(crate) fn fee_bps(&self) -> (bps: Result<u32, ContractError>)
        ensures
            bps == self@.fee_bps(),
    {
        match self.get(&DataKey::PlatformFeeBps) {
            Some(val) => match u32_of_val(&self.env, &val) {
                Some(bps) => Ok(bps),
                None => Err(ContractError::MalformedEntry),
            },
            None => Ok(DEFAULT_FEE_BPS),
        }
    }

    pub(crate) fn set_fee_bps(&mut self, bps: u32)
        ensures
            final(self)@ == old(self)@.with_entry(DataKey::PlatformFeeBps, Datum::U32(bps)),
    {
        let val = val_of_u32(&self.env, bps);
        self.set(&DataKey::PlatformFeeBps, &val);
    }

    pub(crate) fn payment_token(&self) -> (asset: Result<Address, ContractError>)
        ensures
            asset == self@.payment_token(),
    {
        match self.get(&DataKey::PaymentToken) {
            Some(val) => match address_of_val(&self.env, &val) {
                Some(address) => Ok(address),
                None => Err(ContractError::MalformedEntry),
            },
            None => Err(ContractError::PaymentTokenNotConfigured),
        }
    }

    pub(crate) fn set_payment_token(&mut self, asset: &Address)
        ensures
            final(self)@ == old(self)@.with_entry(DataKey::PaymentToken, Datum::Account(*asset)),
    {
        self.set(&DataKey::PaymentToken, &val_of_address(asset));
    }

    pub(crate) fn next_book_id(&self) -> (id: Result<u64, ContractError>)
        ensures
            id == self@.next_book_id(),
    {
        match self.get(&DataKey::NextBookId) {
            Some(val) => match u64_of_val(&self.env, &val) {
                Some(id) => Ok(id),
                None => Err(ContractError::MalformedEntry),
            },
            None => Ok(0),
        }
    }

    pub(crate) fn set_next_book_id(&mut self, id: u64)
        ensures
            final(self)@ == old(self)@.with_entry(DataKey::NextBookId, Datum::U64(id)),
    {
        let val = val_of_u64(&self.env, id);
        self.set(&DataKey::NextBookId, &val);
    }

    pub(crate) fn next_token_id(&self) -> (id: Result<u64, ContractError>)
        ensures
            id == self@.next_token_id(),
    {
        match self.get(&DataKey::NextTokenId) {
            Some(val) => match u64_of_val(&self.env, &val) {
                Some(id) => Ok(id),
                None => Err(ContractError::MalformedEntry),
            },
            None => Ok(0),
        }
    }

    pub(crate) fn set_next_token_id(&mut self, id: u64)
        ensures
            final(self)@ == old(self)@.with_entry(DataKey::NextTokenId, Datum::U64(id)),
    {
        let val = val_of_u64(&self.env, id);
        self.set(&DataKey::NextTokenId, &val);
    }

    pub(crate) fn book(&self, book_id: u64) -> (book: Result<Book, ContractError>)
        ensures
            book == self@.book(book_id),
    {
        match self.get(&DataKey::Book(book_id)) {
            Some(val) => match Book::from_val(&self.env, &val) {
                Some(book) => Ok(book),
                None => Err(ContractError::MalformedEntry),
            },
            None => Err(ContractError::BookNotFound),
        }
    }

    pub(crate) fn set_book(&mut self, book_id: u64, book: &Book)
        ensures
            final(self)@ == old(self)@.with_book(book_id, *book),
    {
        let val = book.to_val(&self.env);
        self.set(&DataKey::Book(book_id), &val);
    }

    pub(crate) fn token(&self, token_id: u64) -> (token: Result<Token, ContractError>)
        ensures
            token == self@.token(token_id),
    {
        match self.get(&DataKey::Token(token_id)) {
            Some(val) => match Token::from_val(&self.env, &val) {
                Some(token) => Ok(token),
                None => Err(ContractError::MalformedEntry),
            },
            None => Err(ContractError::TokenNotFound),
        }
    }

    pub(crate) fn set_token(&mut self, token_id: u64, token: &Token)
        ensures
            final(self)@ == old(self)@.with_token(token_id, *token),
    {
        let val = token.to_val(&self.env);
        self.set(&DataKey::Token(token_id), &val);
    }

    pub(crate) fn listing(&self, token_id: u64) -> (listing: Result<Listing, ContractError>)
        ensures
            listing == self@.listing(token_id),
    {
        match self.get(&DataKey::Listing(token_id)) {
            Some(val) => match Listing::from_val(&self.env, &val) {
                Some(listing) => Ok(listing),
                None => Err(ContractError::MalformedEntry),
            },
            None => Err(ContractError::ListingNotFound),
        }
    }

    pub(crate) fn set_listing(&mut self, token_id: u64, listing: &Listing)
        ensures
            final(self)@ == old(self)@.with_listing(token_id, *listing),
    {
        let val = listing.to_val(&self.env);
        self.set(&DataKey::Listing(token_id), &val);
    }

    pub(crate) fn remove_listing(&mut self, token_id: u64)
        ensures
            final(self)@ == old(self)@.without_entry(DataKey::Listing(token_id)),
    {
        let key_val = DataKey::Listing(token_id).to_val(&self.env);
        persistent_remove(&mut self.env, &key_val);
    }

    pub(crate) fn owns(&self, owner: &Address, book_id: u64) -> (owns: Result<bool, ContractError>)
        ensures
            owns == self@.owns(*owner, book_id),
    {
        match self.get(&DataKey::Ownership(owner.clone(), book_id)) {
            Some(val) => match bool_of_val(&self.env, &val) {
                Some(owns) => Ok(owns),
                None => Err(ContractError::MalformedEntry),
            },
            None => Ok(false),
        }
    }

    pub(crate) fn set_ownership(&mut self, owner: &Address, book_id: u64, owns: bool)
        ensures
            final(self)@ == old(self)@.with_ownership(*owner, book_id, owns),
    {
        let val = val_of_bool(&self.env, owns);
        self.set(&DataKey::Ownership(owner.clone(), book_id), &val);
    }

    /// What is listed under an owner, as the host holds it.
    fn owner_list(&self, owner: &Address) -> (list: Result<
        soroban_sdk::Vec<Val>,
        ContractError,
    >)
        ensures
            match list {
                Ok(list) => self@.owner_list(*owner) == Ok::<Seq<Datum>, ContractError>(
                    list_items(list),
                ),
                Err(e) => self@.owner_list(*owner) == Err::<Seq<Datum>, ContractError>(e),
            },
    {
        match self.get(&DataKey::OwnerTokens(owner.clone())) {
            Some(val) => match list_of_val(&self.env, &val) {
                Some(list) => Ok(list),
                None => Err(ContractError::MalformedEntry),
            },
            None => Ok(list_new(&self.env)),
        }
    }

    /// The length of an owner's list.
    pub(crate) fn owner_list_len(&self, owner: &Address) -> (len: Result<u32, ContractError>)
        ensures
            match len {
                Ok(len) => self@.owner_list(*owner) is Ok && len == self@.owner_list(
                    *owner,
                )->Ok_0.len(),
                Err(e) => self@.owner_list(*owner) == Err::<Seq<Datum>, ContractError>(e),
            },
    {
        let list = self.owner_list(owner)?;
        Ok(list_len(&list))
    }

    /// What is listed under an owner, as a list of ids.
    pub(crate) fn owner_id_list(&self, owner: &Address) -> (list: Result<
        soroban_sdk::Vec<u64>,
        ContractError,
    >)
        ensures
            match list {
                Ok(list) => self@.owner_list(*owner) == Ok::<Seq<Datum>, ContractError>(
                    id_list_items(list),
                ),
                Err(e) => self@.owner_list(*owner) == Err::<Seq<Datum>, ContractError>(e),
            },
    {
        let list = self.owner_list(owner)?;
        match id_list_of_val(&self.env, &val_of_list(&list)) {
            Some(ids) => Ok(ids),
            None => Err(ContractError::MalformedEntry),
        }
    }

    /// Adds a token to an owner's list. The host counts its items in 32 bits.
    pub(crate) fn list_token(&mut self, owner: &Address, token_id: u64)
        requires
            old(self)@.owner_list(*owner) is Ok,
            old(self)@.owner_list(*owner)->Ok_0.len() < u32::MAX,
        ensures
            final(self)@ == old(self)@.with_listed_token(*owner, token_id),
    {
        let key = DataKey::OwnerTokens(owner.clone());
        let listed = self.get(&key);
        let list = match &listed {
            Some(val) => list_of_val(&self.env, val),
            None => Some(list_new(&self.env)),
        };
        if let Some(mut list) = list {
            let ghost items = list_items(list);
            list_push(&mut list, val_of_u64(&self.env, token_id));
            let val = val_of_list(&list);
            proof {
                let grown = items.push(Datum::U64(token_id));
                assert(grown.drop_last() =~= items);
                if listed is None {
                    assert(items =~= Seq::empty());
                    assert(datum(val).is_storable());
                }
            }
            self.set(&key, &val);
        }
    }

    pub(crate) fn owner_tokens(&self, owner: &Address) -> (ids: Result<Vec<u64>, ContractError>)
        ensures
            match ids {
                Ok(ids) => self@.owner_tokens(*owner) == Ok::<Seq<u64>, ContractError>(ids@)
                    && ids@.len() <= u32::MAX,
                Err(e) => self@.owner_tokens(*owner) == Err::<Seq<u64>, ContractError>(e),
            },
    {
        match self.get(&DataKey::OwnerTokens(owner.clone())) {
            Some(val) => match ids_of_val(&self.env, &val) {
                Some(ids) => Ok(ids),
                None => Err(ContractError::MalformedEntry),
            },
            None => Ok(Vec::new()),
        }
    }

    /// The host counts the items of a list in 32 bits.
    pub(crate) fn set_owner_tokens(&mut self, owner: &Address, ids: &Vec<u64>)
        requires
            ids@.len() <= u32::MAX,
        ensures
            final(self)@ == old(self)@.with_owner_tokens(*owner, ids@),
    {
        let val = val_of_ids(&self.env, ids);
        self.set(&DataKey::OwnerTokens(owner.clone()), &val);
    }
}

} // verus!
