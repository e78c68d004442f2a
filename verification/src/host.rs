//! The contract host: its values, its storage, its events and its token transfers.
//!
//! Everything that this library takes on trust stands in this module. A host
//! value ([`Val`]) is a handle; what it stands for is its [`Datum`], a plain
//! mathematical value. The host itself is reached through an [`Env`]; what it
//! holds for the running contract is its [`LedgerState`].
//!
//! Three things hold of every item below and are not repeated there. All values
//! that meet belong to one and the same environment. Two values of an outside
//! type are one value when the host compares them equal, whatever their handles.
//! The environment is that of a running contract; where the network's limits end
//! an invocation (its budget, entry sizes, archived entries), nothing returns.

use soroban_sdk::address_payload::AddressPayload;
use soroban_sdk::token::TokenClient;
use soroban_sdk::{Address, Env, IntoVal, Symbol, TryFromVal, Val};
use vstd::prelude::*;

verus! {

/// [`soroban_sdk::Env`], the handle on the host.
#[verifier::external_type_specification]
#[verifier::external_body]
pub struct ExEnv(soroban_sdk::Env);

/// [`soroban_sdk::Val`], the handle on any host value.
#[verifier::external_type_specification]
#[verifier::external_body]
pub struct ExVal(soroban_sdk::Val);

/// [`soroban_sdk::Symbol`], a short name.
#[verifier::external_type_specification]
#[verifier::external_body]
pub struct ExSymbol(soroban_sdk::Symbol);

/// [`soroban_sdk::Address`], an account or a contract.
#[verifier::external_type_specification]
#[verifier::external_body]
pub struct ExAddress(soroban_sdk::Address);

/// [`soroban_sdk::String`], a text.
#[verifier::external_type_specification]
#[verifier::external_body]
pub struct ExText(soroban_sdk::String);

/// [`soroban_sdk::BytesN`], a byte string of fixed length.
#[verifier::external_type_specification]
#[verifier::external_body]
pub struct ExBytesN<const N: usize>(soroban_sdk::BytesN<N>);

/// [`soroban_sdk::Vec`], a list of host values.
#[verifier::external_type_specification]
#[verifier::external_body]
#[verifier::reject_recursive_types(T)]
pub struct ExList<T>(soroban_sdk::Vec<T>);

/// [`soroban_sdk::Map`], a dictionary of host values.
#[verifier::external_type_specification]
#[verifier::external_body]
#[verifier::reject_recursive_types(K)]
#[verifier::reject_recursive_types(V)]
pub struct ExRecord<K, V>(soroban_sdk::Map<K, V>);

/// What a host value stands for.
///
/// `Record` is a dictionary: `fields` has the entries whose keys are symbols, by
/// their names, and `size` is the number of all entries. `Other` is every value of
/// a kind that this library does not use.
pub enum Datum {
    Bool(bool),
    U32(u32),
    U64(u64),
    I128(i128),
    Symbol(Seq<char>),
    Text(soroban_sdk::String),
    Account(Address),
    List(Seq<Datum>),
    Record { fields: Map<Seq<char>, Datum>, size: nat },
    Other(Val),
}

impl Datum {
    /// A value without parts.
    pub open spec fn is_scalar(self) -> bool {
        match self {
            Datum::List(_) => false,
            Datum::Record { .. } => false,
            Datum::Other(_) => false,
            _ => true,
        }
    }

    /// A list of scalars: the form of every storage key.
    pub open spec fn is_key(self) -> bool {
        self matches Datum::List(items) && forall|i: int|
            0 <= i < items.len() ==> (#[trigger] items[i]).is_scalar()
    }

    /// A scalar, a list of scalars or a record of scalars: the form of every
    /// stored value.
    pub open spec fn is_storable(self) -> bool {
        match self {
            Datum::List(_) => self.is_key(),
            Datum::Record { fields, .. } => forall|name: Seq<char>|
                fields.contains_key(name) ==> (#[trigger] fields[name]).is_scalar(),
            Datum::Other(_) => false,
            _ => true,
        }
    }
}

/// A movement of `amount` of the token contract `asset`.
pub struct Payment {
    pub asset: Address,
    pub from: Address,
    pub to: Address,
    pub amount: i128,
}

/// A transfer that was asked of a token contract, and its answer.
pub struct TransferCall {
    pub payment: Payment,
    pub accepted: bool,
}

/// An event: the symbol that is its only topic, and its data.
pub struct Announcement {
    pub topic: Seq<char>,
    pub data: Datum,
}

/// What the host holds for the running contract.
#[verifier::ext_equal]
pub struct LedgerState {
    /// The entries of the contract's instance storage.
    pub instance: Map<Datum, Datum>,
    /// The entries of the contract's persistent storage.
    pub persistent: Map<Datum, Datum>,
    /// The token transfers asked for through this environment, oldest first.
    pub transfers: Seq<TransferCall>,
    /// The events that the contract has published, oldest first.
    pub events: Seq<Announcement>,
    /// The sequence number of the ledger.
    pub sequence: u32,
}

impl LedgerState {
    /// `value` is the list that lies under `key` in persistent storage, with one
    /// scalar more.
    pub open spec fn adds_to_list(self, key: Datum, value: Datum) -> bool {
        &&& self.persistent.contains_key(key)
        &&& self.persistent[key] matches Datum::List(items) && value matches Datum::List(grown)
            && grown.len() == items.len() + 1 && grown.drop_last() == items
            && grown.last().is_scalar()
    }
}

/// What may be the name of a symbol: up to 32 of `a-z`, `A-Z`, `0-9` and `_`.
pub open spec fn is_symbol(name: Seq<char>) -> bool {
    name.len() <= 32 && forall|i: int| 0 <= i < name.len() ==> is_symbol_char(#[trigger] name[i])
}

pub open spec fn is_symbol_char(c: char) -> bool {
    'a' <= c <= 'z' || 'A' <= c <= 'Z' || '0' <= c <= '9' || c == '_'
}

/// What `val` stands for.
pub uninterp spec fn datum(val: Val) -> Datum;

/// The items of a list, in order.
pub uninterp spec fn list_items(list: soroban_sdk::Vec<Val>) -> Seq<Datum>;

/// The items of a list of ids, in order. Items of another kind count too: the host
/// does not look at them when the list is made.
pub uninterp spec fn id_list_items(list: soroban_sdk::Vec<u64>) -> Seq<Datum>;

/// The entries of a record, by the names of their symbols.
pub uninterp spec fn record_fields(record: soroban_sdk::Map<Symbol, Val>) -> Map<Seq<char>, Datum>;

/// The number of all entries of a record.
pub uninterp spec fn record_size(record: soroban_sdk::Map<Symbol, Val>) -> nat;

/// What the host behind `env` holds for the running contract.
pub uninterp spec fn ledger_state(env: Env) -> LedgerState;

/// Whether an address is that of a contract, rather than of an account.
pub uninterp spec fn is_contract(address: Address) -> bool;

// Addresses and texts.

/// `Address::clone`: the copy is the same address.
pub assume_specification[ <Address as Clone>::clone ](address: &Address) -> (copy: Address)
    ensures
        copy == *address,
;

/// `String::clone`: the copy is the same text.
pub assume_specification[ <soroban_sdk::String as Clone>::clone ](
    text: &soroban_sdk::String,
) -> (copy: soroban_sdk::String)
    ensures
        copy == *text,
;

/// `Address::eq`: true exactly of one and the same address.
#[verifier::external_body]
pub(crate) fn same_address(a: &Address, b: &Address) -> (same: bool)
    ensures
        same == (*a == *b),
{
    a == b
}

/// `Address::to_payload`: whether the payload is the hash of a contract id.
#[verifier::external_body]
pub(crate) fn has_contract_payload(address: &Address) -> (contract: bool)
    ensures
        contract == is_contract(*address),
{
    matches!(address.to_payload(), Some(AddressPayload::ContractIdHash(_)))
}

// Plain values to host values and back. Reading a value as a type other than
// its own gives nothing.

/// `bool` to `Val`.
#[verifier::external_body]
pub(crate) fn val_of_bool(env: &Env, flag: bool) -> (val: Val)
    ensures
        datum(val) == Datum::Bool(flag),
{
    flag.into_val(env)
}

/// `bool::try_from_val`.
#[verifier::external_body]
pub(crate) fn bool_of_val(env: &Env, val: &Val) -> (flag: Option<bool>)
    ensures
        flag == (match datum(*val) {
            Datum::Bool(b) => Some(b),
            _ => None,
        }),
{
    bool::try_from_val(env, val).ok()
}

/// `u32` to `Val`.
#[verifier::external_body]
pub(crate) fn val_of_u32(env: &Env, number: u32) -> (val: Val)
    ensures
        datum(val) == Datum::U32(number),
{
    number.into_val(env)
}

/// `u32::try_from_val`.
#[verifier::external_body]
pub(crate) fn u32_of_val(env: &Env, val: &Val) -> (number: Option<u32>)
    ensures
        number == (match datum(*val) {
            Datum::U32(n) => Some(n),
            _ => None,
        }),
{
    u32::try_from_val(env, val).ok()
}

/// `u64` to `Val`.
#[verifier::external_body]
pub(crate) fn val_of_u64(env: &Env, number: u64) -> (val: Val)
    ensures
        datum(val) == Datum::U64(number),
{
    number.into_val(env)
}

/// `u64::try_from_val`.
#[verifier::external_body]
pub(crate) fn u64_of_val(env: &Env, val: &Val) -> (number: Option<u64>)
    ensures
        number == (match datum(*val) {
            Datum::U64(n) => Some(n),
            _ => None,
        }),
{
    u64::try_from_val(env, val).ok()
}

/// `i128` to `Val`.
#[verifier::external_body]
pub(crate) fn val_of_i128(env: &Env, number: i128) -> (val: Val)
    ensures
        datum(val) == Datum::I128(number),
{
    number.into_val(env)
}

/// `i128::try_from_val`.
#[verifier::external_body]
pub(crate) fn i128_of_val(env: &Env, val: &Val) -> (number: Option<i128>)
    ensures
        number == (match datum(*val) {
            Datum::I128(n) => Some(n),
            _ => None,
        }),
{
    i128::try_from_val(env, val).ok()
}

/// `Address::to_val`.
#[verifier::external_body]
pub(crate) fn val_of_address(address: &Address) -> (val: Val)
    ensures
        datum(val) == Datum::Account(*address),
{
    address.to_val()
}

/// `Address::try_from_val`.
#[verifier::external_body]
pub(crate) fn address_of_val(env: &Env, val: &Val) -> (address: Option<Address>)
    ensures
        address == (match datum(*val) {
            Datum::Account(a) => Some(a),
            _ => None,
        }),
{
    Address::try_from_val(env, val).ok()
}

/// `String::to_val`.
#[verifier::external_body]
pub(crate) fn val_of_text(text: &soroban_sdk::String) -> (val: Val)
    ensures
        datum(val) == Datum::Text(*text),
{
    text.to_val()
}

/// `String::try_from_val`.
#[verifier::external_body]
pub(crate) fn text_of_val(env: &Env, val: &Val) -> (text: Option<soroban_sdk::String>)
    ensures
        text == (match datum(*val) {
            Datum::Text(t) => Some(t),
            _ => None,
        }),
{
    soroban_sdk::String::try_from_val(env, val).ok()
}

/// `Symbol::new`, as a `Val`. It panics on a name that no symbol can have.
#[verifier::external_body]
pub(crate) fn val_of_symbol(env: &Env, name: &str) -> (val: Val)
    requires
        is_symbol(name@),
    ensures
        datum(val) == Datum::Symbol(name@),
{
    Symbol::new(env, name).to_val()
}

// Lists.

/// `Vec::new`: no items.
#[verifier::external_body]
pub(crate) fn list_new(env: &Env) -> (list: soroban_sdk::Vec<Val>)
    ensures
        list_items(list) == Seq::<Datum>::empty(),
{
    soroban_sdk::Vec::new(env)
}

/// `Vec::push_back`: the value becomes the last item. The host counts items in
/// 32 bits.
#[verifier::external_body]
pub(crate) fn list_push(list: &mut soroban_sdk::Vec<Val>, val: Val)
    requires
        list_items(*old(list)).len() < u32::MAX,
    ensures
        list_items(*final(list)) == list_items(*old(list)).push(datum(val)),
{
    list.push_back(val)
}

/// `Vec::len`: the number of items.
#[verifier::external_body]
pub(crate) fn list_len(list: &soroban_sdk::Vec<Val>) -> (len: u32)
    ensures
        len == list_items(*list).len(),
{
    list.len()
}

/// `Vec::get`: the item at a position, nothing past the end.
#[verifier::external_body]
pub(crate) fn list_get(list: &soroban_sdk::Vec<Val>, i: u32) -> (val: Option<Val>)
    ensures
        match val {
            Some(v) => i < list_items(*list).len() && datum(v) == list_items(*list)[i as int],
            None => i >= list_items(*list).len(),
        },
{
    list.get(i)
}

/// `Vec::to_val`.
#[verifier::external_body]
pub(crate) fn val_of_list(list: &soroban_sdk::Vec<Val>) -> (val: Val)
    ensures
        datum(val) == Datum::List(list_items(*list)),
{
    list.to_val()
}

/// `Vec::try_from_val`.
#[verifier::external_body]
pub(crate) fn list_of_val(env: &Env, val: &Val) -> (list: Option<soroban_sdk::Vec<Val>>)
    ensures
        match list {
            Some(l) => datum(*val) == Datum::List(list_items(l)),
            None => !(datum(*val) is List),
        },
{
    soroban_sdk::Vec::try_from_val(env, val).ok()
}

/// `Vec::try_from_val`, for a list of ids: any list will do, whatever its items.
#[verifier::external_body]
pub(crate) fn id_list_of_val(env: &Env, val: &Val) -> (list: Option<soroban_sdk::Vec<u64>>)
    ensures
        match list {
            Some(l) => datum(*val) == Datum::List(id_list_items(l)),
            None => !(datum(*val) is List),
        },
{
    soroban_sdk::Vec::try_from_val(env, val).ok()
}

// Records.

/// `Map::new`: no entries.
#[verifier::external_body]
pub(crate) fn record_new(env: &Env) -> (record: soroban_sdk::Map<Symbol, Val>)
    ensures
        (record_fields(record) == Map::<Seq<char>, Datum>::empty()),
        record_size(record) == 0,
{
    soroban_sdk::Map::new(env)
}

/// `Map::set` under the symbol `name`: adds the entry or replaces it.
#[verifier::external_body]
pub(crate) fn record_set(
    env: &Env,
    record: &mut soroban_sdk::Map<Symbol, Val>,
    name: &str,
    val: Val,
)
    requires
        is_symbol(name@),
    ensures
        record_fields(*final(record)) == record_fields(*old(record)).insert(name@, datum(val)),
        record_size(*final(record)) == record_size(*old(record)) + if record_fields(
            *old(record),
        ).contains_key(name@) {
            0nat
        } else {
            1nat
        },
{
    record.set(Symbol::new(env, name), val)
}

/// `Map::get` under the symbol `name`.
#[verifier::external_body]
pub(crate) fn record_get(
    env: &Env,
    record: &soroban_sdk::Map<Symbol, Val>,
    name: &str,
) -> (val: Option<Val>)
    requires
        is_symbol(name@),
    ensures
        match val {
            Some(v) => record_fields(*record).contains_key(name@) && record_fields(
                *record,
            )[name@] == datum(v),
            None => !record_fields(*record).contains_key(name@),
        },
{
    record.get(Symbol::new(env, name))
}

/// `Map::len`: the number of entries.
#[verifier::external_body]
pub(crate) fn record_len(record: &soroban_sdk::Map<Symbol, Val>) -> (len: u32)
    ensures
        len == record_size(*record),
{
    record.len()
}

/// `Map::to_val`.
#[verifier::external_body]
pub(crate) fn val_of_record(record: &soroban_sdk::Map<Symbol, Val>) -> (val: Val)
    ensures
        datum(val) == (Datum::Record {
            fields: record_fields(*record),
            size: record_size(*record),
        }),
{
    record.to_val()
}

/// `Map::try_from_val`.
#[verifier::external_body]
pub(crate) fn record_of_val(
    env: &Env,
    val: &Val,
) -> (record: Option<soroban_sdk::Map<Symbol, Val>>)
    ensures
        match record {
            Some(r) => datum(*val) == (Datum::Record {
                fields: record_fields(r),
                size: record_size(r),
            }),
            None => !(datum(*val) is Record),
        },
{
    soroban_sdk::Map::try_from_val(env, val).ok()
}

// Storage. A contract's storage is read and written by that contract alone.

/// `Instance::has`: whether there is an entry under the key.
#[verifier::external_body]
pub(crate) fn instance_has(env: &Env, key: &Val) -> (has: bool)
    requires
        datum(*key).is_key(),
    ensures
        has == ledger_state(*env).instance.contains_key(datum(*key)),
{
    env.storage().instance().has(key)
}

/// `Instance::get`: the value under the key, if there is one.
#[verifier::external_body]
pub(crate) fn instance_get(env: &Env, key: &Val) -> (val: Option<Val>)
    requires
        datum(*key).is_key(),
    ensures
        match val {
            Some(v) => ledger_state(*env).instance.contains_key(datum(*key)) && ledger_state(
                *env,
            ).instance[datum(*key)] == datum(v),
            None => !ledger_state(*env).instance.contains_key(datum(*key)),
        },
{
    env.storage().instance().get(key)
}

/// `Instance::set`: the value goes under the key; nothing else changes.
#[verifier::external_body]
pub(crate) fn instance_set(env: &mut Env, key: &Val, val: &Val)
    requires
        datum(*key).is_key(),
        datum(*val).is_storable(),
    ensures
        ledger_state(*final(env)) == (LedgerState {
            instance: ledger_state(*old(env)).instance.insert(datum(*key), datum(*val)),
            ..ledger_state(*old(env))
        }),
{
    env.storage().instance().set(key, val)
}

/// `Persistent::get`: the value under the key, if there is one.
#[verifier::external_body]
pub(crate) fn persistent_get(env: &Env, key: &Val) -> (val: Option<Val>)
    requires
        datum(*key).is_key(),
    ensures
        match val {
            Some(v) => ledger_state(*env).persistent.contains_key(datum(*key)) && ledger_state(
                *env,
            ).persistent[datum(*key)] == datum(v),
            None => !ledger_state(*env).persistent.contains_key(datum(*key)),
        },
{
    env.storage().persistent().get(key)
}

/// `Persistent::set`: the value goes under the key; nothing else changes. What lies
/// in storage can be stored again, so a stored list may have items of any kind.
#[verifier::external_body]
pub(crate) fn persistent_set(env: &mut Env, key: &Val, val: &Val)
    requires
        datum(*key).is_key(),
        datum(*val).is_storable() || ledger_state(*old(env)).adds_to_list(
            datum(*key),
            datum(*val),
        ),
    ensures
        ledger_state(*final(env)) == (LedgerState {
            persistent: ledger_state(*old(env)).persistent.insert(datum(*key), datum(*val)),
            ..ledger_state(*old(env))
        }),
{
    env.storage().persistent().set(key, val)
}

/// `Persistent::remove`: the key has no value afterwards; nothing else changes.
#[verifier::external_body]
pub(crate) fn persistent_remove(env: &mut Env, key: &Val)
    requires
        datum(*key).is_key(),
    ensures
        ledger_state(*final(env)) == (LedgerState {
            persistent: ledger_state(*old(env)).persistent.remove(datum(*key)),
            ..ledger_state(*old(env))
        }),
{
    env.storage().persistent().remove(key)
}

// The ledger, events and the token contracts.

/// `Ledger::sequence`: the sequence number of the ledger.
#[verifier::external_body]
pub(crate) fn ledger_sequence(env: &Env) -> (sequence: u32)
    ensures
        sequence == ledger_state(*env).sequence,
{
    env.ledger().sequence()
}

/// `Events::publish` under one topic, a symbol: the event goes behind those
/// published before; nothing else changes.
#[allow(deprecated)]
#[verifier::external_body]
pub(crate) fn publish_event(env: &mut Env, topic: &str, data: Val)
    requires
        is_symbol(topic@),
        datum(data).is_storable(),
    ensures
        ledger_state(*final(env)) == (LedgerState {
            events: ledger_state(*old(env)).events.push(
                Announcement { topic: topic@, data: datum(data) },
            ),
            ..ledger_state(*old(env))
        }),
{
    env.events().publish((Symbol::new(env, topic),), data)
}

/// `TokenClient::try_transfer`: asks the token contract `asset` to move `amount`
/// and says whether it returned without an error. Whether it does is up to that
/// contract, so nothing is said of the answer but that it goes on record with
/// the request. The host lets no callee back into the running contract, so the
/// contract's storage stays as it was. A call at an address that is no
/// contract's does not return.
#[verifier::external_body]
pub(crate) fn request_transfer(
    env: &mut Env,
    asset: &Address,
    from: &Address,
    to: &Address,
    amount: i128,
) -> (accepted: bool)
    requires
        is_contract(*asset),
    ensures
        ledger_state(*final(env)) == (LedgerState {
            transfers: ledger_state(*old(env)).transfers.push(
                TransferCall {
                    payment: Payment { asset: *asset, from: *from, to: *to, amount },
                    accepted,
                },
            ),
            ..ledger_state(*old(env))
        }),
{
    matches!(TokenClient::new(env, asset).try_transfer(from, to, &amount), Ok(Ok(())))
}

} // verus!
