//! The logic of a book shop that runs as a Soroban contract.
//!
//! Creators register books; readers buy them and get a token for each; tokens can
//! be given away, sold directly or put up for sale, and every resale pays the
//! creator's royalty. Sales settle inside the request, in one payment token.
//!
//! - [`types`] has the records, the events and the refusals.
//! - [`host`] is the boundary: what this library calls of the contract host, and
//!   what it takes on trust of it.
//! - [`layout`] says how records, keys and events look to the host.
//! - [`ledger`] reads and writes the records.
//! - [`settlement`] splits the price of a sale and moves it.
//! - [`rules`] states, for each request, why it is refused and what it does.
//! - [`contract`] answers the requests.
//! - [`answers`] has when each request is granted, and what it is answered otherwise.
//! - [`effects`] has what can be read after each request that is granted.
//! - [`records`] has how the records lie in storage and are read from it.
//! - [`requests`] gathers the rules under one name.
//! - [`consistency`] has what the contract keeps true of its records.
//! - [`laws`] has what follows for those who use it.

pub mod answers;
pub mod consistency;
pub mod contract;
pub mod effects;
pub mod host;
pub mod laws;
pub mod layout;
pub mod ledger;
pub mod records;
pub mod requests;
pub mod rules;
pub mod settlement;
pub mod types;
