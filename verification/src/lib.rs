//! Authorization policies and a permission-gated credential vault for a
//! ledger host.
//!
//! The host supplies four things: proof that a principal authorized the
//! current invocation, a clock, an event sink and durable storage. The first
//! three travel in a [`host::Host`]; the storage of each contract is the
//! contract value itself, read and written slot by slot through its `get`
//! and `put`.
//!
//! Every operation is stated against a mathematical model of the storage
//! ([`policy_state::PolicyState`], [`vault_state::VaultState`]): the model
//! says, for each state, host and argument, what the operation answers, what
//! it leaves in storage and what it publishes. What holds across several
//! invocations is proved of the models in [`policy_laws`] and
//! [`vault_laws`].

pub mod account_abstraction;
pub mod error;
pub mod host;
pub mod policy_laws;
pub mod policy_state;
pub mod principal;
pub mod table;
pub mod token_vault;
pub mod vault_laws;
pub mod vault_state;
