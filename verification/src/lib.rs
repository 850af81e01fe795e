//! Verified core of an invoice-liquidity contract: the rules that decide
//! invoice identifiers, payer reputation with decay, configuration updates,
//! contract statistics and the invoice state invariants.
//!
//! Every function here works on plain values: what a storage entry holds is
//! handed in (as an `Option`, `None` when the entry is absent) and what has to
//! be written back is handed out, often through a `&mut Option<..>` that
//! stands for the storage entry itself.
use vstd::prelude::*;

pub mod account;
pub mod config;
pub mod reputation;
pub mod invoice;
pub mod invariants;

