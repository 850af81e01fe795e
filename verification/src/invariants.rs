//! The state invariants that every stored invoice satisfies.
use vstd::prelude::*;

use crate::invoice::{Invoice, InvoiceStatus};

verus! {

/// Whether an invoice's fields agree with its status:
/// - a pending invoice has no funder and nothing funded;
/// - a partially funded invoice has funded more than zero and less than its amount;
/// - a funded invoice has a funder, a funding time, and its whole amount funded;
/// - paid, defaulted, appealed, expired and cancelled invoices carry no further constraint.
pub open spec fn invoice_consistent(invoice: Invoice) -> bool {
    match invoice.status {
        InvoiceStatus::Pending => invoice.funder is None && invoice.amount_funded == 0,
        InvoiceStatus::PartiallyFunded => 0 < invoice.amount_funded < invoice.amount,
        InvoiceStatus::Funded => {
            &&& invoice.funder is Some
            &&& invoice.funded_at is Some
            &&& invoice.amount_funded == invoice.amount
        },
        _ => true,
    }
}

/// What consistency requires of each status, field by field: a pending
/// invoice has no funder and nothing funded; a partially funded one has
/// funded strictly between zero and its amount; a funded one has a funder, a
/// funding time, and exactly its amount funded; other statuses ask nothing.
pub proof fn lemma_consistency_by_status(invoice: Invoice)
    ensures
        invoice.status == InvoiceStatus::Pending ==> (invoice_consistent(invoice) <==> (
        invoice.funder is None && invoice.amount_funded == 0)),
        invoice.status == InvoiceStatus::PartiallyFunded ==> (invoice_consistent(invoice) <==> (0
            < invoice.amount_funded && invoice.amount_funded < invoice.amount)),
        invoice.status == InvoiceStatus::Funded ==> (invoice_consistent(invoice) <==> (
        invoice.funder is Some && invoice.funded_at is Some && invoice.amount_funded
            == invoice.amount)),
        (invoice.status == InvoiceStatus::Paid || invoice.status == InvoiceStatus::Defaulted
            || invoice.status == InvoiceStatus::Appealed || invoice.status
            == InvoiceStatus::Expired || invoice.status == InvoiceStatus::Cancelled)
            ==> invoice_consistent(invoice),
{
}

/// Whether `invoice` satisfies the invariants of its status.
pub fn invoice_is_consistent(invoice: &Invoice) -> (consistent: bool)
    ensures
        consistent == invoice_consistent(*invoice),
{
    match invoice.status {
        InvoiceStatus::Pending => invoice.funder.is_none() && invoice.amount_funded == 0,
        InvoiceStatus::PartiallyFunded => invoice.amount_funded > 0 && invoice.amount_funded
            < invoice.amount,
        InvoiceStatus::Funded => invoice.funder.is_some() && invoice.funded_at.is_some()
            && invoice.amount_funded == invoice.amount,
        _ => true,
    }
}

/// Checks the invariants over `invoices`, the stored invoices in order of
/// identifier. Gives `Ok` when every invoice satisfies them, else the
/// identifier of the first one that does not.
pub fn check_invariants(invoices: &Vec<Invoice>) -> (result: Result<(), u64>)
    ensures
        match result {
            Ok(()) => forall|i: int|
                0 <= i < invoices@.len() ==> #[trigger] invoice_consistent(invoices@[i]),
            Err(id) => exists|k: int|
                {
                    &&& 0 <= k < invoices@.len()
                    &&& !invoice_consistent(#[trigger] invoices@[k])
                    &&& invoices@[k].id == id
                    &&& forall|j: int| 0 <= j < k ==> invoice_consistent(#[trigger] invoices@[j])
                },
        },
{
    let mut i: usize = 0;
    while i < invoices.len()
        invariant
            i <= invoices@.len(),
            forall|j: int| 0 <= j < i ==> invoice_consistent(#[trigger] invoices@[j]),
        decreases invoices@.len() - i,
    {
        if !invoice_is_consistent(&invoices[i]) {
            return Err(invoices[i].id);
        }
        i = i + 1;
    }
    Ok(())
}

/// Why the stored invoices break the contract's invariants.
#[derive(Clone, Copy, Debug, PartialEq, Eq, Structural)]
pub enum InvariantViolation {
    /// No invoice is stored under this identifier, though it was handed out.
    Missing(u64),
    /// The invoice stored under this identifier contradicts its status.
    Inconsistent(u64),
}

/// Whether the storage entry for an identifier holds a consistent invoice.
pub open spec fn entry_ok(entry: Option<Invoice>) -> bool {
    match entry {
        Some(invoice) => invoice_consistent(invoice),
        None => false,
    }
}

/// The violation that the entry for identifier `id` shows, given it is not ok.
pub open spec fn entry_violation(entry: Option<Invoice>, id: int) -> InvariantViolation {
    match entry {
        Some(_) => InvariantViolation::Inconsistent(id as u64),
        None => InvariantViolation::Missing(id as u64),
    }
}

/// A storage entry passes the check exactly when an invoice is stored there
/// and its fields agree with its status, as `lemma_consistency_by_status`
/// spells out; an empty entry is reported missing, a stored invoice that
/// fails is reported inconsistent under the entry's identifier.
pub proof fn lemma_entry_check_by_status(entry: Option<Invoice>, id: int)
    ensures
        entry is None ==> !entry_ok(entry) && entry_violation(entry, id)
            == InvariantViolation::Missing(id as u64),
        entry is Some ==> (entry_ok(entry) <==> invoice_consistent(entry->0)),
        entry is Some ==> entry_violation(entry, id) == InvariantViolation::Inconsistent(
            id as u64,
        ),
        entry is Some && entry->0.status == InvoiceStatus::PartiallyFunded ==> (entry_ok(entry)
            <==> (0 < entry->0.amount_funded && entry->0.amount_funded < entry->0.amount)),
        entry is Some && entry->0.status == InvoiceStatus::Funded ==> (entry_ok(entry) <==> (
        entry->0.funder is Some && entry->0.funded_at is Some && entry->0.amount_funded
            == entry->0.amount)),
        entry is Some && entry->0.status == InvoiceStatus::Pending ==> (entry_ok(entry) <==> (
        entry->0.funder is None && entry->0.amount_funded == 0)),
{
}

/// Checks every identifier handed out so far. `entries[i]` is the storage
/// entry for identifier `i + 1`, so `entries.len()` is the invoice count.
/// Gives `Ok` when every identifier from 1 to the count holds an invoice that
/// satisfies the invariants of its status; otherwise the first identifier
/// whose invoice is missing or inconsistent, and which of the two it is.
pub fn check_stored_invoices(entries: &Vec<Option<Invoice>>) -> (result: Result<(), InvariantViolation>)
    requires
        entries@.len() <= u64::MAX,
    ensures
        match result {
            Ok(()) => forall|i: int| 0 <= i < entries@.len() ==> #[trigger] entry_ok(entries@[i]),
            Err(violation) => exists|k: int|
                {
                    &&& 0 <= k < entries@.len()
                    &&& !entry_ok(#[trigger] entries@[k])
                    &&& violation == entry_violation(entries@[k], k + 1)
                    &&& forall|j: int| 0 <= j < k ==> entry_ok(#[trigger] entries@[j])
                },
        },
{
    let mut i: usize = 0;
    while i < entries.len()
        invariant
            i <= entries@.len(),
            entries@.len() <= u64::MAX,
            forall|j: int| 0 <= j < i ==> entry_ok(#[trigger] entries@[j]),
        decreases entries@.len() - i,
    {
        let id = (i as u64) + 1;
        match &entries[i] {
            None => {
                return Err(InvariantViolation::Missing(id));
            },
            Some(invoice) => {
                if !invoice_is_consistent(invoice) {
                    return Err(InvariantViolation::Inconsistent(id));
                }
            },
        }
        i = i + 1;
    }
    Ok(())
}

} // verus!
