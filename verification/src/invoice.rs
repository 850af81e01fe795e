//! Invoices, storage keys, invoice identifiers and contract statistics.
use vstd::prelude::*;

use crate::account::AccountId;

verus! {

/// Where an invoice stands in its lifecycle.
#[derive(Clone, Copy, Debug, PartialEq, Eq, Structural)]
pub enum InvoiceStatus {
    /// Submitted, waiting for a liquidity provider to fund it.
    Pending,
    /// Fully funded; the freelancer has been paid out.
    Funded,
    /// Funded in part by one or more liquidity providers.
    PartiallyFunded,
    /// Settled in full by the payer; the liquidity provider has been released.
    Paid,
    /// Past its due date and still unpaid.
    Defaulted,
    /// Past its due date without funding.
    Expired,
    /// Cancelled by the freelancer before funding.
    Cancelled,
    /// A default that the payer has appealed, awaiting resolution.
    Appealed,
}

/// An invoice as the contract stores it.
#[derive(Clone, Debug)]
pub struct Invoice {
    pub id: u64,
    /// Who submitted the invoice and receives the liquidity.
    pub freelancer: AccountId,
    /// The client who owes the money.
    pub payer: AccountId,
    /// Token in which the invoice is settled.
    pub token: AccountId,
    /// Full invoice value in stroops (1 USDC = 10_000_000).
    pub amount: i128,
    /// Unix timestamp by which the payer must settle.
    pub due_date: u64,
    /// Discount in basis points (300 = 3.00%).
    pub discount_rate: u32,
    pub status: InvoiceStatus,
    /// Set when a liquidity provider funds the invoice in full.
    pub funder: Option<AccountId>,
    /// Ledger timestamp of the funding.
    pub funded_at: Option<u64>,
    /// Amount funded so far.
    pub amount_funded: i128,
}

/// What a freelancer supplies to submit an invoice.
#[derive(Clone, Debug)]
pub struct InvoiceParams {
    pub freelancer: AccountId,
    pub payer: AccountId,
    pub amount: i128,
    pub due_date: u64,
    pub discount_rate: u32,
    pub token: AccountId,
}

/// Settlement history of one payer.
#[derive(Clone, Copy, Debug, PartialEq, Eq, Structural)]
pub struct PayerStats {
    pub total_invoices: u64,
    pub paid_on_time: u64,
    pub defaults: u64,
    pub total_volume: i128,
}

impl Default for PayerStats {
    fn default() -> (stats: PayerStats)
        ensures
            stats == (PayerStats { total_invoices: 0, paid_on_time: 0, defaults: 0, total_volume: 0 }),
    {
        PayerStats { total_invoices: 0, paid_on_time: 0, defaults: 0, total_volume: 0 }
    }
}

/// Contract-wide counters.
#[derive(Clone, Copy, Debug, PartialEq, Eq, Structural)]
pub struct ContractStats {
    pub total_invoices: u64,
    pub total_funded: u64,
    pub total_paid: u64,
    pub total_volume_usdc: i128,
    pub total_volume_eurc: i128,
    pub total_volume_xlm: i128,
}

impl Default for ContractStats {
    fn default() -> (stats: ContractStats)
        ensures
            stats == (ContractStats {
                total_invoices: 0,
                total_funded: 0,
                total_paid: 0,
                total_volume_usdc: 0,
                total_volume_eurc: 0,
                total_volume_xlm: 0,
            }),
    {
        ContractStats {
            total_invoices: 0,
            total_funded: 0,
            total_paid: 0,
            total_volume_usdc: 0,
            total_volume_eurc: 0,
            total_volume_xlm: 0,
        }
    }
}

/// Keys of the contract's storage entries.
#[derive(Clone, Debug, PartialEq, Eq)]
pub enum StorageKey {
    /// An invoice, by identifier.
    Invoice(u64),
    /// The last invoice identifier handed out.
    InvoiceCount,
    /// The USDC token address.
    Token,
    /// A payer's reputation.
    PayerScore(AccountId),
    /// The funders of a partially funded invoice, with their contributions.
    InvoiceFunders(u64),
    ApprovedToken(AccountId),
    TokenList,
    Admin,
    FeeRate,
    MaxDiscountRate,
    DistributionContract,
    /// Invoices submitted.
    TotalInvoices,
    /// Invoices funded in full.
    TotalFunded,
    /// Invoices paid.
    TotalPaid,
    /// Volume settled in USDC.
    TotalVolumeUsdc,
    /// Volume settled in EURC.
    TotalVolumeEurc,
    /// Volume settled in XLM.
    TotalVolumeXlm,
    /// Whether the contract is paused.
    Paused,
}

/// What a counter entry holds, zero when it is absent.
pub open spec fn count_or_zero(stored: Option<u64>) -> int {
    match stored {
        Some(n) => n as int,
        None => 0,
    }
}

/// What a volume entry holds, zero when it is absent.
pub open spec fn volume_or_zero(stored: Option<i128>) -> int {
    match stored {
        Some(v) => v as int,
        None => 0,
    }
}

/// The identifier that `next_invoice_id` hands out when the counter entry
/// holds `stored`.
pub open spec fn next_id(stored: Option<u64>) -> int {
    count_or_zero(stored) + 1
}

/// Identifiers are handed out consecutively from 1: the first is 1, and each
/// one after that is one more than the one before.
pub proof fn lemma_ids_are_consecutive(stored: Option<u64>)
    requires
        next_id(stored) <= u64::MAX,
    ensures
        next_id(None) == 1,
        next_id(Some(next_id(stored) as u64)) == next_id(stored) + 1,
        next_id(stored) > count_or_zero(stored),
{
}

/// Hands out the next invoice identifier: one more than the last one in
/// `count_slot` (zero when none was handed out yet), which is recorded there.
pub fn next_invoice_id(count_slot: &mut Option<u64>) -> (id: u64)
    requires
        count_or_zero(*old(count_slot)) < u64::MAX,
    ensures
        id == next_id(*old(count_slot)),
        *final(count_slot) == Some(id),
{
    let current: u64 = match *count_slot {
        Some(n) => n,
        None => 0,
    };
    let next = current + 1;
    *count_slot = Some(next);
    next
}

/// The funders recorded for an invoice, empty when none are recorded.
pub fn get_invoice_funders(stored: Option<Vec<(AccountId, i128)>>) -> (funders: Vec<(AccountId, i128)>)
    ensures
        match stored {
            Some(v) => funders@ == v@,
            None => funders@.len() == 0,
        },
{
    match stored {
        Some(v) => v,
        None => Vec::new(),
    }
}

/// The contract statistics from the six counter entries, each zero when absent.
pub fn get_contract_stats(
    total_invoices: Option<u64>,
    total_funded: Option<u64>,
    total_paid: Option<u64>,
    total_volume_usdc: Option<i128>,
    total_volume_eurc: Option<i128>,
    total_volume_xlm: Option<i128>,
) -> (stats: ContractStats)
    ensures
        stats.total_invoices == count_or_zero(total_invoices),
        stats.total_funded == count_or_zero(total_funded),
        stats.total_paid == count_or_zero(total_paid),
        stats.total_volume_usdc == volume_or_zero(total_volume_usdc),
        stats.total_volume_eurc == volume_or_zero(total_volume_eurc),
        stats.total_volume_xlm == volume_or_zero(total_volume_xlm),
{
    ContractStats {
        total_invoices: total_invoices.unwrap_or(0),
        total_funded: total_funded.unwrap_or(0),
        total_paid: total_paid.unwrap_or(0),
        total_volume_usdc: total_volume_usdc.unwrap_or(0),
        total_volume_eurc: total_volume_eurc.unwrap_or(0),
        total_volume_xlm: total_volume_xlm.unwrap_or(0),
    }
}

/// Adds one to the counter held in `slot` (zero when absent).
fn increment_counter(slot: &mut Option<u64>)
    requires
        count_or_zero(*old(slot)) < u64::MAX,
    ensures
        *final(slot) == Some((count_or_zero(*old(slot)) + 1) as u64),
{
    let current: u64 = match *slot {
        Some(n) => n,
        None => 0,
    };
    *slot = Some(current + 1);
}

/// Counts one more submitted invoice.
pub fn increment_total_invoices(total_invoices: &mut Option<u64>)
    requires
        count_or_zero(*old(total_invoices)) < u64::MAX,
    ensures
        *final(total_invoices) == Some((count_or_zero(*old(total_invoices)) + 1) as u64),
{
    increment_counter(total_invoices);
}

/// Counts one more fully funded invoice.
pub fn increment_total_funded(total_funded: &mut Option<u64>)
    requires
        count_or_zero(*old(total_funded)) < u64::MAX,
    ensures
        *final(total_funded) == Some((count_or_zero(*old(total_funded)) + 1) as u64),
{
    increment_counter(total_funded);
}

/// Counts one more paid invoice.
pub fn increment_total_paid(total_paid: &mut Option<u64>)
    requires
        count_or_zero(*old(total_paid)) < u64::MAX,
    ensures
        *final(total_paid) == Some((count_or_zero(*old(total_paid)) + 1) as u64),
{
    increment_counter(total_paid);
}

/// The volume entry that a settlement in `token` counts towards: the first of
/// USDC, EURC and XLM whose address equals `token`, or none.
pub open spec fn counted_volume(token: Seq<char>, usdc: Seq<char>, eurc: Seq<char>, xlm: Seq<char>) -> Option<StorageKey> {
    if token == usdc {
        Some(StorageKey::TotalVolumeUsdc)
    } else if token == eurc {
        Some(StorageKey::TotalVolumeEurc)
    } else if token == xlm {
        Some(StorageKey::TotalVolumeXlm)
    } else {
        None
    }
}

/// Whether adding `amount` to the volume held in `stored` stays within `i128`.
pub open spec fn volume_sum_fits(stored: Option<i128>, amount: i128) -> bool {
    i128::MIN <= volume_or_zero(stored) + amount <= i128::MAX
}

/// The volume entry after `amount` is added when `chosen`, unchanged otherwise.
pub open spec fn volume_after(stored: Option<i128>, amount: i128, chosen: bool) -> Option<i128> {
    if chosen {
        Some((volume_or_zero(stored) + amount) as i128)
    } else {
        stored
    }
}

/// A settlement counts towards the USDC volume when its token is the USDC
/// address; towards EURC when it is the EURC address and not the USDC one;
/// towards XLM when it is the XLM address and neither of the others; and
/// towards no volume otherwise. The counted volume grows by exactly the
/// amount, from zero when absent, and the others keep what they held.
pub proof fn lemma_volume_routing(
    token: Seq<char>,
    usdc: Seq<char>,
    eurc: Seq<char>,
    xlm: Seq<char>,
    stored: Option<i128>,
    amount: i128,
)
    ensures
        (counted_volume(token, usdc, eurc, xlm) == Some(StorageKey::TotalVolumeUsdc)) <==> token
            == usdc,
        (counted_volume(token, usdc, eurc, xlm) == Some(StorageKey::TotalVolumeEurc)) <==> (token
            != usdc && token == eurc),
        (counted_volume(token, usdc, eurc, xlm) == Some(StorageKey::TotalVolumeXlm)) <==> (token
            != usdc && token != eurc && token == xlm),
        (counted_volume(token, usdc, eurc, xlm) is None) <==> (token != usdc && token != eurc
            && token != xlm),
        volume_after(stored, amount, false) == stored,
        volume_sum_fits(stored, amount) ==> volume_after(stored, amount, true) == Some(
            (match stored {
                Some(v) => v + amount,
                None => amount as int,
            }) as i128,
        ),
{
}

/// Absent counters and volumes read as zero; stored ones read as stored.
pub proof fn lemma_absent_entries_read_zero(count: Option<u64>, volume: Option<i128>)
    ensures
        count_or_zero(None) == 0,
        volume_or_zero(None) == 0,
        count is Some ==> count_or_zero(count) == count->0,
        volume is Some ==> volume_or_zero(volume) == volume->0,
        next_id(count) == (match count {
            Some(n) => n + 1,
            None => 1,
        }),
{
}

/// The volume entry that a settlement in `token` counts towards, if any.
pub fn volume_key(token: &AccountId, usdc: &AccountId, eurc: &AccountId, xlm: &AccountId) -> (key: Option<StorageKey>)
    ensures
        key == counted_volume(token@, usdc@, eurc@, xlm@),
{
    if token.same_as(usdc) {
        Some(StorageKey::TotalVolumeUsdc)
    } else if token.same_as(eurc) {
        Some(StorageKey::TotalVolumeEurc)
    } else if token.same_as(xlm) {
        Some(StorageKey::TotalVolumeXlm)
    } else {
        None
    }
}

fn add_to_volume(slot: &mut Option<i128>, amount: i128)
    requires
        volume_sum_fits(*old(slot), amount),
    ensures
        *final(slot) == volume_after(*old(slot), amount, true),
{
    let current: i128 = match *slot {
        Some(v) => v,
        None => 0,
    };
    *slot = Some(current + amount);
}

/// Adds `amount` to the volume of the token it was settled in: the USDC
/// volume when `token` is the USDC address, else the EURC volume when it is
/// the EURC address, else the XLM volume when it is the XLM address. A token
/// that is none of these changes no volume.
pub fn add_volume(
    token: &AccountId,
    amount: i128,
    usdc: &AccountId,
    eurc: &AccountId,
    xlm: &AccountId,
    usdc_volume: &mut Option<i128>,
    eurc_volume: &mut Option<i128>,
    xlm_volume: &mut Option<i128>,
)
    requires
        counted_volume(token@, usdc@, eurc@, xlm@) == Some(StorageKey::TotalVolumeUsdc)
            ==> volume_sum_fits(*old(usdc_volume), amount),
        counted_volume(token@, usdc@, eurc@, xlm@) == Some(StorageKey::TotalVolumeEurc)
            ==> volume_sum_fits(*old(eurc_volume), amount),
        counted_volume(token@, usdc@, eurc@, xlm@) == Some(StorageKey::TotalVolumeXlm)
            ==> volume_sum_fits(*old(xlm_volume), amount),
    ensures
        *final(usdc_volume) == volume_after(
            *old(usdc_volume),
            amount,
            counted_volume(token@, usdc@, eurc@, xlm@) == Some(StorageKey::TotalVolumeUsdc),
        ),
        *final(eurc_volume) == volume_after(
            *old(eurc_volume),
            amount,
            counted_volume(token@, usdc@, eurc@, xlm@) == Some(StorageKey::TotalVolumeEurc),
        ),
        *final(xlm_volume) == volume_after(
            *old(xlm_volume),
            amount,
            counted_volume(token@, usdc@, eurc@, xlm@) == Some(StorageKey::TotalVolumeXlm),
        ),
{
    match volume_key(token, usdc, eurc, xlm) {
        Some(StorageKey::TotalVolumeUsdc) => add_to_volume(usdc_volume, amount),
        Some(StorageKey::TotalVolumeEurc) => add_to_volume(eurc_volume, amount),
        Some(StorageKey::TotalVolumeXlm) => add_to_volume(xlm_volume, amount),
        _ => {},
    }
}

/// Whether the contract is paused; it is not when the flag was never set.
pub fn is_paused(stored: Option<bool>) -> (paused: bool)
    ensures
        paused == (stored == Some(true)),
{
    match stored {
        Some(p) => p,
        None => false,
    }
}

} // verus!
