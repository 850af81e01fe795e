//! The invariant check over the invoices that the contract's operations leave
//! behind: a submitted invoice is pending, a funded one is funded in full by
//! its funder, a paid or cancelled one is terminal.
use invoice_liquidity::account::AccountId;
use invoice_liquidity::invariants::{check_invariants, check_stored_invoices, InvariantViolation};
use invoice_liquidity::invoice::{Invoice, InvoiceStatus};

const INVOICE_AMOUNT: i128 = 1_000_000_000;
const DISCOUNT_RATE: u32 = 300;
const DUE_DATE_OFFSET: u64 = 60 * 60 * 24 * 30;
const NOW: u64 = 1_700_000_000;

fn account(s: &str) -> AccountId {
    AccountId::new(s.to_string())
}

fn submitted(id: u64) -> Invoice {
    Invoice {
        id,
        freelancer: account("GFREELANCER"),
        payer: account("GPAYER"),
        token: account("CUSDC"),
        amount: INVOICE_AMOUNT,
        due_date: NOW + DUE_DATE_OFFSET,
        discount_rate: DISCOUNT_RATE,
        status: InvoiceStatus::Pending,
        funder: None,
        funded_at: None,
        amount_funded: 0,
    }
}

fn funded(id: u64) -> Invoice {
    let mut invoice = submitted(id);
    invoice.status = InvoiceStatus::Funded;
    invoice.funder = Some(account("GFUNDER"));
    invoice.funded_at = Some(NOW);
    invoice.amount_funded = INVOICE_AMOUNT;
    invoice
}

fn with_status(mut invoice: Invoice, status: InvoiceStatus) -> Invoice {
    invoice.status = status;
    invoice
}

#[test]
fn invariants_hold_after_submit() {
    assert_eq!(check_invariants(&vec![submitted(1)]), Ok(()));
}

#[test]
fn invariants_hold_after_fund() {
    assert_eq!(check_invariants(&vec![funded(1)]), Ok(()));
}

#[test]
fn invariants_hold_after_mark_paid() {
    assert_eq!(check_invariants(&vec![with_status(funded(1), InvoiceStatus::Paid)]), Ok(()));
}

#[test]
fn invariants_hold_after_cancel() {
    assert_eq!(check_invariants(&vec![with_status(submitted(1), InvoiceStatus::Cancelled)]), Ok(()));
}

#[test]
fn invariants_hold_across_multiple_invoices() {
    let paid = with_status(funded(1), InvoiceStatus::Paid);
    assert_eq!(check_invariants(&vec![paid.clone(), submitted(2), submitted(3)]), Ok(()));
    let cancelled = with_status(submitted(2), InvoiceStatus::Cancelled);
    assert_eq!(check_invariants(&vec![paid.clone(), cancelled.clone(), submitted(3)]), Ok(()));
    assert_eq!(check_invariants(&vec![paid, cancelled, submitted(3)]), Ok(()));
}

#[test]
fn invariant_logic_catches_funded_without_funder() {
    let pending = submitted(1);
    assert!(pending.funder.is_none(), "expected no funder on Pending invoice");
    assert_eq!(check_invariants(&vec![pending]), Ok(()));
    let good = funded(1);
    assert!(
        good.funder.is_some(),
        "Funded invoice must have funder set — invariant would have caught missing funder"
    );
    assert_eq!(check_invariants(&vec![good.clone()]), Ok(()));
    let mut broken = good;
    broken.funder = None;
    assert_eq!(check_invariants(&vec![broken]), Err(1));
}

#[test]
fn stored_invoices_all_present_and_consistent() {
    let entries = vec![Some(funded(1)), Some(submitted(2)), Some(with_status(submitted(3), InvoiceStatus::Cancelled))];
    assert_eq!(check_stored_invoices(&entries), Ok(()));
    assert_eq!(check_stored_invoices(&Vec::new()), Ok(()));
}

#[test]
fn missing_stored_invoice_is_reported() {
    let entries = vec![Some(submitted(1)), None, Some(submitted(3))];
    assert_eq!(check_stored_invoices(&entries), Err(InvariantViolation::Missing(2)));
}

#[test]
fn first_violation_wins() {
    let mut broken = funded(1);
    broken.funded_at = None;
    let entries = vec![Some(broken), None];
    assert_eq!(check_stored_invoices(&entries), Err(InvariantViolation::Inconsistent(1)));
}
