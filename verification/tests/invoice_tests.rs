use invoice_liquidity::account::AccountId;
use invoice_liquidity::invariants::{check_invariants, invoice_is_consistent};
use invoice_liquidity::invoice::{
    add_volume, get_contract_stats, get_invoice_funders, increment_total_funded,
    increment_total_invoices, increment_total_paid, is_paused, next_invoice_id, volume_key, StorageKey, ContractStats,
    Invoice, InvoiceStatus, PayerStats,
};

fn account(s: &str) -> AccountId {
    AccountId::new(s.to_string())
}

fn invoice(id: u64, status: InvoiceStatus, funder: Option<&str>, funded_at: Option<u64>, funded: i128) -> Invoice {
    Invoice {
        id,
        freelancer: account("GFREELANCER"),
        payer: account("GPAYER"),
        token: account("CUSDC"),
        amount: 1_000_000_000,
        due_date: 1_702_592_000,
        discount_rate: 300,
        status,
        funder: funder.map(account),
        funded_at,
        amount_funded: funded,
    }
}

#[test]
fn invoice_ids_start_at_one_and_increase() {
    let mut count = None;
    assert_eq!(next_invoice_id(&mut count), 1);
    assert_eq!(next_invoice_id(&mut count), 2);
    assert_eq!(next_invoice_id(&mut count), 3);
    assert_eq!(count, Some(3));
    let mut count = Some(41);
    assert_eq!(next_invoice_id(&mut count), 42);
}

#[test]
fn stats_default_to_zero() {
    let stats = get_contract_stats(None, None, None, None, None, None);
    assert_eq!(stats, ContractStats::default());
    assert_eq!(stats.total_invoices, 0);
    assert_eq!(stats.total_volume_xlm, 0);
    let p = PayerStats::default();
    assert_eq!((p.total_invoices, p.paid_on_time, p.defaults, p.total_volume), (0, 0, 0, 0));
}

#[test]
fn stats_read_the_stored_counters() {
    let stats = get_contract_stats(Some(7), Some(5), Some(3), Some(1_000), Some(-20), None);
    assert_eq!(
        stats,
        ContractStats {
            total_invoices: 7,
            total_funded: 5,
            total_paid: 3,
            total_volume_usdc: 1_000,
            total_volume_eurc: -20,
            total_volume_xlm: 0,
        }
    );
}

#[test]
fn counters_increment_by_one() {
    let mut invoices = None;
    let mut funded = Some(9);
    let mut paid = Some(0);
    increment_total_invoices(&mut invoices);
    increment_total_invoices(&mut invoices);
    increment_total_funded(&mut funded);
    increment_total_paid(&mut paid);
    assert_eq!((invoices, funded, paid), (Some(2), Some(10), Some(1)));
}

#[test]
fn volume_goes_to_the_matching_token() {
    let (usdc, eurc, xlm) = (account("CUSDC"), account("CEURC"), account("CXLM"));
    let (mut u, mut e, mut x) = (None, Some(10), Some(5));
    add_volume(&usdc, 100, &usdc, &eurc, &xlm, &mut u, &mut e, &mut x);
    assert_eq!((u, e, x), (Some(100), Some(10), Some(5)));
    add_volume(&eurc, 7, &usdc, &eurc, &xlm, &mut u, &mut e, &mut x);
    assert_eq!((u, e, x), (Some(100), Some(17), Some(5)));
    add_volume(&xlm, 1, &usdc, &eurc, &xlm, &mut u, &mut e, &mut x);
    assert_eq!((u, e, x), (Some(100), Some(17), Some(6)));
}

#[test]
fn volume_of_unknown_token_changes_nothing() {
    let (usdc, eurc, xlm) = (account("CUSDC"), account("CEURC"), account("CXLM"));
    let (mut u, mut e, mut x) = (None, None, Some(5));
    add_volume(&account("COTHER"), 100, &usdc, &eurc, &xlm, &mut u, &mut e, &mut x);
    assert_eq!((u, e, x), (None, None, Some(5)));
}

#[test]
fn usdc_wins_when_addresses_coincide() {
    let same = account("CSAME");
    let (mut u, mut e, mut x) = (Some(1), Some(1), Some(1));
    add_volume(&same, 10, &same, &same, &same, &mut u, &mut e, &mut x);
    assert_eq!((u, e, x), (Some(11), Some(1), Some(1)));
}

#[test]
fn paused_defaults_to_false() {
    assert!(!is_paused(None));
    assert!(!is_paused(Some(false)));
    assert!(is_paused(Some(true)));
}

#[test]
fn funders_default_to_empty() {
    assert!(get_invoice_funders(None).is_empty());
    let stored = vec![(account("GLP1"), 400i128), (account("GLP2"), 600i128)];
    assert_eq!(get_invoice_funders(Some(stored.clone())), stored);
}

#[test]
fn invariants_hold_for_consistent_invoices() {
    let invoices = vec![
        invoice(1, InvoiceStatus::Pending, None, None, 0),
        invoice(2, InvoiceStatus::PartiallyFunded, None, None, 400_000_000),
        invoice(3, InvoiceStatus::Funded, Some("GLP"), Some(1_700_000_000), 1_000_000_000),
        invoice(4, InvoiceStatus::Paid, Some("GLP"), Some(1_700_000_000), 1_000_000_000),
        invoice(5, InvoiceStatus::Appealed, None, None, 5),
        invoice(6, InvoiceStatus::Cancelled, None, None, 0),
    ];
    assert_eq!(check_invariants(&invoices), Ok(()));
    assert_eq!(check_invariants(&Vec::new()), Ok(()));
}

#[test]
fn pending_invoice_with_funder_is_reported() {
    let invoices = vec![
        invoice(1, InvoiceStatus::Pending, None, None, 0),
        invoice(2, InvoiceStatus::Pending, Some("GLP"), None, 0),
        invoice(3, InvoiceStatus::Funded, None, None, 0),
    ];
    assert_eq!(check_invariants(&invoices), Err(2));
}

#[test]
fn funded_invoice_without_funding_time_is_reported() {
    let bad = invoice(8, InvoiceStatus::Funded, Some("GLP"), None, 1_000_000_000);
    assert!(!invoice_is_consistent(&bad));
    assert_eq!(check_invariants(&vec![bad]), Err(8));
}

#[test]
fn partially_funded_bounds_are_strict() {
    assert!(!invoice_is_consistent(&invoice(1, InvoiceStatus::PartiallyFunded, None, None, 0)));
    assert!(!invoice_is_consistent(&invoice(1, InvoiceStatus::PartiallyFunded, None, None, 1_000_000_000)));
    assert!(invoice_is_consistent(&invoice(1, InvoiceStatus::PartiallyFunded, None, None, 999_999_999)));
}

#[test]
fn volume_key_picks_first_matching_token() {
    let (usdc, eurc, xlm) = (account("CUSDC"), account("CEURC"), account("CXLM"));
    assert_eq!(volume_key(&usdc, &usdc, &eurc, &xlm), Some(StorageKey::TotalVolumeUsdc));
    assert_eq!(volume_key(&eurc, &usdc, &eurc, &xlm), Some(StorageKey::TotalVolumeEurc));
    assert_eq!(volume_key(&xlm, &usdc, &eurc, &xlm), Some(StorageKey::TotalVolumeXlm));
    assert_eq!(volume_key(&account("COTHER"), &usdc, &eurc, &xlm), None);
    assert_eq!(volume_key(&xlm, &usdc, &xlm, &xlm), Some(StorageKey::TotalVolumeEurc));
}
