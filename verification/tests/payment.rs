use bitcredit::decimal::decimal_string;
use bitcredit::payment::{
    address_sums, check_if_paid, generate_link_to_pay, number_of_confirmations, payment_message,
    payment_progress, pending_label, AddressInfo, AddressStats, PaymentProgress,
};

fn info(funded: u64, spent: u64, funded_mempool: u64, spent_mempool: u64) -> AddressInfo {
    AddressInfo {
        chain_stats: AddressStats { funded_txo_sum: funded, spent_txo_sum: spent },
        mempool_stats: AddressStats { funded_txo_sum: funded_mempool, spent_txo_sum: spent_mempool },
    }
}

#[test]
fn decimal_string_writes_numbers_as_display_does() {
    assert_eq!(decimal_string(0), "0");
    assert_eq!(decimal_string(7), "7");
    assert_eq!(decimal_string(10), "10");
    assert_eq!(decimal_string(120), "120");
    assert_eq!(decimal_string(u64::MAX), u64::MAX.to_string());
}

#[test]
fn decimal_string_reads_back() {
    for n in [0u64, 1, 9, 10, 99, 100, 12345, 1_000_000_007, u64::MAX] {
        assert_eq!(decimal_string(n).parse::<u64>().unwrap(), n);
    }
}

#[test]
fn link_to_pay_has_address_amount_and_message() {
    let link = generate_link_to_pay("tb1qaddress", 2500, "Payment in relation to a bill b1");
    assert_eq!(link, "bitcoin:tb1qaddress?amount=2500&message=Payment in relation to a bill b1");
}

#[test]
fn link_to_pay_with_zero_amount_and_empty_parts() {
    assert_eq!(generate_link_to_pay("", 0, ""), "bitcoin:?amount=0&message=");
}

#[test]
fn links_for_different_amounts_differ() {
    let a = generate_link_to_pay("addr", 12, "m");
    let b = generate_link_to_pay("addr", 120, "m");
    assert_ne!(a, b);
}

#[test]
fn payment_message_names_the_bill() {
    assert_eq!(payment_message("bill-7"), "Payment in relation to a bill bill-7");
}

#[test]
fn paid_when_amount_equals_everything_received_and_spent() {
    assert_eq!(check_if_paid(&info(600, 300, 100, 0), 1000), (true, 600));
    assert_eq!(check_if_paid(&info(0, 0, 1000, 0), 1000), (true, 0));
}

#[test]
fn not_paid_reports_zero_received() {
    assert_eq!(check_if_paid(&info(600, 300, 100, 0), 999), (false, 0));
    assert_eq!(check_if_paid(&info(0, 0, 0, 0), 1), (false, 0));
}

#[test]
fn zero_amount_on_empty_address_counts_as_paid() {
    assert_eq!(check_if_paid(&info(0, 0, 0, 0), 0), (true, 0));
}

#[test]
fn sums_of_chain_and_mempool() {
    assert_eq!(address_sums(&info(5, 7, 11, 13)), (12, 24));
}

#[test]
fn progress_of_a_payment() {
    assert_eq!(payment_progress((false, 0)), PaymentProgress::Unpaid);
    assert_eq!(payment_progress((false, 5)), PaymentProgress::Unpaid);
    assert_eq!(payment_progress((true, 0)), PaymentProgress::Pending);
    assert_eq!(payment_progress((true, 5)), PaymentProgress::InChain);
}

#[test]
fn confirmations_count_blocks_since_the_transaction() {
    assert_eq!(number_of_confirmations(2_500_100, 2_500_000), 100);
    assert_eq!(number_of_confirmations(42, 42), 0);
}

#[test]
fn pending_label_only_for_pending_payments() {
    assert_eq!(pending_label(PaymentProgress::Pending), "Pending");
    assert_eq!(pending_label(PaymentProgress::Unpaid), "");
    assert_eq!(pending_label(PaymentProgress::InChain), "");
}
