use std::str::FromStr;

use bitcredit::bill_view::{bill_payment_view, payment_state, PaymentState};
use bitcredit::dates::new_bill_dates;
use bitcredit::keys::{
    get_address_to_pay, get_current_payee_private_key, holder_to_pay, is_current_holder,
    network_name, pr_key_bill, try_get_address_to_pay, try_get_current_payee_private_key, BillParty,
    BillPaymentData, BitcoinNetwork, IdentityKeys,
};
use bitcredit::payment::PaymentProgress;

const G: &str = "0279be667ef9dcbbac55a06295ce870b07029bfcdb2dce28d959f2815b16f81798";
const MINUS_G: &str = "0379be667ef9dcbbac55a06295ce870b07029bfcdb2dce28d959f2815b16f81798";
const TWO_G: &str = "02c6047f9441ed7d6d3045406e95c07cd85c778e4b8cef3ca7abac09b95c709ee5";
const ADDRESS_OF_G: &str = "1BgGZ9tcN4rm9KBzDn7KprQz87SZ26SAMH";

fn secret(n: u8, network: bitcoin::Network) -> String {
    let mut bytes = [0u8; 32];
    bytes[31] = n;
    let key = bitcoin::secp256k1::SecretKey::from_slice(&bytes).unwrap();
    bitcoin::PrivateKey::new(key, network).to_string()
}

fn party(name: &str, key: &str) -> BillParty {
    BillParty { peer_id: format!("peer-{name}"), name: name.to_string(), bitcoin_public_key: key.to_string() }
}

fn bill(public_key: &str, private_key: &str, payee: BillParty, endorsee: BillParty) -> BillPaymentData {
    BillPaymentData {
        name: "bill1".to_string(),
        public_key: public_key.to_string(),
        private_key: private_key.to_string(),
        amount_numbers: 1500,
        drawee: party("drawee", G),
        payee,
        endorsee,
    }
}

#[test]
fn address_of_bill_key_plus_payee_key() {
    let b = bill(TWO_G, "", party("payee", MINUS_G), party("", ""));
    assert_eq!(get_address_to_pay(&b, BitcoinNetwork::Bitcoin), ADDRESS_OF_G);
}

#[test]
fn address_follows_the_endorsee_once_named() {
    let b = bill(TWO_G, "", party("payee", "not a key"), party("endorsee", MINUS_G));
    assert_eq!(holder_to_pay(&b).name, "endorsee");
    assert_eq!(try_get_address_to_pay(&b, BitcoinNetwork::Bitcoin), Some(ADDRESS_OF_G.to_string()));
    let unendorsed = bill(TWO_G, "", party("payee", "not a key"), party("", MINUS_G));
    assert_eq!(holder_to_pay(&unendorsed).name, "payee");
    assert_eq!(try_get_address_to_pay(&unendorsed, BitcoinNetwork::Bitcoin), None);
}

#[test]
fn address_matches_the_bitcoin_crate_on_testnet() {
    let b = bill(G, "", party("payee", G), party("", ""));
    let sum = bitcoin::PublicKey::from_str(TWO_G).unwrap();
    let expected = bitcoin::Address::p2pkh(&sum, bitcoin::Network::Testnet).to_string();
    assert_eq!(get_address_to_pay(&b, BitcoinNetwork::Testnet), expected);
    assert_ne!(expected, ADDRESS_OF_G);
}

#[test]
fn no_address_for_keys_that_cancel_or_do_not_parse() {
    let cancel = bill(G, "", party("payee", MINUS_G), party("", ""));
    assert_eq!(try_get_address_to_pay(&cancel, BitcoinNetwork::Bitcoin), None);
    let bad = bill("02", "", party("payee", G), party("", ""));
    assert_eq!(try_get_address_to_pay(&bad, BitcoinNetwork::Bitcoin), None);
}

#[test]
fn holder_key_is_the_sum_of_private_keys() {
    let identity = IdentityKeys { bitcoin_public_key: G.to_string(), bitcoin_private_key: secret(1, bitcoin::Network::Bitcoin) };
    let b = bill(G, &secret(1, bitcoin::Network::Bitcoin), party("payee", G), party("", ""));
    let key = get_current_payee_private_key(&identity, &b, BitcoinNetwork::Testnet);
    assert_eq!(key, secret(2, bitcoin::Network::Testnet));
    let parsed = bitcoin::PrivateKey::from_str(&key).unwrap();
    let secp = bitcoin::secp256k1::Secp256k1::new();
    assert_eq!(parsed.public_key(&secp).to_string(), TWO_G);
}

#[test]
fn no_holder_key_for_bad_keys() {
    let identity = IdentityKeys { bitcoin_public_key: G.to_string(), bitcoin_private_key: "garbage".to_string() };
    let b = bill(G, &secret(1, bitcoin::Network::Bitcoin), party("payee", G), party("", ""));
    assert_eq!(try_get_current_payee_private_key(&identity, &b, BitcoinNetwork::Testnet), None);
}

#[test]
fn current_holder_is_payee_then_endorsee() {
    let identity = IdentityKeys { bitcoin_public_key: G.to_string(), bitcoin_private_key: secret(3, bitcoin::Network::Testnet) };
    let b = bill(TWO_G, &secret(1, bitcoin::Network::Testnet), party("payee", G), party("endorsee", TWO_G));
    assert!(is_current_holder(&identity, &b, false));
    assert!(!is_current_holder(&identity, &b, true));
    assert_eq!(pr_key_bill(&identity, &b, true, BitcoinNetwork::Testnet), Some(String::new()));
    assert_eq!(pr_key_bill(&identity, &b, false, BitcoinNetwork::Testnet), Some(secret(4, bitcoin::Network::Testnet)));
}

#[test]
fn payment_view_of_a_bill() {
    let identity = IdentityKeys { bitcoin_public_key: MINUS_G.to_string(), bitcoin_private_key: secret(1, bitcoin::Network::Bitcoin) };
    let b = bill(TWO_G, &secret(1, bitcoin::Network::Bitcoin), party("payee", MINUS_G), party("", ""));
    let view = bill_payment_view(&identity, &b, false, BitcoinNetwork::Bitcoin).unwrap();
    assert_eq!(view.address_to_pay, ADDRESS_OF_G);
    assert_eq!(view.link_to_pay, format!("bitcoin:{ADDRESS_OF_G}?amount=1500&message=Payment in relation to a bill bill1"));
    assert_eq!(view.pr_key_bill, secret(2, bitcoin::Network::Bitcoin));
    let other = IdentityKeys { bitcoin_public_key: G.to_string(), bitcoin_private_key: String::new() };
    assert_eq!(bill_payment_view(&other, &b, false, BitcoinNetwork::Bitcoin).unwrap().pr_key_bill, "");
    let unpayable = bill("x", "", party("payee", MINUS_G), party("", ""));
    assert!(bill_payment_view(&other, &unpayable, false, BitcoinNetwork::Bitcoin).is_none());
}

#[test]
fn payment_states() {
    assert_eq!(payment_state(PaymentProgress::Unpaid, 9), PaymentState { payed: false, pending: false, number_of_confirmations: 0 });
    assert_eq!(payment_state(PaymentProgress::Pending, 9), PaymentState { payed: true, pending: true, number_of_confirmations: 0 });
    assert_eq!(payment_state(PaymentProgress::InChain, 9), PaymentState { payed: true, pending: false, number_of_confirmations: 9 });
}

#[test]
fn network_names() {
    assert_eq!(network_name(BitcoinNetwork::Testnet), bitcoin::Network::Testnet.to_string());
    assert_eq!(network_name(BitcoinNetwork::Bitcoin), "bitcoin");
    assert_eq!(network_name(BitcoinNetwork::Regtest), "regtest");
}

#[test]
fn bill_dates_run_for_the_validity_period() {
    let today = chrono::NaiveDate::from_ymd_opt(2024, 1, 31).unwrap();
    let dates = new_bill_dates(today, 30).unwrap();
    assert_eq!(dates.date_of_issue, "2024-01-31");
    assert_eq!(dates.maturity_date, "2024-03-01");
    assert!(new_bill_dates(today, u64::MAX).is_none());
}
