//! The keys of a bill: the address that its holder is paid to, and the
//! private key that lets the current holder spend from it.
//!
//! A bill has its own key pair; the holder's key is added to it, so that the
//! payment address belongs to the bill and its holder together.

use vstd::prelude::*;
use std::str::FromStr;

verus! {

#[verifier::external_type_specification]
#[verifier::external_body]
pub struct ExBitcoinPublicKey(bitcoin::PublicKey);

#[verifier::external_type_specification]
#[verifier::external_body]
pub struct ExBitcoinPrivateKey(bitcoin::PrivateKey);

/// The Bitcoin network that addresses and keys are made for.
#[derive(Clone, Copy, Debug, PartialEq, Eq, Structural)]
pub enum BitcoinNetwork {
    Bitcoin,
    Testnet,
    Testnet4,
    Signet,
    Regtest,
}

pub open spec fn spec_network_name(network: BitcoinNetwork) -> Seq<char> {
    match network {
        BitcoinNetwork::Bitcoin => "bitcoin"@,
        BitcoinNetwork::Testnet => "testnet"@,
        BitcoinNetwork::Testnet4 => "testnet4"@,
        BitcoinNetwork::Signet => "signet"@,
        BitcoinNetwork::Regtest => "regtest"@,
    }
}

/// The name that `bitcoin::Network` displays for a network.
pub fn network_name(network: BitcoinNetwork) -> (r: &'static str)
    ensures
        r@ == spec_network_name(network),
{
    match network {
        BitcoinNetwork::Bitcoin => "bitcoin",
        BitcoinNetwork::Testnet => "testnet",
        BitcoinNetwork::Testnet4 => "testnet4",
        BitcoinNetwork::Signet => "signet",
        BitcoinNetwork::Regtest => "regtest",
    }
}

/// What `bitcoin::PublicKey::from_str` gives for a string (`None` for an error).
pub uninterp spec fn public_key_from_str(s: Seq<char>) -> Option<bitcoin::PublicKey>;

/// What `secp256k1::PublicKey::combine` gives for the inner keys of two
/// public keys, wrapped again as a compressed `bitcoin::PublicKey`.
pub uninterp spec fn public_key_combine(a: bitcoin::PublicKey, b: bitcoin::PublicKey) -> Option<bitcoin::PublicKey>;

/// The text of `bitcoin::Address::p2pkh(key, network)`.
pub uninterp spec fn p2pkh_address(key: bitcoin::PublicKey, network: BitcoinNetwork) -> Seq<char>;

/// What `bitcoin::PrivateKey::from_str` (WIF) gives for a string.
pub uninterp spec fn private_key_from_str(s: Seq<char>) -> Option<bitcoin::PrivateKey>;

/// What `secp256k1::SecretKey::add_tweak` gives when the inner key of
/// `tweak` is added to the inner key of `key`, made a compressed
/// `bitcoin::PrivateKey` for `network`.
pub uninterp spec fn private_key_add(key: bitcoin::PrivateKey, tweak: bitcoin::PrivateKey, network: BitcoinNetwork) -> Option<bitcoin::PrivateKey>;

/// The WIF text of a private key.
pub uninterp spec fn private_key_wif(key: bitcoin::PrivateKey) -> Seq<char>;

/// Calls `bitcoin::PublicKey::from_str`: a hex encoded key of 66 or 130
/// characters that is a point of the curve. Claims only that the result is
/// the named one for this string.
#[verifier::external_body]
fn parse_public_key(s: &str) -> (r: Option<bitcoin::PublicKey>)
    ensures
        r == public_key_from_str(s@),
{
    bitcoin::PublicKey::from_str(s).ok()
}

/// Calls `secp256k1::PublicKey::combine` on the inner keys and wraps the sum
/// with `bitcoin::PublicKey::new`; `None` where the sum is the point at
/// infinity. Claims only that the result is the named one for these keys.
#[verifier::external_body]
fn combine_public_keys(a: &bitcoin::PublicKey, b: &bitcoin::PublicKey) -> (r: Option<bitcoin::PublicKey>)
    ensures
        r == public_key_combine(*a, *b),
{
    match a.inner.combine(&b.inner) {
        Ok(sum) => Some(bitcoin::PublicKey::new(sum)),
        Err(_) => None,
    }
}

/// Calls `bitcoin::Address::p2pkh` and prints the address. Claims only that
/// the text is the named one for this key and network.
#[verifier::external_body]
fn p2pkh_address_string(key: &bitcoin::PublicKey, network: BitcoinNetwork) -> (r: String)
    ensures
        r@ == p2pkh_address(*key, network),
{
    let network = match network {
        BitcoinNetwork::Bitcoin => bitcoin::Network::Bitcoin,
        BitcoinNetwork::Testnet => bitcoin::Network::Testnet,
        BitcoinNetwork::Testnet4 => bitcoin::Network::Testnet4,
        BitcoinNetwork::Signet => bitcoin::Network::Signet,
        BitcoinNetwork::Regtest => bitcoin::Network::Regtest,
    };
    bitcoin::Address::p2pkh(key, network).to_string()
}

/// Calls `bitcoin::PrivateKey::from_str`, which reads WIF. Claims only that
/// the result is the named one for this string.
#[verifier::external_body]
fn parse_private_key(s: &str) -> (r: Option<bitcoin::PrivateKey>)
    ensures
        r == private_key_from_str(s@),
{
    bitcoin::PrivateKey::from_str(s).ok()
}

/// Calls `secp256k1::SecretKey::add_tweak` with the inner key of `tweak` as
/// the scalar, and makes the sum a `bitcoin::PrivateKey` for `network`;
/// `None` where the tweak is refused. Claims only that the result is the
/// named one for these arguments.
#[verifier::external_body]
fn add_private_keys(key: &bitcoin::PrivateKey, tweak: &bitcoin::PrivateKey, network: BitcoinNetwork) -> (r: Option<bitcoin::PrivateKey>)
    ensures
        r == private_key_add(*key, *tweak, network),
{
    let network = match network {
        BitcoinNetwork::Bitcoin => bitcoin::Network::Bitcoin,
        BitcoinNetwork::Testnet => bitcoin::Network::Testnet,
        BitcoinNetwork::Testnet4 => bitcoin::Network::Testnet4,
        BitcoinNetwork::Signet => bitcoin::Network::Signet,
        BitcoinNetwork::Regtest => bitcoin::Network::Regtest,
    };
    let scalar = bitcoin::secp256k1::Scalar::from(tweak.inner);
    match key.inner.add_tweak(&scalar) {
        Ok(sum) => Some(bitcoin::PrivateKey::new(sum, network)),
        Err(_) => None,
    }
}

/// Calls `Display` of `bitcoin::PrivateKey`, which writes WIF. Claims only
/// that the text is the named one for this key.
#[verifier::external_body]
fn private_key_to_wif(key: &bitcoin::PrivateKey) -> (r: String)
    ensures
        r@ == private_key_wif(*key),
{
    key.to_string()
}

/// A party of a bill, as far as paying it goes.
#[derive(Clone, Debug)]
pub struct BillParty {
    pub peer_id: String,
    pub name: String,
    pub bitcoin_public_key: String,
}

/// What paying a bill reads of it: its name, its own key pair (public key
/// in hex, private key in WIF), its amount and its parties.
#[derive(Clone, Debug)]
pub struct BillPaymentData {
    pub name: String,
    pub public_key: String,
    pub private_key: String,
    pub amount_numbers: u64,
    pub drawee: BillParty,
    pub payee: BillParty,
    pub endorsee: BillParty,
}

/// The keys of the local identity.
#[derive(Clone, Debug)]
pub struct IdentityKeys {
    pub bitcoin_public_key: String,
    pub bitcoin_private_key: String,
}

/// The party that is paid: the endorsee once the bill names one, the payee
/// before.
pub open spec fn payment_holder(bill: BillPaymentData) -> BillParty {
    if bill.endorsee.name@.len() == 0 {
        bill.payee
    } else {
        bill.endorsee
    }
}

/// The address that pays a bill: the P2PKH address of the sum of the bill's
/// public key and the holder's; `None` where a key does not parse or the sum
/// is not a key.
pub open spec fn spec_address_to_pay(bill: BillPaymentData, network: BitcoinNetwork) -> Option<Seq<char>> {
    match public_key_from_str(bill.public_key@) {
        Some(bill_key) => match public_key_from_str(payment_holder(bill).bitcoin_public_key@) {
            Some(holder_key) => match public_key_combine(bill_key, holder_key) {
                Some(key) => Some(p2pkh_address(key, network)),
                None => None,
            },
            None => None,
        },
        None => None,
    }
}

/// The private key of a bill's payment address for its holder: the bill's
/// private key plus the identity's, in WIF; `None` where a key does not parse
/// or the sum is refused.
pub open spec fn spec_payee_private_key(identity: IdentityKeys, bill: BillPaymentData, network: BitcoinNetwork) -> Option<Seq<char>> {
    match private_key_from_str(bill.private_key@) {
        Some(bill_key) => match private_key_from_str(identity.bitcoin_private_key@) {
            Some(holder_key) => match private_key_add(bill_key, holder_key, network) {
                Some(key) => Some(private_key_wif(key)),
                None => None,
            },
            None => None,
        },
        None => None,
    }
}

/// Whether the identity may see the bill's private key: as payee while the
/// bill is not endorsed, as endorsee once it is.
pub open spec fn spec_is_current_holder(identity: IdentityKeys, bill: BillPaymentData, endorsed: bool) -> bool {
    if !endorsed {
        bill.payee.bitcoin_public_key@ == identity.bitcoin_public_key@
    } else {
        bill.endorsee.bitcoin_public_key@ == identity.bitcoin_public_key@
    }
}

pub open spec fn option_view(r: Option<String>) -> Option<Seq<char>> {
    match r {
        Some(s) => Some(s@),
        None => None,
    }
}

/// The party that is paid.
pub fn holder_to_pay(bill: &BillPaymentData) -> (r: &BillParty)
    ensures
        *r == payment_holder(*bill),
        bill.endorsee.name@.len() == 0 ==> *r == bill.payee,
        bill.endorsee.name@.len() != 0 ==> *r == bill.endorsee,
{
    if !bill.endorsee.name.as_str().is_empty() {
        &bill.endorsee
    } else {
        &bill.payee
    }
}

/// The address that the holder of `bill` is paid to.
pub fn get_address_to_pay(bill: &BillPaymentData, network: BitcoinNetwork) -> (r: String)
    requires
        spec_address_to_pay(*bill, network) is Some,
    ensures
        spec_address_to_pay(*bill, network) == Some(r@),
{
    let public_key_bill = parse_public_key(bill.public_key.as_str()).unwrap();
    let person_to_pay = holder_to_pay(bill);
    let public_key_bill_holder = parse_public_key(person_to_pay.bitcoin_public_key.as_str()).unwrap();
    let public_key_bill = combine_public_keys(&public_key_bill, &public_key_bill_holder).unwrap();
    p2pkh_address_string(&public_key_bill, network)
}

/// [`get_address_to_pay`] where the keys allow it, `None` where they do not.
pub fn try_get_address_to_pay(bill: &BillPaymentData, network: BitcoinNetwork) -> (r: Option<String>)
    ensures
        option_view(r) == spec_address_to_pay(*bill, network),
{
    let bill_key = parse_public_key(bill.public_key.as_str());
    let holder_key = parse_public_key(holder_to_pay(bill).bitcoin_public_key.as_str());
    match (bill_key, holder_key) {
        (Some(bill_key), Some(holder_key)) => {
            if combine_public_keys(&bill_key, &holder_key).is_some() {
                Some(get_address_to_pay(bill, network))
            } else {
                None
            }
        },
        _ => None,
    }
}

/// The private key (WIF) that spends from the bill's payment address.
pub fn get_current_payee_private_key(identity: &IdentityKeys, bill: &BillPaymentData, network: BitcoinNetwork) -> (r: String)
    requires
        spec_payee_private_key(*identity, *bill, network) is Some,
    ensures
        spec_payee_private_key(*identity, *bill, network) == Some(r@),
{
    let private_key_bill = parse_private_key(bill.private_key.as_str()).unwrap();
    let private_key_bill_holder = parse_private_key(identity.bitcoin_private_key.as_str()).unwrap();
    let private_key = add_private_keys(&private_key_bill, &private_key_bill_holder, network).unwrap();
    private_key_to_wif(&private_key)
}

/// [`get_current_payee_private_key`] where the keys allow it, `None` where
/// they do not.
pub fn try_get_current_payee_private_key(identity: &IdentityKeys, bill: &BillPaymentData, network: BitcoinNetwork) -> (r: Option<String>)
    ensures
        option_view(r) == spec_payee_private_key(*identity, *bill, network),
{
    let bill_key = parse_private_key(bill.private_key.as_str());
    let holder_key = parse_private_key(identity.bitcoin_private_key.as_str());
    match (bill_key, holder_key) {
        (Some(bill_key), Some(holder_key)) => {
            if add_private_keys(&bill_key, &holder_key, network).is_some() {
                Some(get_current_payee_private_key(identity, bill, network))
            } else {
                None
            }
        },
        _ => None,
    }
}

/// Whether the identity is the bill's current holder.
pub fn is_current_holder(identity: &IdentityKeys, bill: &BillPaymentData, endorsed: bool) -> (r: bool)
    ensures
        r == spec_is_current_holder(*identity, *bill, endorsed),
        endorsed ==> (r <==> bill.endorsee.bitcoin_public_key@ == identity.bitcoin_public_key@),
        !endorsed ==> (r <==> bill.payee.bitcoin_public_key@ == identity.bitcoin_public_key@),
{
    if !endorsed && bill.payee.bitcoin_public_key == identity.bitcoin_public_key {
        true
    } else if endorsed && bill.endorsee.bitcoin_public_key == identity.bitcoin_public_key {
        true
    } else {
        false
    }
}

/// The private key that a bill's page shows to the identity: the key of the
/// payment address for its current holder, the empty string for anyone
/// else; `None` where the holder's keys do not give a key.
pub fn pr_key_bill(identity: &IdentityKeys, bill: &BillPaymentData, endorsed: bool, network: BitcoinNetwork) -> (r: Option<String>)
    ensures
        spec_is_current_holder(*identity, *bill, endorsed) ==> option_view(r) == spec_payee_private_key(*identity, *bill, network),
        !spec_is_current_holder(*identity, *bill, endorsed) ==> option_view(r) == Some(Seq::<char>::empty()),
{
    if is_current_holder(identity, bill, endorsed) {
        try_get_current_payee_private_key(identity, bill, network)
    } else {
        Some(String::new())
    }
}

/// Before endorsement the payee holds the bill, after it the endorsee: the
/// identity is the current holder exactly when its public key is the one of
/// the party that the endorsement flag points to.
pub proof fn lemma_holder_follows_endorsement(identity: IdentityKeys, bill: BillPaymentData, endorsed: bool)
    ensures
        endorsed && bill.endorsee.bitcoin_public_key@ == identity.bitcoin_public_key@
            ==> spec_is_current_holder(identity, bill, endorsed),
        !endorsed && bill.payee.bitcoin_public_key@ == identity.bitcoin_public_key@
            ==> spec_is_current_holder(identity, bill, endorsed),
        endorsed && bill.endorsee.bitcoin_public_key@ != identity.bitcoin_public_key@
            ==> !spec_is_current_holder(identity, bill, endorsed),
        !endorsed && bill.payee.bitcoin_public_key@ != identity.bitcoin_public_key@
            ==> !spec_is_current_holder(identity, bill, endorsed),
{
}

/// When the endorsement flag agrees with the bill (endorsed exactly when it
/// names an endorsee), the private key goes only to the identity whose public
/// key is the holder's one in the payment address.
pub proof fn lemma_private_key_goes_to_address_holder(identity: IdentityKeys, bill: BillPaymentData, endorsed: bool)
    requires
        endorsed <==> bill.endorsee.name@.len() != 0,
        spec_is_current_holder(identity, bill, endorsed),
    ensures
        payment_holder(bill).bitcoin_public_key@ == identity.bitcoin_public_key@,
{
}

} // verus!
