//! Paying a bill: what an address has received, whether the bill is paid,
//! how far the payment is confirmed, and the `bitcoin:` link that asks for it.

use vstd::prelude::*;
use vstd::string::StringExecFns;
use crate::decimal::{decimal, push_decimal, lemma_decimal_injective};

verus! {

/// Transaction output sums that an address shows in one place (the chain or
/// the mempool), in satoshi.
#[derive(Clone, Copy, Debug, PartialEq, Eq, Structural)]
pub struct AddressStats {
    pub funded_txo_sum: u64,
    pub spent_txo_sum: u64,
}

/// What the block explorer reports of an address.
#[derive(Clone, Copy, Debug, PartialEq, Eq, Structural)]
pub struct AddressInfo {
    pub chain_stats: AddressStats,
    pub mempool_stats: AddressStats,
}

/// Funded plus spent output sums of one place.
pub open spec fn stats_sum(s: AddressStats) -> int {
    s.funded_txo_sum + s.spent_txo_sum
}

/// Everything that ever went through the address, confirmed or not.
pub open spec fn total_txo_sum(info: AddressInfo) -> int {
    stats_sum(info.chain_stats) + stats_sum(info.mempool_stats)
}

/// Whether `amount` has been paid to the address, and the confirmed amount
/// received when it has (0 when it has not).
pub open spec fn spec_check_if_paid(info: AddressInfo, amount: u64) -> (bool, u64) {
    if amount == total_txo_sum(info) {
        (true, info.chain_stats.funded_txo_sum)
    } else {
        (false, 0)
    }
}

/// A bill counts as paid when the amount equals all that went through its
/// address; the second value is the confirmed amount received, or 0.
pub fn check_if_paid(info: &AddressInfo, amount: u64) -> (r: (bool, u64))
    requires
        total_txo_sum(*info) <= u64::MAX,
    ensures
        r == spec_check_if_paid(*info, amount),
        r.0 <==> amount == info.chain_stats.funded_txo_sum + info.chain_stats.spent_txo_sum
            + info.mempool_stats.funded_txo_sum + info.mempool_stats.spent_txo_sum,
        r.0 ==> r.1 == info.chain_stats.funded_txo_sum,
        !r.0 ==> r.1 == 0,
{
    let received = info.chain_stats.funded_txo_sum;
    let spent = info.chain_stats.spent_txo_sum;
    let received_mempool = info.mempool_stats.funded_txo_sum;
    let spent_mempool = info.mempool_stats.spent_txo_sum;
    if amount == received + spent + received_mempool + spent_mempool {
        (true, received)
    } else {
        (false, 0)
    }
}

/// The sums that the history page shows: (chain, mempool).
pub fn address_sums(info: &AddressInfo) -> (r: (u64, u64))
    requires
        stats_sum(info.chain_stats) <= u64::MAX,
        stats_sum(info.mempool_stats) <= u64::MAX,
    ensures
        r.0 == stats_sum(info.chain_stats),
        r.1 == stats_sum(info.mempool_stats),
{
    (
        info.chain_stats.funded_txo_sum + info.chain_stats.spent_txo_sum,
        info.mempool_stats.funded_txo_sum + info.mempool_stats.spent_txo_sum,
    )
}

/// Where a payment stands after the paid check.
#[derive(Clone, Copy, Debug, PartialEq, Eq, Structural)]
pub enum PaymentProgress {
    /// The amount has not (all) arrived.
    Unpaid,
    /// Paid, but nothing of it confirmed yet.
    Pending,
    /// Paid with confirmed outputs: the number of confirmations is asked next.
    InChain,
}

pub open spec fn spec_payment_progress(check: (bool, u64)) -> PaymentProgress {
    if !check.0 {
        PaymentProgress::Unpaid
    } else if check.1 == 0 {
        PaymentProgress::Pending
    } else {
        PaymentProgress::InChain
    }
}

/// Reads the result of [`check_if_paid`].
pub fn payment_progress(check: (bool, u64)) -> (r: PaymentProgress)
    ensures
        r == spec_payment_progress(check),
        !check.0 ==> r == PaymentProgress::Unpaid,
        check.0 && check.1 == 0 ==> r == PaymentProgress::Pending,
        check.0 && check.1 != 0 ==> r == PaymentProgress::InChain,
{
    if check.0 && check.1 == 0 {
        PaymentProgress::Pending
    } else if check.0 && check.1 != 0 {
        PaymentProgress::InChain
    } else {
        PaymentProgress::Unpaid
    }
}

/// Confirmations of a transaction mined at `block_height` when the chain is
/// at `height`.
pub fn number_of_confirmations(height: u64, block_height: u64) -> (r: u64)
    requires
        block_height <= height,
    ensures
        r == height - block_height,
{
    height - block_height
}

/// The label that the bill page shows for a payment: `"Pending"` while it is
/// unconfirmed, empty otherwise.
pub fn pending_label(progress: PaymentProgress) -> (r: String)
    ensures
        progress == PaymentProgress::Pending ==> r@ == "Pending"@,
        progress != PaymentProgress::Pending ==> r@ == Seq::<char>::empty(),
{
    match progress {
        PaymentProgress::Pending => String::from_str("Pending"),
        _ => String::new(),
    }
}

/// The message that goes with the payment of the bill named `bill_name`.
pub fn payment_message(bill_name: &str) -> (r: String)
    ensures
        r@ == "Payment in relation to a bill "@ + bill_name@,
{
    let mut r = String::from_str("Payment in relation to a bill ");
    r.append(bill_name);
    r
}

pub open spec fn spec_link_to_pay(address: Seq<char>, amount: u64, message: Seq<char>) -> Seq<char> {
    "bitcoin:"@ + address + "?amount="@ + decimal(amount as nat) + "&message="@ + message
}

/// The BIP 21 style link `bitcoin:<address>?amount=<amount>&message=<message>`.
pub fn generate_link_to_pay(address: &str, amount: u64, message: &str) -> (r: String)
    ensures
        r@ == spec_link_to_pay(address@, amount, message@),
        r@ == "bitcoin:"@ + address@ + "?amount="@ + decimal(amount as nat) + "&message="@ + message@,
{
    let mut r = String::from_str("bitcoin:");
    r.append(address);
    r.append("?amount=");
    push_decimal(&mut r, amount);
    r.append("&message=");
    r.append(message);
    r
}

/// For one address and one message, the link names the amount: two links
/// that are equal ask for the same amount.
pub proof fn lemma_link_determines_amount(address: Seq<char>, message: Seq<char>, a: u64, b: u64)
    requires
        spec_link_to_pay(address, a, message) == spec_link_to_pay(address, b, message),
    ensures
        a == b,
{
    let p = "bitcoin:"@ + address + "?amount="@;
    let q = "&message="@ + message;
    let da = decimal(a as nat);
    let db = decimal(b as nat);
    let la = p + da + q;
    let lb = p + db + q;
    assert(spec_link_to_pay(address, a, message) =~= la);
    assert(spec_link_to_pay(address, b, message) =~= lb);
    assert(da.len() == db.len());
    assert(da =~= la.subrange(p.len() as int, (p.len() + da.len()) as int));
    assert(db =~= lb.subrange(p.len() as int, (p.len() + db.len()) as int));
    lemma_decimal_injective(a as nat, b as nat);
}

} // verus!
