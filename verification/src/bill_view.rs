//! The payment part of a bill's page: where to pay, the link that asks for
//! the payment, the key that the holder spends with, and where the payment
//! stands.

use vstd::prelude::*;
use crate::keys::{
    BillPaymentData, BitcoinNetwork, IdentityKeys, pr_key_bill,
    spec_address_to_pay, spec_is_current_holder, spec_payee_private_key,
};
use crate::payment::{PaymentProgress, generate_link_to_pay, payment_message, spec_link_to_pay};

verus! {

/// Where a bill's payment stands, as its page shows it.
#[derive(Clone, Copy, Debug, PartialEq, Eq, Structural)]
pub struct PaymentState {
    pub payed: bool,
    pub pending: bool,
    pub number_of_confirmations: u64,
}

/// The payment state for a progress; `confirmations` counts only for a
/// payment in the chain.
pub fn payment_state(progress: PaymentProgress, confirmations: u64) -> (r: PaymentState)
    ensures
        r.payed == (progress != PaymentProgress::Unpaid),
        r.pending == (progress == PaymentProgress::Pending),
        r.number_of_confirmations == (if progress == PaymentProgress::InChain { confirmations } else { 0 }),
{
    match progress {
        PaymentProgress::Unpaid => PaymentState { payed: false, pending: false, number_of_confirmations: 0 },
        PaymentProgress::Pending => PaymentState { payed: true, pending: true, number_of_confirmations: 0 },
        PaymentProgress::InChain => PaymentState {
            payed: true,
            pending: false,
            number_of_confirmations: confirmations,
        },
    }
}

/// Address, link and private key of a bill's page.
#[derive(Clone, Debug)]
pub struct BillPaymentView {
    pub address_to_pay: String,
    pub link_to_pay: String,
    pub pr_key_bill: String,
}

/// The private key that the page shows: the holder's key, or empty for
/// anyone else; `None` where the holder's keys give none.
pub open spec fn spec_shown_private_key(identity: IdentityKeys, bill: BillPaymentData, endorsed: bool, network: BitcoinNetwork) -> Option<Seq<char>> {
    if spec_is_current_holder(identity, bill, endorsed) {
        spec_payee_private_key(identity, bill, network)
    } else {
        Some(Seq::<char>::empty())
    }
}

/// The payment part of the page of `bill` for `identity`; `None` where the
/// keys give no payment address or no private key for the holder.
pub fn bill_payment_view(identity: &IdentityKeys, bill: &BillPaymentData, endorsed: bool, network: BitcoinNetwork) -> (r: Option<BillPaymentView>)
    ensures
        (spec_address_to_pay(*bill, network) is None || spec_shown_private_key(*identity, *bill, endorsed, network) is None)
            ==> r is None,
        spec_address_to_pay(*bill, network) matches Some(address) ==> (
            spec_shown_private_key(*identity, *bill, endorsed, network) matches Some(key) ==> (
                r matches Some(v) && v.address_to_pay@ == address
                && v.link_to_pay@ == spec_link_to_pay(address, bill.amount_numbers, "Payment in relation to a bill "@ + bill.name@)
                && v.pr_key_bill@ == key)),
{
    let address = match crate::keys::try_get_address_to_pay(bill, network) {
        Some(address) => address,
        None => return None,
    };
    let message = payment_message(bill.name.as_str());
    let link = generate_link_to_pay(address.as_str(), bill.amount_numbers, message.as_str());
    match pr_key_bill(identity, bill, endorsed, network) {
        Some(key) => Some(BillPaymentView { address_to_pay: address, link_to_pay: link, pr_key_bill: key }),
        None => None,
    }
}

/// The page shows the derived key of the payment address to the endorsee of
/// an endorsed bill and to the payee of a bill not endorsed, and shows an
/// empty key to an identity whose public key is neither party's.
pub proof fn lemma_shown_key_goes_to_the_holder(identity: IdentityKeys, bill: BillPaymentData, endorsed: bool, network: BitcoinNetwork)
    ensures
        endorsed && bill.endorsee.bitcoin_public_key@ == identity.bitcoin_public_key@
            ==> spec_shown_private_key(identity, bill, endorsed, network) == spec_payee_private_key(identity, bill, network),
        !endorsed && bill.payee.bitcoin_public_key@ == identity.bitcoin_public_key@
            ==> spec_shown_private_key(identity, bill, endorsed, network) == spec_payee_private_key(identity, bill, network),
        bill.endorsee.bitcoin_public_key@ != identity.bitcoin_public_key@
            && bill.payee.bitcoin_public_key@ != identity.bitcoin_public_key@
            ==> spec_shown_private_key(identity, bill, endorsed, network) == Some(Seq::<char>::empty()),
{
    crate::keys::lemma_holder_follows_endorsement(identity, bill, endorsed);
}

} // verus!
