//! The dates that a new bill form starts with.

use vstd::prelude::*;

verus! {

#[verifier::external_type_specification]
#[verifier::external_body]
pub struct ExNaiveDate(chrono::NaiveDate);

/// What `chrono::NaiveDate::checked_add_days` gives for a date and a number
/// of days (`None` past the range of dates).
pub uninterp spec fn naive_date_add_days(date: chrono::NaiveDate, days: u64) -> Option<chrono::NaiveDate>;

/// The text that `chrono::NaiveDate` displays (`YYYY-MM-DD`).
pub uninterp spec fn naive_date_text(date: chrono::NaiveDate) -> Seq<char>;

/// Calls `chrono::NaiveDate::checked_add_days`. Claims only that the result
/// is the named one for these arguments.
#[verifier::external_body]
fn add_days(date: chrono::NaiveDate, days: u64) -> (r: Option<chrono::NaiveDate>)
    ensures
        r == naive_date_add_days(date, days),
{
    date.checked_add_days(chrono::Days::new(days))
}

/// Calls `Display` of `chrono::NaiveDate`. Claims only that the text is the
/// named one for this date.
#[verifier::external_body]
fn date_text(date: chrono::NaiveDate) -> (r: String)
    ensures
        r@ == naive_date_text(date),
{
    date.to_string()
}

/// The dates of a new bill.
#[derive(Clone, Debug)]
pub struct BillDates {
    pub date_of_issue: String,
    pub maturity_date: String,
}

/// The dates of a bill issued `today` that runs for `validity_period` days;
/// `None` where the maturity date is past the range of dates.
pub fn new_bill_dates(today: chrono::NaiveDate, validity_period: u64) -> (r: Option<BillDates>)
    ensures
        naive_date_add_days(today, validity_period) is None ==> r is None,
        naive_date_add_days(today, validity_period) matches Some(maturity) ==> (r matches Some(d) && d.date_of_issue@
            == naive_date_text(today) && d.maturity_date@ == naive_date_text(maturity)),
{
    let date_of_issue = date_text(today);
    match add_days(today, validity_period) {
        Some(maturity) => Some(BillDates { date_of_issue, maturity_date: date_text(maturity) }),
        None => None,
    }
}

} // verus!
