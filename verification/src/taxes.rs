//! The rates of a year as they are shown to the one who asks for them.

use vstd::prelude::*;
use crate::clock::get_current_year;
use crate::rates::{RateTable, TaxRateError, TaxRates};

verus! {

/// The rates of one year under the names that a breakdown gives to the amounts
/// they lead to, each in parts of [`crate::rates::RATE_SCALE`].
#[derive(Debug, Clone, Copy, PartialEq, Eq)]
pub struct TaxInfo {
    pub year: i32,
    /// Social security.
    pub cas: u32,
    /// Health insurance.
    pub cass: u32,
    /// Income tax.
    pub income: u32,
    /// The employer's insurance contribution.
    pub cam: u32,
    /// Tax on dividends; no schedule holds one.
    pub dp: Option<u32>,
}

/// The rates of `rates` as they are shown.
pub open spec fn tax_info_of(rates: TaxRates) -> TaxInfo {
    TaxInfo {
        year: rates.year,
        cas: rates.social_security,
        cass: rates.health_insurance,
        income: rates.income_tax,
        cam: rates.insurance_contribution,
        dp: None,
    }
}

/// Gives the rates of a schedule as they are shown.
pub fn tax_info(rates: &TaxRates) -> (info: TaxInfo)
    ensures
        info == tax_info_of(*rates),
{
    TaxInfo {
        year: rates.year,
        cas: rates.social_security,
        cass: rates.health_insurance,
        income: rates.income_tax,
        cam: rates.insurance_contribution,
        dp: None,
    }
}

/// Whether `outcome` is what is owed to the one who asks for the rates of `year`:
/// the rates of its schedule, and the error `NotFound` where `schedules` holds
/// none for that year.
pub open spec fn is_tax_info_of_year(
    outcome: Result<TaxInfo, TaxRateError>,
    schedules: Map<int, TaxRates>,
    year: int,
) -> bool {
    match outcome {
        Ok(info) => schedules.contains_key(year) && info == tax_info_of(schedules[year]),
        Err(error) => error is NotFound && !schedules.contains_key(year),
    }
}

/// Looks up the rates of `year` and gives them as they are shown.
pub fn fetch_tax_rates_of_year(table: &RateTable, year: i64) -> (outcome: Result<
    TaxInfo,
    TaxRateError,
>)
    ensures
        is_tax_info_of_year(outcome, table@, year as int),
{
    match table.get(year) {
        Some(rates) => Ok(tax_info(&rates)),
        None => Err(TaxRateError::NotFound),
    }
}

/// Looks up the rates of the current year and gives them as they are shown. The
/// year is read from the clock, and the contract says of it no more than that it
/// is some year.
pub fn fetch_current_year_tax_rates(table: &RateTable) -> (outcome: Result<TaxInfo, TaxRateError>)
    ensures
        exists|current_year: int|
            i32::MIN <= current_year <= i32::MAX && #[trigger] is_tax_info_of_year(
                outcome,
                table@,
                current_year,
            ),
{
    fetch_tax_rates_of_year(table, get_current_year() as i64)
}

} // verus!
