//! The calculation itself: from an amount and a year's rates to the full breakdown.
//!
//! Amounts are counted in hundredths of a currency unit and rates in parts of
//! [`RATE_SCALE`], so every quantity is an exact fraction of whole numbers. The
//! fractions of one breakdown share a denominator; each is rounded once, at the end.

use vstd::prelude::*;
use crate::clock::get_current_year;
use crate::laws::lemma_percentages_sum_to_whole;
use crate::models::{CalculateSchema, CalculationInput, CalculationResults, IncomeType};
use crate::rates::{RateTable, TaxRateError, TaxRates, RATE_SCALE};
use crate::rounding::{lemma_round_half_up_bounds, round_half_up, round_to};
use crate::validators::{validate_calculate_input, validated, ValidationError};

verus! {

/// Hundredths in a whole: an amount of 1 is 100 hundredths.
pub const HUNDREDTHS: u64 = 100;

/// The whole, in hundredths of a percent.
pub const WHOLE_IN_PERCENT_HUNDREDTHS: u32 = 10_000;

/// `RATE_SCALE` as a mathematical integer.
pub open spec fn scale() -> int {
    RATE_SCALE as int
}

/// The part of the gross income that is taken home, `(1 - social security - health
/// insurance) * (1 - income tax)`, in parts of `scale() * scale()`.
pub open spec fn net_share(rates: TaxRates) -> int {
    (scale() - rates.social_security - rates.health_insurance) * (scale() - rates.income_tax)
}

/// The quantities of one breakdown before rounding. Each field but the last is a
/// numerator; the quantity is that numerator over `denominator`, in hundredths of a
/// currency unit.
pub struct ExactBreakdown {
    pub gross: int,
    pub net: int,
    pub cas: int,
    pub cass: int,
    pub income_tax: int,
    pub cam: int,
    pub total: int,
    pub denominator: int,
}

/// The exact quantities for `amount` hundredths of income.
///
/// With a gross amount the denominator is `scale() * scale()` and the gross
/// quantity is the amount itself; with a net amount the denominator is
/// `net_share(rates)` and the net quantity is the amount itself. The numerators
/// stand in the same proportions either way.
pub open spec fn exact_breakdown(amount: int, income_type: IncomeType, rates: TaxRates)
    -> ExactBreakdown {
    ExactBreakdown {
        gross: amount * scale() * scale(),
        net: amount * net_share(rates),
        cas: amount * rates.social_security * scale(),
        cass: amount * rates.health_insurance * scale(),
        income_tax: amount * (scale() - rates.social_security - rates.health_insurance)
            * rates.income_tax,
        cam: amount * rates.insurance_contribution * scale(),
        total: amount * (scale() + rates.insurance_contribution) * scale(),
        denominator: match income_type {
            IncomeType::BRUTE => scale() * scale(),
            IncomeType::NET => net_share(rates),
        },
    }
}

/// A breakdown as it is reported: amounts in hundredths of a currency unit,
/// percentages in hundredths of a percent.
pub struct Breakdown {
    pub brute_income: int,
    pub net_income: int,
    pub cas: int,
    pub cass: int,
    pub cam: int,
    pub income_tax: int,
    pub total_salary: int,
    pub employee_tax_percentage: Option<int>,
    pub state_tax_percentage: Option<int>,
}

impl View for CalculationResults {
    type V = Breakdown;

    open spec fn view(&self) -> Breakdown {
        Breakdown {
            brute_income: self.brute_income as int,
            net_income: self.net_income as int,
            cas: self.cas as int,
            cass: self.cass as int,
            cam: self.cam as int,
            income_tax: self.income_tax as int,
            total_salary: self.total_salary as int,
            employee_tax_percentage: match self.employee_tax_percentage {
                Some(p) => Some(p as int),
                None => None,
            },
            state_tax_percentage: match self.state_tax_percentage {
                Some(p) => Some(p as int),
                None => None,
            },
        }
    }
}

/// Rounds each quantity of `exact` by itself. The percentages are taken of the
/// exact net and total, not of their rounded values; where the total is zero there
/// is nothing to take a share of.
pub open spec fn rounded(exact: ExactBreakdown) -> Breakdown {
    Breakdown {
        brute_income: round_half_up(exact.gross, exact.denominator),
        net_income: round_half_up(exact.net, exact.denominator),
        cas: round_half_up(exact.cas, exact.denominator),
        cass: round_half_up(exact.cass, exact.denominator),
        cam: round_half_up(exact.cam, exact.denominator),
        income_tax: round_half_up(exact.income_tax, exact.denominator),
        total_salary: round_half_up(exact.total, exact.denominator),
        employee_tax_percentage: if exact.total > 0 {
            Some(round_half_up(WHOLE_IN_PERCENT_HUNDREDTHS * exact.net, exact.total))
        } else {
            None
        },
        state_tax_percentage: if exact.total > 0 {
            Some(
                round_half_up(
                    WHOLE_IN_PERCENT_HUNDREDTHS * (exact.total - exact.net),
                    exact.total,
                ),
            )
        } else {
            None
        },
    }
}

/// The reported breakdown for `amount` hundredths of income.
pub open spec fn breakdown(amount: int, income_type: IncomeType, rates: TaxRates) -> Breakdown {
    rounded(exact_breakdown(amount, income_type, rates))
}

/// The income of a request in hundredths of a currency unit.
pub open spec fn income_in_hundredths(input: CalculationInput) -> int {
    input.income * HUNDREDTHS
}

/// A product of two bounded numbers is bounded by the product of the bounds.
proof fn lemma_product_bound(x: int, y: int, x_max: int, y_max: int)
    by (nonlinear_arith)
    requires
        0 <= x <= x_max,
        0 <= y <= y_max,
    ensures
        0 <= x * y <= x_max * y_max,
{
}

/// A share of a total, in hundredths of a percent, is at most the whole.
proof fn lemma_share_within_whole(part: int, total: int)
    requires
        0 <= part <= total,
        total > 0,
    ensures
        0 <= round_half_up(WHOLE_IN_PERCENT_HUNDREDTHS * part, total)
            <= WHOLE_IN_PERCENT_HUNDREDTHS,
{
    let r = round_half_up(WHOLE_IN_PERCENT_HUNDREDTHS * part, total);
    lemma_round_half_up_bounds(WHOLE_IN_PERCENT_HUNDREDTHS * part, total);
    assert(r <= 10_000) by (nonlinear_arith)
        requires
            2 * total * r <= 2 * (10_000 * part) + total,
            0 <= part <= total,
            total > 0,
    ;
}

/// The quantities of one breakdown before rounding, as the calculation holds
/// them: numerators over one denominator, like [`ExactBreakdown`].
#[derive(Debug, Clone, Copy, PartialEq, Eq)]
pub struct ExactResults {
    pub gross: u128,
    pub net: u128,
    pub cas: u128,
    pub cass: u128,
    pub income_tax: u128,
    pub cam: u128,
    pub total: u128,
    pub denominator: u128,
}

impl View for ExactResults {
    type V = ExactBreakdown;

    open spec fn view(&self) -> ExactBreakdown {
        ExactBreakdown {
            gross: self.gross as int,
            net: self.net as int,
            cas: self.cas as int,
            cass: self.cass as int,
            income_tax: self.income_tax as int,
            cam: self.cam as int,
            total: self.total as int,
            denominator: self.denominator as int,
        }
    }
}

impl ExactResults {
    /// The quantities can be rounded: the denominator is not zero, the net income
    /// is a part of the employer's cost, and that cost in hundredths of a percent
    /// is a number that the machine holds.
    pub open spec fn wf(&self) -> bool {
        &&& self.denominator > 0
        &&& self.net <= self.total
        &&& WHOLE_IN_PERCENT_HUNDREDTHS * self.total <= u128::MAX
    }

    /// Rounds every quantity by itself to the nearest hundredth and takes the two
    /// percentages, of the exact net income and employer's cost.
    pub fn apply_rounding(&self) -> (r: CalculationResults)
        requires
            self.wf(),
        ensures
            r@ == rounded(self@),
    {
        let whole: u128 = WHOLE_IN_PERCENT_HUNDREDTHS as u128;
        proof {
            if self.total > 0 {
                lemma_share_within_whole(self.net as int, self.total as int);
                lemma_share_within_whole(self.total - self.net, self.total as int);
            }
        }
        let employee_share: Option<u32> = if self.total > 0 {
            Some(round_to(whole * self.net, self.total) as u32)
        } else {
            None
        };
        let state_share: Option<u32> = if self.total > 0 {
            Some(round_to(whole * (self.total - self.net), self.total) as u32)
        } else {
            None
        };
        CalculationResults {
            brute_income: round_to(self.gross, self.denominator),
            net_income: round_to(self.net, self.denominator),
            cas: round_to(self.cas, self.denominator),
            cass: round_to(self.cass, self.denominator),
            cam: round_to(self.cam, self.denominator),
            income_tax: round_to(self.income_tax, self.denominator),
            total_salary: round_to(self.total, self.denominator),
            employee_tax_percentage: employee_share,
            state_tax_percentage: state_share,
        }
    }
}

/// Works out the exact quantities for `amount` hundredths of a currency unit, read
/// as net or as gross income according to `income_type`.
pub fn exact_results(amount: u64, income_type: IncomeType, rates: &TaxRates) -> (x: ExactResults)
    requires
        rates.wf(),
    ensures
        x@ == exact_breakdown(amount as int, income_type, *rates),
        x.wf(),
{
    let scale: u128 = RATE_SCALE as u128;
    let amount: u128 = amount as u128;
    let social_security: u128 = rates.social_security as u128;
    let health_insurance: u128 = rates.health_insurance as u128;
    let income_tax: u128 = rates.income_tax as u128;
    let contribution: u128 = rates.insurance_contribution as u128;
    let taxable_part: u128 = scale - social_security - health_insurance;
    let kept_part: u128 = scale - income_tax;
    proof {
        lemma_product_bound(taxable_part as int - 1, kept_part as int - 1, 999_999, 999_999);
        assert(taxable_part * kept_part == (taxable_part - 1) * (kept_part - 1) + taxable_part
            + kept_part - 1) by (nonlinear_arith);
    }
    let share: u128 = taxable_part * kept_part;
    assert(share == net_share(*rates));
    assert(0 < share <= 1_000_000_000_000);
    proof {
        let a = amount as int;
        let max = u64::MAX as int;
        lemma_product_bound(a, share as int, max, 1_000_000_000_000);
        lemma_product_bound(a, social_security as int, max, 1_000_000);
        lemma_product_bound(a, health_insurance as int, max, 1_000_000);
        lemma_product_bound(a, contribution as int, max, 1_000_000);
        lemma_product_bound(a, taxable_part as int, max, 1_000_000);
        lemma_product_bound(a * taxable_part, income_tax as int, max * 1_000_000, 1_000_000);
        lemma_product_bound(a, scale + contribution, max, 2_000_000);
        lemma_product_bound(a, share as int, a, (scale + contribution) * scale);
        assert(amount * ((scale + contribution) * scale) == amount * (scale + contribution)
            * scale) by (nonlinear_arith);
    }
    ExactResults {
        gross: amount * scale * scale,
        net: amount * share,
        cas: amount * social_security * scale,
        cass: amount * health_insurance * scale,
        income_tax: amount * taxable_part * income_tax,
        cam: amount * contribution * scale,
        total: amount * (scale + contribution) * scale,
        denominator: match income_type {
            IncomeType::BRUTE => scale * scale,
            IncomeType::NET => share,
        },
    }
}

/// Works out the breakdown for `amount` hundredths of a currency unit, read as net
/// or as gross income according to `income_type`.
///
/// Both percentages are given exactly when the amount is more than nothing, and
/// they add up to the whole, or to a hundredth of a percent more.
pub fn calculate_breakdown(amount: u64, income_type: IncomeType, rates: &TaxRates) -> (r:
    CalculationResults)
    requires
        rates.wf(),
    ensures
        r@ == breakdown(amount as int, income_type, *rates),
        amount == 0 ==> r.employee_tax_percentage is None && r.state_tax_percentage is None,
        amount > 0 ==> r.employee_tax_percentage is Some && r.state_tax_percentage is Some,
        amount > 0 ==> r.employee_tax_percentage->0 + r.state_tax_percentage->0 == 10_000
            || r.employee_tax_percentage->0 + r.state_tax_percentage->0 == 10_001,
{
    proof {
        lemma_percentages_sum_to_whole(amount as int, income_type, *rates);
    }
    exact_results(amount, income_type, rates).apply_rounding()
}

/// Whether `outcome` is what `input` is owed. The schedule is that of the year
/// which the request names, and that of `default_year` where it names none. Where
/// `schedules` holds it, the breakdown of the income under that schedule is owed;
/// where it holds none for that year, the error `NotFound`.
pub open spec fn is_outcome(
    outcome: Result<CalculationResults, TaxRateError>,
    input: CalculationInput,
    schedules: Map<int, TaxRates>,
    default_year: int,
) -> bool {
    let year = match input.year {
        Some(asked) => asked as int,
        None => default_year,
    };
    match outcome {
        Ok(results) => schedules.contains_key(year) && results@ == breakdown(
            income_in_hundredths(input),
            input.income_type,
            schedules[year],
        ),
        Err(error) => error is NotFound && !schedules.contains_key(year),
    }
}

/// Works out the breakdown for a request with the rates of the year it names, and
/// with those of `default_year` where it names none.
pub fn perform_calculation_for_year(
    input: &CalculationInput,
    table: &RateTable,
    default_year: i64,
) -> (outcome: Result<CalculationResults, TaxRateError>)
    ensures
        is_outcome(outcome, *input, table@, default_year as int),
{
    let year: i64 = match input.year {
        Some(asked) => asked as i64,
        None => default_year,
    };
    match table.get(year) {
        Some(rates) => {
            let amount: u64 = input.income as u64 * HUNDREDTHS;
            Ok(calculate_breakdown(amount, input.income_type, &rates))
        },
        None => Err(TaxRateError::NotFound),
    }
}

/// Works out the breakdown for a request with the rates of the year it names, and
/// with those of the current year where it names none.
///
/// The current year is read from the clock only when it is needed, and the
/// contract says of it no more than that it is some year.
pub fn perform_calculation(input: &CalculationInput, table: &RateTable) -> (outcome: Result<
    CalculationResults,
    TaxRateError,
>)
    ensures
        match input.year {
            Some(asked) => is_outcome(outcome, *input, table@, asked as int),
            None => exists|current_year: int|
                i32::MIN <= current_year <= i32::MAX && #[trigger] is_outcome(
                    outcome,
                    *input,
                    table@,
                    current_year,
                ),
        },
{
    let default_year: i64 = match input.year {
        Some(asked) => asked as i64,
        None => get_current_year() as i64,
    };
    perform_calculation_for_year(input, table, default_year)
}

/// Why a request got no breakdown.
#[derive(Debug, Clone, PartialEq, Eq)]
pub enum CalculationError {
    /// The request did not pass validation.
    Validation(ValidationError),
    /// No rates could be had for the year of the request.
    Rates(TaxRateError),
}

/// Whether `outcome` is what a request as it arrived is owed: the error of its
/// validation where it fails, and else what [`is_outcome`] says of the validated
/// request.
pub open spec fn is_outcome_of_request(
    outcome: Result<CalculationResults, CalculationError>,
    data: CalculateSchema,
    schedules: Map<int, TaxRates>,
    default_year: int,
) -> bool {
    match validated(data) {
        Err(error) => outcome matches Err(CalculationError::Validation(found)) && found@
            == error,
        Ok(input) => match outcome {
            Ok(results) => is_outcome(Ok(results), input, schedules, default_year),
            Err(CalculationError::Rates(error)) => is_outcome(
                Err(error),
                input,
                schedules,
                default_year,
            ),
            Err(CalculationError::Validation(_)) => false,
        },
    }
}

/// Validates a request and works out its breakdown, with the rates of the year
/// it names and with those of `default_year` where it names none.
pub fn calculate_for_year(data: &CalculateSchema, table: &RateTable, default_year: i64) -> (outcome:
    Result<CalculationResults, CalculationError>)
    ensures
        is_outcome_of_request(outcome, *data, table@, default_year as int),
{
    match validate_calculate_input(data) {
        Err(error) => Err(CalculationError::Validation(error)),
        Ok(input) => match perform_calculation_for_year(&input, table, default_year) {
            Ok(results) => Ok(results),
            Err(error) => Err(CalculationError::Rates(error)),
        },
    }
}

/// Validates a request and works out its breakdown, with the rates of the year
/// it names and with those of the current year where it names none.
///
/// The current year is read from the clock only when it is needed, and the
/// contract says of it no more than that it is some year.
pub fn calculate(data: &CalculateSchema, table: &RateTable) -> (outcome: Result<
    CalculationResults,
    CalculationError,
>)
    ensures
        exists|current_year: int|
            i32::MIN <= current_year <= i32::MAX && #[trigger] is_outcome_of_request(
                outcome,
                *data,
                table@,
                current_year,
            ),
        validated(*data) matches Ok(input) ==> (input.year matches Some(asked)
            ==> is_outcome_of_request(outcome, *data, table@, asked as int)),
{
    match validate_calculate_input(data) {
        Err(error) => {
            let outcome = Err(CalculationError::Validation(error));
            assert(is_outcome_of_request(outcome, *data, table@, 0));
            outcome
        },
        Ok(input) => {
            let inner = perform_calculation(&input, table);
            let ghost found = inner;
            let outcome = match inner {
                Ok(results) => Ok(results),
                Err(error) => Err(CalculationError::Rates(error)),
            };
            proof {
                match input.year {
                    Some(asked) => {
                        assert(is_outcome_of_request(outcome, *data, table@, asked as int));
                        assert(is_outcome_of_request(outcome, *data, table@, 0));
                    },
                    None => {
                        let current_year = choose|current_year: int|
                            i32::MIN <= current_year <= i32::MAX && #[trigger] is_outcome(
                                found,
                                input,
                                table@,
                                current_year,
                            );
                        assert(is_outcome_of_request(outcome, *data, table@, current_year));
                    },
                }
            }
            outcome
        },
    }
}

} // verus!
