//! The schedules that a new rate store starts with, and the statements that put
//! them there.

use vstd::prelude::*;
use crate::clock::get_current_year;
use crate::rates::{TaxRates, RATE_SCALE};
use crate::text::{
    append_decimal,
    append_fixed_digits,
    append_integer,
    decimal_text,
    fixed_digits,
    integer_text,
};

verus! {

/// The schedule that a year starts with: income tax 10 %, social security 25 %,
/// health insurance 10 %, employer's contribution 2.25 %.
pub open spec fn default_rates(year: i32) -> TaxRates {
    TaxRates {
        year,
        income_tax: 100_000,
        social_security: 250_000,
        health_insurance: 100_000,
        insurance_contribution: 22_500,
    }
}

/// The schedules that a new store starts with: those of the current year, of
/// 2024 and of 2023, in this order.
pub open spec fn initial_rates(current_year: i32) -> Seq<TaxRates> {
    seq![default_rates(current_year), default_rates(2024), default_rates(2023)]
}

/// Gives the schedule that a year starts with.
pub fn default_tax_rates(year: i32) -> (rates: TaxRates)
    ensures
        rates == default_rates(year),
        rates.wf(),
{
    TaxRates {
        year,
        income_tax: 100_000,
        social_security: 250_000,
        health_insurance: 100_000,
        insurance_contribution: 22_500,
    }
}

/// Gives the schedules that a new store starts with.
pub fn initial_tax_rates(current_year: i32) -> (rows: Vec<TaxRates>)
    ensures
        rows@ == initial_rates(current_year),
{
    let mut rows: Vec<TaxRates> = Vec::new();
    rows.push(default_tax_rates(current_year));
    rows.push(default_tax_rates(2024));
    rows.push(default_tax_rates(2023));
    assert(rows@ =~= initial_rates(current_year));
    rows
}

/// A rate as a decimal fraction with six places: 250 000 reads `0.250000`.
pub open spec fn rate_text(rate: u32) -> Seq<char> {
    decimal_text((rate / RATE_SCALE) as nat) + seq!['.'] + fixed_digits(
        (rate % RATE_SCALE) as nat,
        6,
    )
}

/// The statement that stores `rates` unless their year is stored already.
pub open spec fn insert_statement_text(rates: TaxRates) -> Seq<char> {
    "INSERT INTO tax_rates (year, income_tax, social_security, health_insurance, insurance_contribution) VALUES ("@
        + integer_text(rates.year as int) + ", "@ + rate_text(rates.income_tax) + ", "@
        + rate_text(rates.social_security) + ", "@ + rate_text(rates.health_insurance) + ", "@
        + rate_text(rates.insurance_contribution) + ") ON CONFLICT(year) DO NOTHING;"@
}

/// Writes a rate as a decimal fraction at the end of `out`.
fn append_rate(out: &mut String, rate: u32)
    ensures
        final(out)@ == old(out)@ + rate_text(rate),
{
    append_decimal(out, (rate / RATE_SCALE) as u64);
    proof {
        reveal_strlit(".");
    }
    out.append(".");
    append_fixed_digits(out, (rate % RATE_SCALE) as u64, 6);
    assert(out@ =~= old(out)@ + rate_text(rate));
}

/// Writes the statement that stores `rates` unless their year is stored already.
pub fn insert_statement(rates: &TaxRates) -> (statement: String)
    ensures
        statement@ == insert_statement_text(*rates),
{
    let mut statement = String::from_str(
        "INSERT INTO tax_rates (year, income_tax, social_security, health_insurance, insurance_contribution) VALUES (",
    );
    append_integer(&mut statement, rates.year as i64);
    statement.append(", ");
    append_rate(&mut statement, rates.income_tax);
    statement.append(", ");
    append_rate(&mut statement, rates.social_security);
    statement.append(", ");
    append_rate(&mut statement, rates.health_insurance);
    statement.append(", ");
    append_rate(&mut statement, rates.insurance_contribution);
    statement.append(") ON CONFLICT(year) DO NOTHING;");
    assert(statement@ =~= insert_statement_text(*rates));
    statement
}

/// The statements that fill a new store, one for each of its first schedules.
pub open spec fn initial_statements(current_year: i32) -> Seq<Seq<char>> {
    initial_rates(current_year).map_values(|rates: TaxRates| insert_statement_text(rates))
}

/// Writes the statements that fill a new store when the current year is
/// `current_year`.
pub fn initial_insert_statements(current_year: i32) -> (statements: Vec<String>)
    ensures
        statements.deep_view() == initial_statements(current_year),
{
    let rows = initial_tax_rates(current_year);
    let mut statements: Vec<String> = Vec::new();
    let mut i: usize = 0;
    while i < rows.len()
        invariant
            i <= rows@.len(),
            rows@ == initial_rates(current_year),
            statements@.len() == i,
            forall|j: int|
                0 <= j < i ==> (#[trigger] statements@[j])@ == insert_statement_text(rows@[j]),
        decreases rows@.len() - i,
    {
        statements.push(insert_statement(&rows[i]));
        i += 1;
    }
    assert(statements.deep_view() =~= initial_statements(current_year));
    statements
}

/// Writes the statements that fill a new store, the current year read from the
/// clock. The contract says of that year no more than that it is some year.
pub fn get_initial_insert_statements() -> (statements: Vec<String>)
    ensures
        exists|current_year: i32|
            statements.deep_view() == #[trigger] initial_statements(current_year),
{
    initial_insert_statements(get_current_year())
}

/// Writes the statements to run on a store that holds `row_count` schedules: those
/// that fill a new store where it holds none, and no statement where it holds
/// any. The current year is read from the clock, and only where it is needed.
pub fn seed_statements(row_count: i64) -> (statements: Vec<String>)
    ensures
        row_count != 0 ==> statements@.len() == 0,
        row_count == 0 ==> exists|current_year: i32|
            statements.deep_view() == #[trigger] initial_statements(current_year),
{
    if row_count == 0 {
        get_initial_insert_statements()
    } else {
        Vec::new()
    }
}

} // verus!
