use payroll_tax::clock::get_current_year;
use payroll_tax::engine::{calculate, calculate_for_year, CalculationError};
use payroll_tax::models::{CalculateSchema, CalculationResults};
use payroll_tax::rates::{RateTable, TaxRateError};
use payroll_tax::seed::initial_tax_rates;
use payroll_tax::validators::ValidationError;

fn text(value: &str) -> Option<String> {
    Some(value.to_string())
}

fn seeded_table() -> RateTable {
    let mut table = RateTable::new();
    for rates in initial_tax_rates(get_current_year()) {
        table.insert(rates);
    }
    table
}

fn amount(hundredths: u128) -> f64 {
    hundredths as f64 / 100.0
}

fn percentage(hundredths: Option<u32>) -> f64 {
    hundredths.expect("a percentage") as f64 / 100.0
}

fn validation_message(outcome: Result<CalculationResults, CalculationError>) -> String {
    match outcome {
        Err(CalculationError::Validation(error)) => error.message(),
        other => panic!("expected a validation error, got {:?}", other),
    }
}

#[test]
fn calculate_with_wrong_currency_should_return_error_400() {
    let data = CalculateSchema {
        income: text("1000"),
        income_type: text("brute"),
        currency: text("YEN"),
        custom_tax: text("500"),
        year: None,
    };
    let message = validation_message(calculate(&data, &seeded_table()));
    assert!(message.contains("Currency \"YEN\" not supported"));
}

#[test]
fn calculate_with_wrong_income_type_should_return_error_400() {
    let data = CalculateSchema {
        income: text("1000"),
        income_type: text("wrong-income-type"),
        currency: text("RON"),
        custom_tax: text("500"),
        year: None,
    };
    let message = validation_message(calculate(&data, &seeded_table()));
    assert!(message.contains("Unsupported income type \"wrong-income-type\""));
}

#[test]
fn calculate_with_empty_currency_should_return_error_400() {
    let data = CalculateSchema {
        income: text("1000"),
        income_type: text("net"),
        currency: None,
        custom_tax: text("500"),
        year: None,
    };
    let message = validation_message(calculate(&data, &seeded_table()));
    assert!(message.contains("Currency \"\" not supported"));
}

#[test]
fn calculate_missing_salary() {
    let data = CalculateSchema {
        income: None,
        income_type: None,
        currency: text("RON"),
        custom_tax: text("500"),
        year: None,
    };
    let message = validation_message(calculate(&data, &seeded_table()));
    assert!(message.contains("Invalid or missing income."));
}

#[test]
fn test_calculate_calculate_net_salary_happy_path() {
    let data = CalculateSchema {
        income: text("10000"),
        income_type: text("net"),
        currency: text("ron"),
        custom_tax: None,
        year: None,
    };
    assert!(calculate(&data, &seeded_table()).is_ok());
}

#[test]
fn test_calculate_calculate_brute_salary_happy_path() {
    let data = CalculateSchema {
        income: text("10000"),
        income_type: text("brute"),
        currency: text("ron"),
        custom_tax: None,
        year: None,
    };
    assert!(calculate(&data, &seeded_table()).is_ok());
}

#[test]
fn calculate_with_wrong_currency_should_respond_error_400() {
    let data = CalculateSchema {
        income: text("1000"),
        income_type: text("brute"),
        currency: text("YEN"),
        custom_tax: text("500"),
        year: None,
    };
    let outcome = calculate(&data, &seeded_table());
    assert_eq!(
        outcome,
        Err(CalculationError::Validation(ValidationError::UnsupportedCurrency("YEN".to_string())))
    );
    assert!(validation_message(outcome).contains("Currency \"YEN\" not supported"));
}

#[test]
fn calculate_with_wrong_income_type_should_respond_error_400() {
    let data = CalculateSchema {
        income: text("1000"),
        income_type: text("wrong-income-type"),
        currency: text("RON"),
        custom_tax: text("500"),
        year: None,
    };
    let outcome = calculate(&data, &seeded_table());
    assert_eq!(
        outcome,
        Err(CalculationError::Validation(ValidationError::UnsupportedIncomeType(
            "wrong-income-type".to_string()
        )))
    );
    assert!(validation_message(outcome).contains("Unsupported income type \"wrong-income-type\""));
}

#[test]
fn calculate_with_empty_currency_should_respond_error_400() {
    let data = CalculateSchema {
        income: text("1000"),
        income_type: text("net"),
        currency: None,
        custom_tax: text("500"),
        year: None,
    };
    let outcome = calculate(&data, &seeded_table());
    assert_eq!(
        outcome,
        Err(CalculationError::Validation(ValidationError::UnsupportedCurrency(String::new())))
    );
    assert!(validation_message(outcome).contains("Currency \"\" not supported"));
}

#[test]
fn calculate_missing_salary_should_respond_400() {
    let data = CalculateSchema {
        income: None,
        income_type: None,
        currency: text("RON"),
        custom_tax: text("500"),
        year: None,
    };
    let outcome = calculate(&data, &seeded_table());
    assert_eq!(outcome, Err(CalculationError::Validation(ValidationError::InvalidIncome)));
    assert!(validation_message(outcome).contains("Invalid or missing income."));
}

#[test]
fn test_calculations_calculate_net_salary_happy_path() {
    let data = CalculateSchema {
        income: text("10000"),
        income_type: text("net"),
        currency: text("ron"),
        custom_tax: None,
        year: None,
    };
    let response = calculate(&data, &seeded_table()).expect("a breakdown");
    assert_eq!(amount(response.brute_income), 17094.02);
    assert_eq!(amount(response.net_income), 10000.0);
    assert_eq!(amount(response.cas), 4273.5);
    assert_eq!(amount(response.cass), 1709.4);
    assert_eq!(amount(response.income_tax), 1111.11);
    assert_eq!(amount(response.cam), 384.62);
    assert_eq!(amount(response.total_salary), 17478.63);
    assert_eq!(percentage(response.employee_tax_percentage), 57.21);
    assert_eq!(percentage(response.state_tax_percentage), 42.79);
}

#[test]
fn test_calculations_calculate_brute_salary_happy_path() {
    let data = CalculateSchema {
        income: text("10000"),
        income_type: text("brute"),
        currency: text("ron"),
        custom_tax: None,
        year: None,
    };
    let response = calculate(&data, &seeded_table()).expect("a breakdown");
    assert_eq!(amount(response.brute_income), 10000.0);
    assert_eq!(amount(response.net_income), 5850.0);
    assert_eq!(amount(response.cas), 2500.0);
    assert_eq!(amount(response.cass), 1000.0);
    assert_eq!(amount(response.income_tax), 650.0);
    assert_eq!(amount(response.cam), 225.0);
    assert_eq!(amount(response.total_salary), 10225.0);
    assert_eq!(percentage(response.employee_tax_percentage), 57.21);
    assert_eq!(percentage(response.state_tax_percentage), 42.79);
}

#[test]
fn calculate_brute_salary_works_for_year_2023() {
    let data = CalculateSchema {
        income: text("10000"),
        income_type: text("brute"),
        currency: text("ron"),
        custom_tax: None,
        year: text("2023"),
    };
    let response = calculate(&data, &seeded_table()).expect("a breakdown");
    assert_eq!(amount(response.brute_income), 10000.0);
    assert_eq!(amount(response.net_income), 5850.0);
    assert_eq!(amount(response.cas), 2500.0);
    assert_eq!(amount(response.cass), 1000.0);
    assert_eq!(amount(response.income_tax), 650.0);
    assert_eq!(amount(response.cam), 225.0);
    assert_eq!(amount(response.total_salary), 10225.0);
    assert_eq!(percentage(response.employee_tax_percentage), 57.21);
    assert_eq!(percentage(response.state_tax_percentage), 42.79);
}

#[test]
fn the_year_of_the_request_decides_the_schedule_not_the_clock() {
    let mut table = RateTable::new();
    for rates in initial_tax_rates(1999) {
        table.insert(rates);
    }
    let mut data = CalculateSchema {
        income: text("10000"),
        income_type: text("brute"),
        currency: text("ron"),
        custom_tax: None,
        year: text("2023"),
    };
    let with_year = calculate_for_year(&data, &table, 1999).expect("a breakdown");
    let same_from_the_clock = calculate(&data, &table).expect("a breakdown");
    data.year = None;
    let defaulted = calculate_for_year(&data, &table, 1999).expect("a breakdown");
    assert_eq!(with_year, defaulted);
    assert_eq!(with_year, same_from_the_clock);
    assert_eq!(with_year.net_income, 585_000);
}

#[test]
fn a_year_without_a_schedule_is_an_error_of_its_own() {
    let table = seeded_table();
    let mut data = CalculateSchema {
        income: text("10000"),
        income_type: text("brute"),
        currency: text("ron"),
        custom_tax: None,
        year: text("1987"),
    };
    assert_eq!(calculate(&data, &table), Err(CalculationError::Rates(TaxRateError::NotFound)));
    assert_eq!(
        calculate_for_year(&data, &table, 2024),
        Err(CalculationError::Rates(TaxRateError::NotFound))
    );
    data.year = None;
    assert_eq!(
        calculate_for_year(&data, &table, 1987),
        Err(CalculationError::Rates(TaxRateError::NotFound))
    );
    assert_eq!(
        calculate_for_year(&data, &table, -44),
        Err(CalculationError::Rates(TaxRateError::NotFound))
    );
    assert!(calculate_for_year(&data, &table, 2024).is_ok());
}

#[test]
fn a_year_that_cannot_be_read_counts_as_not_given() {
    let table = seeded_table();
    let data = CalculateSchema {
        income: text("10000"),
        income_type: text("brute"),
        currency: text("ron"),
        custom_tax: None,
        year: text("next year"),
    };
    assert_eq!(calculate_for_year(&data, &table, 1987).is_ok(), false);
    assert_eq!(calculate_for_year(&data, &table, 2023).is_ok(), true);
}
