use payroll_tax::engine::{
    calculate_breakdown, exact_results, perform_calculation, perform_calculation_for_year,
    ExactResults,
};
use payroll_tax::models::{CalculationInput, CalculationResults, Currency, IncomeType};
use payroll_tax::rates::{RateTable, TaxRateError, TaxRates};

fn rates() -> TaxRates {
    TaxRates {
        year: 2024,
        income_tax: 100_000,
        social_security: 250_000,
        health_insurance: 100_000,
        insurance_contribution: 22_500,
    }
}

fn steep_rates() -> TaxRates {
    TaxRates {
        year: 2024,
        income_tax: 500_000,
        social_security: 250_000,
        health_insurance: 250_000,
        insurance_contribution: 0,
    }
}

fn input(income: u32, income_type: IncomeType, year: Option<u32>) -> CalculationInput {
    CalculationInput { income, income_type, currency: Currency::RON, custom_tax: None, year }
}

#[test]
fn gross_income_gives_the_expected_breakdown() {
    let r = calculate_breakdown(1_000_000, IncomeType::BRUTE, &rates());
    assert_eq!(
        r,
        CalculationResults {
            brute_income: 1_000_000,
            net_income: 585_000,
            cas: 250_000,
            cass: 100_000,
            cam: 22_500,
            income_tax: 65_000,
            total_salary: 1_022_500,
            employee_tax_percentage: Some(5721),
            state_tax_percentage: Some(4279),
        }
    );
}

#[test]
fn net_income_gives_the_expected_breakdown() {
    let r = calculate_breakdown(1_000_000, IncomeType::NET, &rates());
    assert_eq!(
        r,
        CalculationResults {
            brute_income: 1_709_402,
            net_income: 1_000_000,
            cas: 427_350,
            cass: 170_940,
            cam: 38_462,
            income_tax: 111_111,
            total_salary: 1_747_863,
            employee_tax_percentage: Some(5721),
            state_tax_percentage: Some(4279),
        }
    );
}

#[test]
fn exact_quantities_share_one_denominator() {
    let gross = exact_results(1_000_000, IncomeType::BRUTE, &rates());
    assert_eq!(
        gross,
        ExactResults {
            gross: 1_000_000_000_000_000_000,
            net: 585_000_000_000_000_000,
            cas: 250_000_000_000_000_000,
            cass: 100_000_000_000_000_000,
            income_tax: 65_000_000_000_000_000,
            cam: 22_500_000_000_000_000,
            total: 1_022_500_000_000_000_000,
            denominator: 1_000_000_000_000,
        }
    );
    let net = exact_results(1_000_000, IncomeType::NET, &rates());
    assert_eq!(net.denominator, 585_000_000_000);
    assert_eq!(ExactResults { denominator: gross.denominator, ..net }, gross);
    assert_eq!(gross.apply_rounding(), calculate_breakdown(1_000_000, IncomeType::BRUTE, &rates()));
    assert_eq!(net.apply_rounding(), calculate_breakdown(1_000_000, IncomeType::NET, &rates()));
}

#[test]
fn every_quantity_is_rounded_by_itself() {
    // 0.03 of gross income: none of the deductions reaches half a hundredth
    // but the income tax, and the rounded parts do not add up to the whole.
    let r = calculate_breakdown(3, IncomeType::BRUTE, &rates());
    assert_eq!(r.brute_income, 3);
    assert_eq!(r.cas, 1);
    assert_eq!(r.cass, 0);
    assert_eq!(r.income_tax, 0);
    assert_eq!(r.net_income, 2);
    assert_eq!(r.cam, 0);
    assert_eq!(r.total_salary, 3);
}

#[test]
fn no_income_has_no_percentages() {
    for income_type in [IncomeType::BRUTE, IncomeType::NET] {
        let r = calculate_breakdown(0, income_type, &rates());
        assert_eq!(
            r,
            CalculationResults {
                brute_income: 0,
                net_income: 0,
                cas: 0,
                cass: 0,
                cam: 0,
                income_tax: 0,
                total_salary: 0,
                employee_tax_percentage: None,
                state_tax_percentage: None,
            }
        );
    }
}

#[test]
fn the_default_breakdown_is_all_zero() {
    let r = CalculationResults::default();
    assert_eq!(r.brute_income, 0);
    assert_eq!(r.net_income, 0);
    assert_eq!(r.cas, 0);
    assert_eq!(r.cass, 0);
    assert_eq!(r.cam, 0);
    assert_eq!(r.income_tax, 0);
    assert_eq!(r.total_salary, 0);
    assert_eq!(r.employee_tax_percentage, Some(0));
    assert_eq!(r.state_tax_percentage, Some(0));
}

#[test]
fn percentages_add_up_to_the_whole() {
    for amount in [1u64, 2, 3, 99, 100, 12_345, 1_000_000, u32::MAX as u64 * 100, u64::MAX] {
        for income_type in [IncomeType::BRUTE, IncomeType::NET] {
            for schedule in [rates(), steep_rates()] {
                let r = calculate_breakdown(amount, income_type, &schedule);
                let sum = r.employee_tax_percentage.unwrap() + r.state_tax_percentage.unwrap();
                assert!(sum == 10_000 || sum == 10_001);
            }
        }
    }
    assert_eq!(
        calculate_breakdown(500, IncomeType::BRUTE, &steep_rates()).employee_tax_percentage,
        Some(2500)
    );
}

#[test]
fn percentages_that_end_in_a_half_are_both_rounded_up() {
    // The employee takes home 49.995 % of what the salary costs and 50.005 % are
    // withheld: both end in half a hundredth, and both halves go up.
    let schedule = TaxRates {
        year: 2024,
        income_tax: 500_000,
        social_security: 90,
        health_insurance: 10,
        insurance_contribution: 0,
    };
    let r = calculate_breakdown(2_000_000, IncomeType::BRUTE, &schedule);
    assert_eq!(r.net_income, 999_900);
    assert_eq!(r.total_salary, 2_000_000);
    assert_eq!(r.employee_tax_percentage, Some(5000));
    assert_eq!(r.state_tax_percentage, Some(5001));
}

#[test]
fn more_gross_income_gives_more_net_income() {
    let mut last = calculate_breakdown(0, IncomeType::BRUTE, &rates()).net_income;
    for gross in (100u64..=1_000_000).step_by(100) {
        let net = calculate_breakdown(gross, IncomeType::BRUTE, &rates()).net_income;
        assert!(net > last);
        last = net;
    }
}

#[test]
fn net_income_may_stand_still_where_little_is_taken_home() {
    let schedule = TaxRates {
        year: 2024,
        income_tax: 990_000,
        social_security: 500_000,
        health_insurance: 490_000,
        insurance_contribution: 0,
    };
    let one = calculate_breakdown(100, IncomeType::BRUTE, &schedule);
    let two = calculate_breakdown(200, IncomeType::BRUTE, &schedule);
    assert_eq!(one.net_income, 0);
    assert_eq!(two.net_income, 0);
    assert!(exact_results(100, IncomeType::BRUTE, &schedule).net
        < exact_results(200, IncomeType::BRUTE, &schedule).net);
    let far = calculate_breakdown(1_000_000, IncomeType::BRUTE, &schedule);
    assert_eq!(far.net_income, 100);
}

#[test]
fn net_of_gross_leads_back_to_the_gross_income() {
    for gross in [0u64, 1, 2, 3, 4, 5, 99, 100, 777, 1_000_000, 1_709_402, 123_456_789] {
        let net = calculate_breakdown(gross, IncomeType::BRUTE, &rates()).net_income;
        let back = calculate_breakdown(net as u64, IncomeType::NET, &rates()).brute_income;
        assert!(back + 1 >= gross as u128 && back <= gross as u128 + 1, "{}", gross);
    }
    let net = calculate_breakdown(1_000_000, IncomeType::BRUTE, &rates()).net_income;
    assert_eq!(net, 585_000);
    assert_eq!(calculate_breakdown(585_000, IncomeType::NET, &rates()).brute_income, 1_000_000);
}

#[test]
fn gross_of_net_leads_back_to_exactly_the_net_income() {
    for schedule in [rates(), steep_rates()] {
        for net in [0u64, 1, 2, 3, 50, 99, 100, 777, 1_000_000, 123_456_789] {
            let gross = calculate_breakdown(net, IncomeType::NET, &schedule).brute_income;
            let back = calculate_breakdown(gross as u64, IncomeType::BRUTE, &schedule).net_income;
            assert_eq!(back, net as u128);
        }
    }
}

#[test]
fn the_way_back_to_gross_is_wider_where_little_is_taken_home() {
    // A quarter is taken home: 0.02 gives 0.005, rounded to 0.01, which is the net
    // income of 0.04.
    let net = calculate_breakdown(2, IncomeType::BRUTE, &steep_rates()).net_income;
    assert_eq!(net, 1);
    assert_eq!(calculate_breakdown(1, IncomeType::NET, &steep_rates()).brute_income, 4);
    // Where the net income needs no rounding the way back is exact.
    let net = calculate_breakdown(400, IncomeType::BRUTE, &steep_rates()).net_income;
    assert_eq!(net, 100);
    assert_eq!(calculate_breakdown(100, IncomeType::NET, &steep_rates()).brute_income, 400);
}

#[test]
fn the_largest_amounts_do_not_overflow() {
    let schedule = TaxRates {
        year: 2024,
        income_tax: 999_999,
        social_security: 999_998,
        health_insurance: 1,
        insurance_contribution: 999_999,
    };
    let r = calculate_breakdown(u64::MAX, IncomeType::NET, &schedule);
    assert_eq!(r.net_income, u64::MAX as u128);
    assert_eq!(r.brute_income, u64::MAX as u128 * 1_000_000_000_000);
    assert_eq!(r.total_salary, u64::MAX as u128 * 1_999_999_000_000);
    let r = calculate_breakdown(u64::MAX, IncomeType::BRUTE, &schedule);
    assert_eq!(r.brute_income, u64::MAX as u128);
    assert_eq!(r.net_income, 18_446_744);
}

#[test]
fn a_request_is_worked_out_in_hundredths() {
    let mut table = RateTable::new();
    assert!(table.insert(rates()));
    let r = perform_calculation_for_year(&input(10_000, IncomeType::BRUTE, None), &table, 2024);
    assert_eq!(r, Ok(calculate_breakdown(1_000_000, IncomeType::BRUTE, &rates())));
    let r = perform_calculation_for_year(&input(10_000, IncomeType::NET, Some(2024)), &table, 1);
    assert_eq!(r, Ok(calculate_breakdown(1_000_000, IncomeType::NET, &rates())));
    let r = perform_calculation_for_year(&input(u32::MAX, IncomeType::NET, Some(2024)), &table, 1);
    assert_eq!(r.unwrap().net_income, 429_496_729_500);
    let r = perform_calculation(&input(10_000, IncomeType::NET, Some(2024)), &table);
    assert_eq!(r, Ok(calculate_breakdown(1_000_000, IncomeType::NET, &rates())));
}

#[test]
fn a_request_for_an_unknown_year_fails() {
    let mut table = RateTable::new();
    assert!(table.insert(rates()));
    let r = perform_calculation_for_year(&input(10_000, IncomeType::BRUTE, None), &table, 2025);
    assert_eq!(r, Err(TaxRateError::NotFound));
    let r = perform_calculation_for_year(&input(10, IncomeType::BRUTE, Some(2025)), &table, 2024);
    assert_eq!(r, Err(TaxRateError::NotFound));
    let r = perform_calculation(&input(10, IncomeType::BRUTE, Some(u32::MAX)), &table);
    assert_eq!(r, Err(TaxRateError::NotFound));
    let r = perform_calculation(&input(10, IncomeType::BRUTE, None), &RateTable::new());
    assert_eq!(r, Err(TaxRateError::NotFound));
}

#[test]
fn the_custom_tax_and_the_currency_change_nothing() {
    let mut table = RateTable::new();
    assert!(table.insert(rates()));
    let plain = input(10_000, IncomeType::BRUTE, Some(2024));
    let other = CalculationInput { currency: Currency::EURO, custom_tax: Some(500), ..plain };
    assert_eq!(
        perform_calculation_for_year(&plain, &table, 0),
        perform_calculation_for_year(&other, &table, 0)
    );
}
