//! The request and the result of a payroll calculation.

use vstd::prelude::*;
use crate::text::{ascii_uppercase, chars_of, is_keyword, trim, trimmed};

verus! {

/// The currency that an amount is shown in. It takes no part in the arithmetic.
#[allow(non_camel_case_types)]
#[derive(Debug, Clone, Copy, PartialEq, Eq, Structural)]
pub enum Currency {
    DOLLAR,
    RON,
    EURO,
}

impl Currency {
    /// The currency that `text` names: its name in any mix of upper and lower case,
    /// with or without white space around it.
    pub open spec fn named_by(text: Seq<char>) -> Option<Currency> {
        let word = ascii_uppercase(trimmed(text));
        if word == "DOLLAR"@ {
            Some(Currency::DOLLAR)
        } else if word == "RON"@ {
            Some(Currency::RON)
        } else if word == "EURO"@ {
            Some(Currency::EURO)
        } else {
            None
        }
    }

    /// Reads the name of a currency.
    pub fn from_str(currency: &str) -> (r: Option<Currency>)
        ensures
            r == Currency::named_by(currency@),
    {
        let word = trim(&chars_of(currency));
        if is_keyword(&word, "DOLLAR") {
            Some(Currency::DOLLAR)
        } else if is_keyword(&word, "RON") {
            Some(Currency::RON)
        } else if is_keyword(&word, "EURO") {
            Some(Currency::EURO)
        } else {
            None
        }
    }
}

/// Which figure a request gives: the pay taken home, or the pay before deductions.
#[allow(non_camel_case_types)]
#[derive(Debug, Clone, Copy, PartialEq, Eq, Structural)]
pub enum IncomeType {
    /// The income is the amount taken home.
    NET,
    /// The income is the gross amount, before any deduction.
    BRUTE,
}

impl IncomeType {
    /// The kind of income that `text` names: `NET` or `BRUTE` in any mix of upper
    /// and lower case, with or without white space around it.
    pub open spec fn named_by(text: Seq<char>) -> Option<IncomeType> {
        let word = ascii_uppercase(trimmed(text));
        if word == "NET"@ {
            Some(IncomeType::NET)
        } else if word == "BRUTE"@ {
            Some(IncomeType::BRUTE)
        } else {
            None
        }
    }

    /// Reads the name of a kind of income.
    pub fn from_str(income_type: &str) -> (r: Option<IncomeType>)
        ensures
            r == IncomeType::named_by(income_type@),
    {
        let word = trim(&chars_of(income_type));
        if is_keyword(&word, "NET") {
            Some(IncomeType::NET)
        } else if is_keyword(&word, "BRUTE") {
            Some(IncomeType::BRUTE)
        } else {
            None
        }
    }
}

/// A request as it arrives: every field is text, and any of them may be missing.
#[derive(Debug, Clone)]
pub struct CalculateSchema {
    pub income: Option<String>,
    pub income_type: Option<String>,
    pub currency: Option<String>,
    pub custom_tax: Option<String>,
    pub year: Option<String>,
}

/// A request that has passed validation.
#[derive(Debug, Clone, Copy, PartialEq, Eq)]
pub struct CalculationInput {
    /// The amount, in whole currency units.
    pub income: u32,
    pub income_type: IncomeType,
    pub currency: Currency,
    /// Carried along; no formula reads it.
    pub custom_tax: Option<u32>,
    /// The fiscal year asked for; the current year where none is given.
    pub year: Option<u32>,
}

/// The breakdown of one salary. Amounts are in hundredths of a currency unit,
/// percentages in hundredths of a percent, each rounded to the nearest hundredth.
#[derive(Debug, Clone, Copy, PartialEq, Eq)]
pub struct CalculationResults {
    /// Gross income.
    pub brute_income: u128,
    /// Income taken home.
    pub net_income: u128,
    /// Social security contribution.
    pub cas: u128,
    /// Health insurance contribution.
    pub cass: u128,
    /// Insurance contribution that the employer pays on top of the gross income.
    pub cam: u128,
    pub income_tax: u128,
    /// What the salary costs the employer: gross income and employer contribution.
    pub total_salary: u128,
    /// The share of the employer's cost that the employee takes home;
    /// `None` where that cost is zero and no share exists.
    pub employee_tax_percentage: Option<u32>,
    /// The share of the employer's cost that is withheld;
    /// `None` where that cost is zero and no share exists.
    pub state_tax_percentage: Option<u32>,
}

impl Default for CalculationResults {
    /// The breakdown in which every amount and both percentages are zero.
    fn default() -> (r: Self)
        ensures
            r == (CalculationResults {
                brute_income: 0,
                net_income: 0,
                cas: 0,
                cass: 0,
                cam: 0,
                income_tax: 0,
                total_salary: 0,
                employee_tax_percentage: Some(0u32),
                state_tax_percentage: Some(0u32),
            }),
    {
        CalculationResults {
            brute_income: 0,
            net_income: 0,
            cas: 0,
            cass: 0,
            cam: 0,
            income_tax: 0,
            total_salary: 0,
            employee_tax_percentage: Some(0),
            state_tax_percentage: Some(0),
        }
    }
}

} // verus!
