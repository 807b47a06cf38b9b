//! Validation of a request: from text fields to a well-formed calculation input.

use vstd::prelude::*;
use crate::models::{CalculateSchema, CalculationInput, Currency, IncomeType};
use crate::text::{chars_of, parse_u32, parsed_u32, trim, trimmed};

verus! {

/// Why a request was turned down.
#[derive(Debug, Clone, PartialEq, Eq)]
pub enum ValidationError {
    /// The income is missing, or is not a whole number from zero up.
    InvalidIncome,
    /// The kind of income is none of the known ones; the field as it was sent.
    UnsupportedIncomeType(String),
    /// The currency is none of the known ones; the field as it was sent.
    UnsupportedCurrency(String),
}

/// A [`ValidationError`] with its text as a sequence of characters.
pub enum ValidationErrorView {
    InvalidIncome,
    UnsupportedIncomeType(Seq<char>),
    UnsupportedCurrency(Seq<char>),
}

impl View for ValidationError {
    type V = ValidationErrorView;

    open spec fn view(&self) -> ValidationErrorView {
        match self {
            ValidationError::InvalidIncome => ValidationErrorView::InvalidIncome,
            ValidationError::UnsupportedIncomeType(raw) => ValidationErrorView::UnsupportedIncomeType(
                raw@,
            ),
            ValidationError::UnsupportedCurrency(raw) => ValidationErrorView::UnsupportedCurrency(
                raw@,
            ),
        }
    }
}

/// The text of a field; a missing field has the empty text.
pub open spec fn text_of(field: Option<String>) -> Seq<char> {
    match field {
        Some(text) => text@,
        None => Seq::empty(),
    }
}

/// The number that a field holds, white space around it set aside.
pub open spec fn number_in(field: Option<String>) -> Option<u32> {
    parsed_u32(trimmed(text_of(field)))
}

/// What validation makes of a request. The income is looked at first, then the
/// kind of income, then the currency, and the first of them that fails decides
/// the error. The two optional numbers never fail a request: one that cannot be
/// read counts as not given.
pub open spec fn validated(data: CalculateSchema) -> Result<CalculationInput, ValidationErrorView> {
    match number_in(data.income) {
        None => Err(ValidationErrorView::InvalidIncome),
        Some(income) => match IncomeType::named_by(text_of(data.income_type)) {
            None => Err(ValidationErrorView::UnsupportedIncomeType(text_of(data.income_type))),
            Some(income_type) => match Currency::named_by(text_of(data.currency)) {
                None => Err(ValidationErrorView::UnsupportedCurrency(text_of(data.currency))),
                Some(currency) => Ok(
                    CalculationInput {
                        income,
                        income_type,
                        currency,
                        custom_tax: number_in(data.custom_tax),
                        year: number_in(data.year),
                    },
                ),
            },
        },
    }
}

/// The text of a field, the empty text where the field is missing.
pub fn field_text(field: &Option<String>) -> (text: &str)
    ensures
        text@ == text_of(*field),
{
    match field {
        Some(text) => text.as_str(),
        None => {
            proof {
                reveal_strlit("");
            }
            ""
        },
    }
}

/// Reads the number in a field, white space around it set aside.
pub fn field_number(field: &Option<String>) -> (r: Option<u32>)
    ensures
        r == number_in(*field),
{
    parse_u32(&trim(&chars_of(field_text(field))))
}

/// Checks a request field by field and gives the calculation input it stands for,
/// or the first error found.
pub fn validate_calculate_input(data: &CalculateSchema) -> (r: Result<
    CalculationInput,
    ValidationError,
>)
    ensures
        match r {
            Ok(input) => validated(*data) == Ok::<CalculationInput, ValidationErrorView>(input),
            Err(error) => validated(*data) == Err::<CalculationInput, ValidationErrorView>(error@),
        },
        r is Ok <==> number_in(data.income) is Some && IncomeType::named_by(
            text_of(data.income_type),
        ) is Some && Currency::named_by(text_of(data.currency)) is Some,
        number_in(data.income) is None ==> r matches Err(ValidationError::InvalidIncome),
{
    let income = match field_number(&data.income) {
        Some(income) => income,
        None => {
            return Err(ValidationError::InvalidIncome);
        },
    };
    let raw_income_type = field_text(&data.income_type);
    let income_type = match IncomeType::from_str(raw_income_type) {
        Some(income_type) => income_type,
        None => {
            return Err(ValidationError::UnsupportedIncomeType(String::from_str(raw_income_type)));
        },
    };
    let raw_currency = field_text(&data.currency);
    let currency = match Currency::from_str(raw_currency) {
        Some(currency) => currency,
        None => {
            return Err(ValidationError::UnsupportedCurrency(String::from_str(raw_currency)));
        },
    };
    let custom_tax = field_number(&data.custom_tax);
    let year = field_number(&data.year);
    Ok(CalculationInput { income, income_type, currency, custom_tax, year })
}

/// The text that Rust's `Debug` formatting of `str` writes for `text`: the text
/// between double quotes, with the characters that need it written as escapes.
pub uninterp spec fn debug_quoted(text: Seq<char>) -> Seq<char>;

/// Formats `text` with `format!("{:?}", ..)`, that is with `<str as Debug>::fmt` of
/// the standard library.
///
/// Trusted: the result is called `debug_quoted(text@)`, which says only that the
/// same text is always written the same way.
#[verifier::external_body]
fn quote(text: &str) -> (quoted: String)
    ensures
        quoted@ == debug_quoted(text@),
{
    format!("{:?}", text)
}

/// The message for a kind of income that is not known, around the quoted field.
pub open spec fn unsupported_income_type_text(quoted: Seq<char>) -> Seq<char> {
    "Unsupported income type "@ + quoted + "."@
}

/// The message for a currency that is not known, around the quoted field.
pub open spec fn unsupported_currency_text(quoted: Seq<char>) -> Seq<char> {
    "Currency "@ + quoted + " not supported."@
}

/// Writes the message for a kind of income that is not known. `quoted` is the
/// field as it was sent, already between quotes.
pub fn unsupported_income_type_message(quoted: &str) -> (message: String)
    ensures
        message@ == unsupported_income_type_text(quoted@),
{
    let mut message = String::from_str("Unsupported income type ");
    message.append(quoted);
    message.append(".");
    message
}

/// Writes the message for a currency that is not known. `quoted` is the field as
/// it was sent, already between quotes.
pub fn unsupported_currency_message(quoted: &str) -> (message: String)
    ensures
        message@ == unsupported_currency_text(quoted@),
{
    let mut message = String::from_str("Currency ");
    message.append(quoted);
    message.append(" not supported.");
    message
}

impl ValidationErrorView {
    /// The message of the error. It repeats the field that was turned down,
    /// quoted as [`debug_quoted`] has it.
    pub open spec fn message(self) -> Seq<char> {
        match self {
            ValidationErrorView::InvalidIncome => "Invalid or missing income."@,
            ValidationErrorView::UnsupportedIncomeType(raw) => unsupported_income_type_text(
                debug_quoted(raw),
            ),
            ValidationErrorView::UnsupportedCurrency(raw) => unsupported_currency_text(
                debug_quoted(raw),
            ),
        }
    }
}

impl ValidationError {
    /// The message of the error, for the one who sent the request.
    pub fn message(&self) -> (message: String)
        ensures
            message@ == self@.message(),
    {
        match self {
            ValidationError::InvalidIncome => String::from_str("Invalid or missing income."),
            ValidationError::UnsupportedIncomeType(raw) => {
                let quoted = quote(raw.as_str());
                unsupported_income_type_message(quoted.as_str())
            },
            ValidationError::UnsupportedCurrency(raw) => {
                let quoted = quote(raw.as_str());
                unsupported_currency_message(quoted.as_str())
            },
        }
    }
}

/// A request whose income cannot be read is turned down for its income, whatever
/// its other fields hold.
pub proof fn lemma_income_is_checked_first(data: CalculateSchema)
    requires
        number_in(data.income) is None,
    ensures
        validated(data) == Err::<CalculationInput, ValidationErrorView>(
            ValidationErrorView::InvalidIncome,
        ),
{
}

/// A request whose income can be read and whose kind of income is not known is
/// turned down for the kind of income, whatever its currency.
pub proof fn lemma_income_type_is_checked_second(data: CalculateSchema)
    requires
        number_in(data.income) is Some,
        IncomeType::named_by(text_of(data.income_type)) is None,
    ensures
        validated(data) == Err::<CalculationInput, ValidationErrorView>(
            ValidationErrorView::UnsupportedIncomeType(text_of(data.income_type)),
        ),
{
}

/// A request passes validation exactly when its income can be read and its kind
/// of income and its currency are known. The two optional numbers have no say.
pub proof fn lemma_validation_succeeds_when(data: CalculateSchema)
    ensures
        validated(data) is Ok <==> number_in(data.income) is Some && IncomeType::named_by(
            text_of(data.income_type),
        ) is Some && Currency::named_by(text_of(data.currency)) is Some,
{
}

} // verus!
