//! Payroll tax calculation: from a salary, given as gross or as net income, and
//! the tax rates of a year to the full breakdown of deductions.
//!
//! All arithmetic is exact. Amounts are counted in hundredths of a currency unit,
//! rates in millionths, percentages in hundredths of a percent; a quantity is
//! rounded once, when it is reported, and a half is rounded up.
//!
//! - [`validators`] turns the text fields of a request into a calculation input.
//! - [`engine`] works out the breakdown; [`laws`] holds what is proved of it.
//! - [`rates`] holds the rate schedules by year, [`seed`] the schedules that a new
//!   store starts with, [`taxes`] the rates as they are shown.
//! - [`rounding`] and [`text`] hold the arithmetic and the text handling that the
//!   others rest on, [`clock`] the reading of the current year.

pub mod clock;
pub mod engine;
pub mod laws;
pub mod models;
pub mod rates;
pub mod rounding;
pub mod seed;
pub mod taxes;
pub mod text;
pub mod validators;
