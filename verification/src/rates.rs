//! Tax rate schedules, one for each fiscal year.

use vstd::prelude::*;

verus! {

/// A rate counts parts of `RATE_SCALE`: the rate 0.25 is held as 250 000.
pub const RATE_SCALE: u32 = 1_000_000;

/// The rates of one fiscal year, each in parts of [`RATE_SCALE`].
#[derive(Debug, Clone, Copy, PartialEq, Eq)]
pub struct TaxRates {
    pub year: i32,
    pub income_tax: u32,
    pub social_security: u32,
    pub health_insurance: u32,
    /// What the employer pays on top of the gross income.
    pub insurance_contribution: u32,
}

impl TaxRates {
    /// Every rate is a fraction below one, and social security and health
    /// insurance together leave a part of the gross income untouched.
    pub open spec fn wf(&self) -> bool {
        &&& self.income_tax < RATE_SCALE
        &&& self.social_security < RATE_SCALE
        &&& self.health_insurance < RATE_SCALE
        &&& self.insurance_contribution < RATE_SCALE
        &&& self.social_security + self.health_insurance < RATE_SCALE
    }

    /// Tells whether the schedule is well formed.
    pub fn is_valid(&self) -> (b: bool)
        ensures
            b == self.wf(),
    {
        self.income_tax < RATE_SCALE && self.social_security < RATE_SCALE
            && self.health_insurance < RATE_SCALE && self.insurance_contribution < RATE_SCALE
            && self.social_security < RATE_SCALE - self.health_insurance
    }
}

/// Why no rates could be had for a year.
#[derive(Debug, Clone, PartialEq, Eq)]
pub enum TaxRateError {
    /// The table holds no schedule for the year.
    NotFound,
    /// The store that keeps the table failed; what it reported.
    DatabaseError(String),
}

/// A [`TaxRateError`] with its text as a sequence of characters.
pub enum TaxRateErrorView {
    NotFound,
    DatabaseError(Seq<char>),
}

impl View for TaxRateError {
    type V = TaxRateErrorView;

    open spec fn view(&self) -> TaxRateErrorView {
        match self {
            TaxRateError::NotFound => TaxRateErrorView::NotFound,
            TaxRateError::DatabaseError(report) => TaxRateErrorView::DatabaseError(report@),
        }
    }
}

impl TaxRateErrorView {
    /// The message of the error.
    pub open spec fn message(self) -> Seq<char> {
        match self {
            TaxRateErrorView::NotFound => "Tax rates not found for the specified year."@,
            TaxRateErrorView::DatabaseError(report) => "Database error: "@ + report,
        }
    }
}

impl TaxRateError {
    /// The message of the error.
    pub fn message(&self) -> (message: String)
        ensures
            message@ == self@.message(),
    {
        match self {
            TaxRateError::NotFound => String::from_str(
                "Tax rates not found for the specified year.",
            ),
            TaxRateError::DatabaseError(report) => {
                let mut message = String::from_str("Database error: ");
                message.append(report.as_str());
                message
            },
        }
    }
}

/// The schedules of a sequence of rows, each under its year.
pub open spec fn schedules_of(rows: Seq<TaxRates>) -> Map<int, TaxRates> {
    Map::new(
        |year: int| exists|i: int| 0 <= i < rows.len() && #[trigger] rows[i].year == year,
        |year: int| rows[choose|i: int| 0 <= i < rows.len() && #[trigger] rows[i].year == year],
    )
}

/// The rate schedules that are known, at most one for a year, each well formed.
#[derive(Debug)]
pub struct RateTable {
    rows: Vec<TaxRates>,
}

impl View for RateTable {
    type V = Map<int, TaxRates>;

    /// The schedules of the table, each under its year.
    closed spec fn view(&self) -> Map<int, TaxRates> {
        schedules_of(self.rows@)
    }
}

impl RateTable {
    #[verifier::type_invariant]
    spec fn well_formed(&self) -> bool {
        &&& forall|i: int| 0 <= i < self.rows@.len() ==> (#[trigger] self.rows@[i]).wf()
        &&& forall|i: int, j: int|
            0 <= i < j < self.rows@.len() ==> (#[trigger] self.rows@[i]).year != (
            #[trigger] self.rows@[j]).year
    }

    /// The table without any schedule.
    pub fn new() -> (table: RateTable)
        ensures
            table@ == Map::<int, TaxRates>::empty(),
    {
        let table = RateTable { rows: Vec::new() };
        assert(table@ =~= Map::<int, TaxRates>::empty());
        table
    }

    /// Looks up the schedule of `year`. What is found is well formed and is the
    /// schedule of that year.
    pub fn get(&self, year: i64) -> (found: Option<TaxRates>)
        ensures
            found == if self@.contains_key(year as int) {
                Some(self@[year as int])
            } else {
                None::<TaxRates>
            },
            found matches Some(rates) ==> rates.wf() && rates.year == year,
    {
        proof {
            use_type_invariant(self);
        }
        let mut i: usize = 0;
        while i < self.rows.len()
            invariant
                self.well_formed(),
                i <= self.rows@.len(),
                forall|j: int| 0 <= j < i ==> (#[trigger] self.rows@[j]).year != year,
            decreases self.rows@.len() - i,
        {
            if self.rows[i].year as i64 == year {
                proof {
                    let k = choose|k: int|
                        0 <= k < self.rows@.len() && #[trigger] self.rows@[k].year == year;
                    assert(k == i) by {
                        if k < i {
                            assert(self.rows@[k].year != self.rows@[i as int].year);
                        } else if k > i {
                            assert(self.rows@[i as int].year != self.rows@[k].year);
                        }
                    }
                }
                return Some(self.rows[i]);
            }
            i += 1;
        }
        None
    }

    /// Adds a schedule, unless it is not well formed or its year has one already:
    /// the schedule that a year has is never replaced. Tells whether it was added.
    pub fn insert(&mut self, rates: TaxRates) -> (added: bool)
        ensures
            added == (rates.wf() && !old(self)@.contains_key(rates.year as int)),
            final(self)@ == if added {
                old(self)@.insert(rates.year as int, rates)
            } else {
                old(self)@
            },
    {
        proof {
            use_type_invariant(&*self);
        }
        if !rates.is_valid() {
            return false;
        }
        if self.get(rates.year as i64).is_some() {
            return false;
        }
        let ghost before = self.rows@;
        let mut rows: Vec<TaxRates> = Vec::new();
        core::mem::swap(&mut rows, &mut self.rows);
        rows.push(rates);
        self.rows = rows;
        proof {
            let after = self.rows@;
            assert forall|i: int| 0 <= i < before.len() implies #[trigger] before[i].year
                != rates.year by {
                if before[i].year == rates.year {
                    assert(schedules_of(before).contains_key(rates.year as int));
                }
            }
            assert forall|year: int|
                schedules_of(after).contains_key(year) <==> schedules_of(before).insert(
                    rates.year as int,
                    rates,
                ).contains_key(year) by {
                if schedules_of(after).contains_key(year) {
                    let i = choose|i: int| 0 <= i < after.len() && #[trigger] after[i].year == year;
                    if i < before.len() {
                        assert(before[i].year == year);
                    }
                }
                if schedules_of(before).contains_key(year) {
                    let i = choose|i: int|
                        0 <= i < before.len() && #[trigger] before[i].year == year;
                    assert(after[i].year == year);
                }
                if year == rates.year {
                    assert(after[before.len() as int].year == year);
                }
            }
            assert forall|year: int| schedules_of(after).contains_key(year) implies schedules_of(
                after,
            )[year] == schedules_of(before).insert(rates.year as int, rates)[year] by {
                let i = choose|i: int| 0 <= i < after.len() && #[trigger] after[i].year == year;
                if year == rates.year {
                    if i < before.len() {
                        assert(before[i].year == rates.year);
                    }
                } else {
                    assert(i < before.len());
                    let j = choose|j: int|
                        0 <= j < before.len() && #[trigger] before[j].year == year;
                    assert(before[i].year == year);
                    if i < j {
                        assert(before[i].year != before[j].year);
                    } else if j < i {
                        assert(before[j].year != before[i].year);
                    }
                }
            }
            assert(schedules_of(after) =~= schedules_of(before).insert(rates.year as int, rates));
        }
        true
    }
}

/// Looks up the schedule of `year` in `table`.
pub fn get_tax_rates(table: &RateTable, year: u32) -> (r: Result<TaxRates, TaxRateError>)
    ensures
        match r {
            Ok(rates) => table@.contains_key(year as int) && rates == table@[year as int]
                && rates.wf() && rates.year == year,
            Err(error) => error == TaxRateError::NotFound && !table@.contains_key(year as int),
        },
{
    match table.get(year as i64) {
        Some(rates) => Ok(rates),
        None => Err(TaxRateError::NotFound),
    }
}

} // verus!
