//! What holds of every breakdown, proved from the definitions in [`crate::engine`].

use vstd::prelude::*;
use vstd::arithmetic::div_mod::{lemma_fundamental_div_mod, lemma_fundamental_div_mod_converse_mod};
use crate::engine::{breakdown, exact_breakdown, net_share, scale};
use crate::models::IncomeType;
use crate::rates::TaxRates;
use crate::rounding::{
    lemma_round_half_up_bounds,
    lemma_round_half_up_monotonic,
    lemma_round_half_up_unique,
    round_half_up,
};

verus! {

/// The part of the gross income that is taken home is more than nothing and no
/// more than all of it.
pub proof fn lemma_net_share_range(rates: TaxRates)
    requires
        rates.wf(),
    ensures
        0 < net_share(rates) <= scale() * scale(),
{
    let taxable = scale() - rates.social_security - rates.health_insurance;
    let kept = scale() - rates.income_tax;
    assert(0 < taxable * kept <= 1_000_000 * 1_000_000) by (nonlinear_arith)
        requires
            0 < taxable <= 1_000_000,
            0 < kept <= 1_000_000,
    ;
}

/// The exact quantities obey the formulas of the calculation, for net and for
/// gross income alike: social security, health insurance and the employer's
/// contribution are the gross income times their rates; income tax is its rate
/// times what the first two leave of the gross income; the net income is what is
/// left after all three deductions; the employer's cost is the gross income and the
/// employer's contribution. The amount given is the gross quantity for gross
/// income and the net quantity for net income, and the gross income is the net
/// income divided by the part that is taken home.
pub proof fn lemma_exact_breakdown_formulas(amount: int, income_type: IncomeType, rates: TaxRates)
    requires
        rates.wf(),
    ensures
        ({
            let x = exact_breakdown(amount, income_type, rates);
            &&& x.denominator > 0
            &&& x.cas * scale() == x.gross * rates.social_security
            &&& x.cass * scale() == x.gross * rates.health_insurance
            &&& x.income_tax * scale() == (x.gross - x.cas - x.cass) * rates.income_tax
            &&& x.net == x.gross - x.cas - x.cass - x.income_tax
            &&& x.cam * scale() == x.gross * rates.insurance_contribution
            &&& x.total == x.gross + x.cam
            &&& income_type == IncomeType::BRUTE ==> x.gross == amount * x.denominator
            &&& income_type == IncomeType::NET ==> x.net == amount * x.denominator
            &&& x.gross * net_share(rates) == x.net * (scale() * scale())
        }),
{
    lemma_net_share_range(rates);
    let x = exact_breakdown(amount, income_type, rates);
    let d = scale();
    let s = rates.social_security as int;
    let h = rates.health_insurance as int;
    let t = rates.income_tax as int;
    let c = rates.insurance_contribution as int;
    let q = net_share(rates);
    assert(x.cas * d == x.gross * s) by (nonlinear_arith)
        requires
            x.cas == amount * s * d,
            x.gross == amount * d * d,
    ;
    assert(x.cass * d == x.gross * h) by (nonlinear_arith)
        requires
            x.cass == amount * h * d,
            x.gross == amount * d * d,
    ;
    assert(x.cam * d == x.gross * c) by (nonlinear_arith)
        requires
            x.cam == amount * c * d,
            x.gross == amount * d * d,
    ;
    assert(x.total == x.gross + x.cam) by (nonlinear_arith)
        requires
            x.total == amount * (d + c) * d,
            x.cam == amount * c * d,
            x.gross == amount * d * d,
    ;
    assert(x.gross - x.cas - x.cass == amount * (d - s - h) * d) by (nonlinear_arith)
        requires
            x.cas == amount * s * d,
            x.cass == amount * h * d,
            x.gross == amount * d * d,
    ;
    assert(x.income_tax * d == (x.gross - x.cas - x.cass) * t) by (nonlinear_arith)
        requires
            x.income_tax == amount * (d - s - h) * t,
            x.gross - x.cas - x.cass == amount * (d - s - h) * d,
    ;
    assert(x.net == x.gross - x.cas - x.cass - x.income_tax) by (nonlinear_arith)
        requires
            x.net == amount * q,
            q == (d - s - h) * (d - t),
            x.income_tax == amount * (d - s - h) * t,
            x.gross - x.cas - x.cass == amount * (d - s - h) * d,
    ;
    assert(x.gross == amount * (d * d)) by (nonlinear_arith)
        requires
            x.gross == amount * d * d,
    ;
    assert(x.gross * q == x.net * (d * d)) by (nonlinear_arith)
        requires
            x.gross == amount * d * d,
            x.net == amount * q,
    ;
}

/// Both percentages are reported exactly when the income is more than nothing.
/// They then add up to the whole, but for one case: where the exact shares end in
/// half a hundredth of a percent, both halves are rounded up and the sum is one
/// hundredth of a percent more.
pub proof fn lemma_percentages_sum_to_whole(amount: int, income_type: IncomeType, rates: TaxRates)
    requires
        rates.wf(),
        amount >= 0,
    ensures
        ({
            let b = breakdown(amount, income_type, rates);
            &&& amount == 0 ==> b.employee_tax_percentage is None && b.state_tax_percentage is None
            &&& amount > 0 ==> b.employee_tax_percentage is Some && b.state_tax_percentage is Some
            &&& amount > 0 ==> {
                let employee = b.employee_tax_percentage->0;
                let state = b.state_tax_percentage->0;
                &&& 0 <= employee <= 10_000
                &&& 0 <= state <= 10_000
                &&& employee + state == 10_000 || employee + state == 10_001
                &&& employee + state == 10_001 <==> {
                    let exact = exact_breakdown(amount, income_type, rates);
                    (20_000 * exact.net) % (2 * exact.total) == exact.total
                }
            }
        }),
{
    lemma_net_share_range(rates);
    let x = exact_breakdown(amount, income_type, rates);
    let d = scale();
    let c = rates.insurance_contribution as int;
    let q = net_share(rates);
    if amount == 0 {
        assert(x.total == 0) by (nonlinear_arith)
            requires
                x.total == amount * (d + c) * d,
                amount == 0,
        ;
    } else {
        assert(x.total > 0 && 0 <= x.net <= x.total) by (nonlinear_arith)
            requires
                x.total == amount * (d + c) * d,
                x.net == amount * q,
                amount > 0,
                d > 0,
                c >= 0,
                0 < q <= d * d,
        ;
        let employee = round_half_up(10_000 * x.net, x.total);
        let state = round_half_up(10_000 * (x.total - x.net), x.total);
        lemma_round_half_up_bounds(10_000 * x.net, x.total);
        lemma_round_half_up_bounds(10_000 * (x.total - x.net), x.total);
        let total = x.total;
        let net = x.net;
        assert(employee + state == 10_000 || employee + state == 10_001) by (nonlinear_arith)
            requires
                total > 0,
                2 * total * employee <= 2 * (10_000 * net) + total,
                2 * (10_000 * net) + total < 2 * total * employee + 2 * total,
                2 * total * state <= 2 * (10_000 * (total - net)) + total,
                2 * (10_000 * (total - net)) + total < 2 * total * state + 2 * total,
        ;
        assert(employee <= 10_000 && state <= 10_000) by (nonlinear_arith)
            requires
                total > 0,
                0 <= net <= total,
                2 * total * employee <= 2 * (10_000 * net) + total,
                2 * total * state <= 2 * (10_000 * (total - net)) + total,
        ;
        let remainder = (20_000 * net) % (2 * total);
        lemma_fundamental_div_mod(20_000 * net, 2 * total);
        if employee + state == 10_001 {
            assert(20_000 * net == (employee - 1) * (2 * total) + total) by (nonlinear_arith)
                requires
                    total > 0,
                    employee + state == 10_001,
                    2 * total * employee <= 2 * (10_000 * net) + total,
                    2 * total * state <= 2 * (10_000 * (total - net)) + total,
            ;
            lemma_fundamental_div_mod_converse_mod(20_000 * net, 2 * total, employee - 1, total);
        }
        if remainder == total {
            let quotient = (20_000 * net) / (2 * total);
            assert(2 * total * (quotient + 1) <= 2 * (10_000 * net) + total && 2 * (10_000 * net)
                + total < 2 * total * (quotient + 1) + 2 * total) by (nonlinear_arith)
                requires
                    total > 0,
                    20_000 * net == (2 * total) * quotient + total,
            ;
            lemma_round_half_up_unique(10_000 * net, total, quotient + 1);
            assert(2 * total * (10_000 - quotient) <= 2 * (10_000 * (total - net)) + total && 2 * (
            10_000 * (total - net)) + total < 2 * total * (10_000 - quotient) + 2 * total)
                by (nonlinear_arith)
                requires
                    total > 0,
                    20_000 * net == (2 * total) * quotient + total,
            ;
            lemma_round_half_up_unique(10_000 * (total - net), total, 10_000 - quotient);
        }
    }
}

/// Before rounding, more gross income means strictly more net income.
pub proof fn lemma_exact_net_strictly_monotonic(gross1: int, gross2: int, rates: TaxRates)
    requires
        rates.wf(),
        0 <= gross1 < gross2,
    ensures
        exact_breakdown(gross1, IncomeType::BRUTE, rates).denominator == exact_breakdown(
            gross2,
            IncomeType::BRUTE,
            rates,
        ).denominator,
        exact_breakdown(gross1, IncomeType::BRUTE, rates).net < exact_breakdown(
            gross2,
            IncomeType::BRUTE,
            rates,
        ).net,
{
    lemma_net_share_range(rates);
    let q = net_share(rates);
    assert(gross1 * q < gross2 * q) by (nonlinear_arith)
        requires
            gross1 < gross2,
            q > 0,
    ;
}

/// As reported, more gross income never means less net income, and it means
/// strictly more wherever the exact net incomes lie a hundredth or more apart.
pub proof fn lemma_net_monotonic(gross1: int, gross2: int, rates: TaxRates)
    requires
        rates.wf(),
        0 <= gross1 < gross2,
    ensures
        breakdown(gross1, IncomeType::BRUTE, rates).net_income <= breakdown(
            gross2,
            IncomeType::BRUTE,
            rates,
        ).net_income,
        (gross2 - gross1) * net_share(rates) >= scale() * scale() ==> breakdown(
            gross1,
            IncomeType::BRUTE,
            rates,
        ).net_income < breakdown(gross2, IncomeType::BRUTE, rates).net_income,
{
    lemma_net_share_range(rates);
    lemma_exact_net_strictly_monotonic(gross1, gross2, rates);
    let q = net_share(rates);
    let dd = scale() * scale();
    let n1 = gross1 * q;
    let n2 = gross2 * q;
    assert(n1 >= 0) by (nonlinear_arith)
        requires
            n1 == gross1 * q,
            gross1 >= 0,
            q > 0,
    ;
    lemma_round_half_up_monotonic(n1, n2, dd);
    if (gross2 - gross1) * q >= dd {
        let r1 = round_half_up(n1, dd);
        let r2 = round_half_up(n2, dd);
        lemma_round_half_up_bounds(n1, dd);
        lemma_round_half_up_bounds(n2, dd);
        assert(n2 - n1 >= dd) by (nonlinear_arith)
            requires
                (gross2 - gross1) * q >= dd,
                n1 == gross1 * q,
                n2 == gross2 * q,
        ;
        assert(r1 < r2) by (nonlinear_arith)
            requires
                dd > 0,
                n2 - n1 >= dd,
                2 * dd * r1 <= 2 * n1 + dd,
                2 * n2 + dd < 2 * dd * r2 + 2 * dd,
        ;
    }
}

/// The gross income worked out for a net income gives back exactly that net
/// income when it is put through the calculation as gross income.
pub proof fn lemma_net_round_trip(net: int, rates: TaxRates)
    requires
        rates.wf(),
        net >= 0,
    ensures
        breakdown(net, IncomeType::NET, rates).brute_income >= 0,
        breakdown(
            breakdown(net, IncomeType::NET, rates).brute_income,
            IncomeType::BRUTE,
            rates,
        ).net_income == net,
{
    lemma_net_share_range(rates);
    let q = net_share(rates);
    let dd = scale() * scale();
    let gross_num = net * scale() * scale();
    assert(gross_num == net * dd && gross_num >= 0) by (nonlinear_arith)
        requires
            gross_num == net * scale() * scale(),
            dd == scale() * scale(),
            net >= 0,
            dd > 0,
    ;
    let gross = round_half_up(gross_num, q);
    lemma_round_half_up_bounds(gross_num, q);
    let back_num = gross * q;
    assert(2 * dd * net <= 2 * back_num + dd && 2 * back_num + dd < 2 * dd * net + 2 * dd)
        by (nonlinear_arith)
        requires
            0 < q <= dd,
            gross_num == net * dd,
            back_num == gross * q,
            2 * q * gross <= 2 * gross_num + q,
            2 * gross_num + q < 2 * q * gross + 2 * q,
    ;
    lemma_round_half_up_unique(back_num, dd, net);
}

/// The net income worked out for a gross income leads back to that gross income
/// as nearly as the rounding of the net income lets it: the two differ by no more
/// than `1/2 + 1/(2 * share)` hundredths, where `share` is the part of the gross
/// income that is taken home.
pub proof fn lemma_gross_round_trip_bound(gross: int, rates: TaxRates)
    requires
        rates.wf(),
        gross >= 0,
    ensures
        ({
            let net = breakdown(gross, IncomeType::BRUTE, rates).net_income;
            let back = breakdown(net, IncomeType::NET, rates).brute_income;
            &&& net >= 0
            &&& back >= 0
            &&& 2 * net_share(rates) * (back - gross) <= scale() * scale() + net_share(rates)
            &&& 2 * net_share(rates) * (gross - back) < scale() * scale() + net_share(rates)
        }),
{
    lemma_net_share_range(rates);
    let q = net_share(rates);
    let dd = scale() * scale();
    let net_num = gross * q;
    assert(net_num >= 0) by (nonlinear_arith)
        requires
            net_num == gross * q,
            gross >= 0,
            q > 0,
    ;
    let net = round_half_up(net_num, dd);
    lemma_round_half_up_bounds(net_num, dd);
    let back_num = net * scale() * scale();
    assert(back_num == net * dd && back_num >= 0) by (nonlinear_arith)
        requires
            back_num == net * scale() * scale(),
            dd == scale() * scale(),
            net >= 0,
            dd > 0,
    ;
    let back = round_half_up(back_num, q);
    lemma_round_half_up_bounds(back_num, q);
    assert(2 * q * (back - gross) <= dd + q && 2 * q * (gross - back) < dd + q)
        by (nonlinear_arith)
        requires
            net_num == gross * q,
            back_num == net * dd,
            2 * dd * net <= 2 * net_num + dd,
            2 * net_num + dd < 2 * dd * net + 2 * dd,
            2 * q * back <= 2 * back_num + q,
            2 * back_num + q < 2 * q * back + 2 * q,
    ;
}

/// Where more than a third of the gross income is taken home, the net income
/// worked out for a gross income leads back to that gross income to within one
/// hundredth.
pub proof fn lemma_gross_round_trip(gross: int, rates: TaxRates)
    requires
        rates.wf(),
        gross >= 0,
        3 * net_share(rates) > scale() * scale(),
    ensures
        ({
            let net = breakdown(gross, IncomeType::BRUTE, rates).net_income;
            let back = breakdown(net, IncomeType::NET, rates).brute_income;
            gross - 1 <= back <= gross + 1
        }),
{
    lemma_gross_round_trip_bound(gross, rates);
    let q = net_share(rates);
    let dd = scale() * scale();
    let net = breakdown(gross, IncomeType::BRUTE, rates).net_income;
    let back = breakdown(net, IncomeType::NET, rates).brute_income;
    assert(gross - 1 <= back <= gross + 1) by (nonlinear_arith)
        requires
            q > 0,
            3 * q > dd,
            2 * q * (back - gross) <= dd + q,
            2 * q * (gross - back) < dd + q,
    ;
}

/// Where the net income of a gross income needs no rounding, it leads back to
/// exactly that gross income.
pub proof fn lemma_gross_round_trip_exact(gross: int, rates: TaxRates)
    requires
        rates.wf(),
        gross >= 0,
        (gross * net_share(rates)) % (scale() * scale()) == 0,
    ensures
        ({
            let net = breakdown(gross, IncomeType::BRUTE, rates).net_income;
            breakdown(net, IncomeType::NET, rates).brute_income == gross
        }),
{
    lemma_net_share_range(rates);
    let q = net_share(rates);
    let dd = scale() * scale();
    let net_num = gross * q;
    let exact_net = net_num / dd;
    lemma_fundamental_div_mod(net_num, dd);
    assert(2 * dd * exact_net <= 2 * net_num + dd && 2 * net_num + dd < 2 * dd * exact_net + 2
        * dd) by (nonlinear_arith)
        requires
            net_num == dd * exact_net,
            dd > 0,
    ;
    lemma_round_half_up_unique(net_num, dd, exact_net);
    let net = round_half_up(net_num, dd);
    assert(net == exact_net);
    let back_num = net * scale() * scale();
    assert(back_num == gross * q) by (nonlinear_arith)
        requires
            back_num == net * scale() * scale(),
            dd == scale() * scale(),
            gross * q == dd * net,
    ;
    assert(2 * q * gross <= 2 * back_num + q && 2 * back_num + q < 2 * q * gross + 2 * q)
        by (nonlinear_arith)
        requires
            back_num == gross * q,
            q > 0,
    ;
    lemma_round_half_up_unique(back_num, q, gross);
}

} // verus!
