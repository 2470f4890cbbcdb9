//! The projection calendar: how month indices map to policy months, policy
//! years, and anniversary months, and how long a projection runs.

use vstd::prelude::*;

verus! {

/// Age at which every policy matures.
pub const MATURITY_AGE: u8 = 121;

/// Upper bound on a projection's length in months: a policy issued at age 0
/// runs 121 years of 12 months.
pub const MAX_PROJECTION_MONTHS: usize = 1452;

/// Number of months a projection spans for the given issue age.
pub open spec fn spec_projection_months(issue_age: u8) -> int {
    12 * (121 - issue_age)
}

/// One-based policy year of month index `i`.
pub open spec fn spec_policy_year(i: int) -> int {
    i / 12 + 1
}

/// One-based month within the policy year of month index `i`.
pub open spec fn spec_month_in_year(i: int) -> int {
    (i + 11) % 12 + 1
}

/// Whether the annual premium is collected in month index `i`: it is due
/// only in anniversary months.
pub open spec fn spec_premium_due(i: int) -> bool {
    i % 12 == 0
}

/// Length of the illustration produced for a policy issued at `issue_age`.
pub fn projection_months(issue_age: u8) -> (n: usize)
    requires
        issue_age < MATURITY_AGE,
    ensures
        n == spec_projection_months(issue_age),
        0 < n <= MAX_PROJECTION_MONTHS,
        n % 12 == 0,
{
    let years = (121 - issue_age) as usize;
    proof {
        vstd::arithmetic::div_mod::lemma_mod_multiples_basic(years as int, 12);
    }
    12 * years
}

/// One-based policy year of month index `i`.
pub fn policy_year_of(i: usize) -> (py: usize)
    requires
        i < MAX_PROJECTION_MONTHS,
    ensures
        py == spec_policy_year(i as int),
        1 <= py <= 121,
{
    proof {
        assert(i as int / 12 < 121 && i as int / 12 >= 0) by (nonlinear_arith)
            requires
                0 <= i < 1452,
        ;
    }
    i / 12 + 1
}

/// One-based month within the policy year of month index `i`.
pub fn month_in_year_of(i: usize) -> (m: usize)
    ensures
        m == spec_month_in_year(i as int),
        1 <= m <= 12,
{
    let r = i % 12;
    let m = if r == 0 {
        12
    } else {
        r
    };
    proof {
        lemma_month_in_year_form(i as int);
    }
    m
}

/// Whether the annual premium is collected in month index `i`.
pub fn premium_due(i: usize) -> (due: bool)
    ensures
        due == spec_premium_due(i as int),
{
    i % 12 == 0
}

/// `(i + 11) % 12 + 1` is 12 in anniversary months and `i % 12` otherwise.
proof fn lemma_month_in_year_form(i: int)
    requires
        i >= 0,
    ensures
        spec_month_in_year(i) == if i % 12 == 0 {
            12int
        } else {
            i % 12
        },
{
    let r = i % 12;
    vstd::arithmetic::div_mod::lemma_mod_division_less_than_divisor(i, 12);
    vstd::arithmetic::div_mod::lemma_add_mod_noop(i, 11, 12);
    vstd::arithmetic::div_mod::lemma_small_mod(11nat, 12nat);
    if r == 0 {
        assert((i + 11) % 12 == 11);
    } else {
        vstd::arithmetic::div_mod::lemma_mod_add_multiples_vanish(r - 1, 12);
        vstd::arithmetic::div_mod::lemma_small_mod((r - 1) as nat, 12nat);
        assert((i + 11) % 12 == r - 1);
    }
}

} // verus!
