//! The monthly illustration and the verified roll-forward that assembles it.
//!
//! A projection is a strict left-to-right fold: one scalar state (the end
//! value of the previous month) is carried between iterations. The library
//! owns everything about that fold except the floating-point arithmetic: the
//! calendar columns, the choice of rates for the current policy year, the
//! premium collected only in anniversary months, the carry of each month's
//! end value into the next month's start value, and the placement of every
//! figure into its row. The caller computes the eight monetary figures of a
//! month from the inputs this module hands out, and pushes them back as f64
//! bit patterns.

use vstd::prelude::*;
use crate::bits::F64_POS_ZERO_BITS;
use crate::bits::f64_bits_nonneg;
use crate::errors::CurveKind;
use crate::errors::EngineError;
use crate::rates::CURVE_LEN;
use crate::rates::RateCurve;
use crate::rates::RateSet;
use crate::schedule::MATURITY_AGE;
use crate::schedule::month_in_year_of;
use crate::schedule::policy_year_of;
use crate::schedule::premium_due;
use crate::schedule::projection_months;
use crate::schedule::spec_month_in_year;
use crate::schedule::spec_policy_year;
use crate::schedule::spec_premium_due;
use crate::schedule::spec_projection_months;

verus! {

/// An ordered sequence of monthly ledger rows, stored by column. The calendar
/// columns are plain integers; the monetary columns hold f64 bit patterns.
pub struct Illustration {
    pub length: usize,
    pub policy_month: Vec<u16>,
    pub policy_year: Vec<u8>,
    pub month_in_policy_year: Vec<u8>,
    pub value_start: Vec<u64>,
    pub premium: Vec<u64>,
    pub premium_load: Vec<u64>,
    pub expense_charge: Vec<u64>,
    pub death_benefit: Vec<u64>,
    pub naar: Vec<u64>,
    pub coi_charge: Vec<u64>,
    pub interest: Vec<u64>,
    pub value_end: Vec<u64>,
}

impl Illustration {
    /// Every column has length `length`.
    pub open spec fn columns_len(&self) -> bool {
        &&& self.policy_month@.len() == self.length
        &&& self.policy_year@.len() == self.length
        &&& self.month_in_policy_year@.len() == self.length
        &&& self.value_start@.len() == self.length
        &&& self.premium@.len() == self.length
        &&& self.premium_load@.len() == self.length
        &&& self.expense_charge@.len() == self.length
        &&& self.death_benefit@.len() == self.length
        &&& self.naar@.len() == self.length
        &&& self.coi_charge@.len() == self.length
        &&& self.interest@.len() == self.length
        &&& self.value_end@.len() == self.length
    }

    /// The calendar columns of the first `upto` rows follow the schedule:
    /// row `i` is policy month `i + 1`, in policy year `i / 12 + 1`, at month
    /// `(i + 11) % 12 + 1` of that year.
    pub open spec fn schedule_ok(&self, upto: int) -> bool {
        forall|i: int|
            0 <= i < upto ==> {
                &&& (#[trigger] self.policy_month@[i]) == i + 1
                &&& self.policy_year@[i] == spec_policy_year(i)
                &&& self.month_in_policy_year@[i] == spec_month_in_year(i)
            }
    }

    /// The first `upto` rows chain: row 0 starts at zero, and every later row
    /// starts at exactly the bit pattern the previous row ended with.
    pub open spec fn chained(&self, upto: int) -> bool {
        &&& upto > 0 ==> self.value_start@[0] == F64_POS_ZERO_BITS
        &&& forall|i: int|
            1 <= i < upto ==> (#[trigger] self.value_start@[i]) == self.value_end@[i - 1]
    }

    /// The first `upto` rows collect the annual premium exactly in
    /// anniversary months and nothing in any other month.
    pub open spec fn premium_schedule_ok(&self, annual_premium_bits: u64, upto: int) -> bool {
        forall|i: int|
            0 <= i < upto ==> (#[trigger] self.premium@[i]) == if spec_premium_due(i) {
                annual_premium_bits
            } else {
                F64_POS_ZERO_BITS
            }
    }

    /// The net amount at risk and the interest credit of the first `upto`
    /// rows are non-negative: both are floored at zero by the recurrence.
    pub open spec fn floors_ok(&self, upto: int) -> bool {
        forall|i: int|
            0 <= i < upto ==> f64_bits_nonneg(#[trigger] self.naar@[i]) && f64_bits_nonneg(
                self.interest@[i],
            )
    }
}

/// Creates an illustration of `length` rows with every cell zeroed.
pub fn new_illustration(length: usize) -> (ill: Illustration)
    ensures
        ill.length == length,
        ill.columns_len(),
        forall|i: int| 0 <= i < length ==> (#[trigger] ill.policy_month@[i]) == 0,
        forall|i: int| 0 <= i < length ==> (#[trigger] ill.policy_year@[i]) == 0,
        forall|i: int| 0 <= i < length ==> (#[trigger] ill.month_in_policy_year@[i]) == 0,
        forall|i: int| 0 <= i < length ==> (#[trigger] ill.value_start@[i]) == 0,
        forall|i: int| 0 <= i < length ==> (#[trigger] ill.premium@[i]) == 0,
        forall|i: int| 0 <= i < length ==> (#[trigger] ill.premium_load@[i]) == 0,
        forall|i: int| 0 <= i < length ==> (#[trigger] ill.expense_charge@[i]) == 0,
        forall|i: int| 0 <= i < length ==> (#[trigger] ill.death_benefit@[i]) == 0,
        forall|i: int| 0 <= i < length ==> (#[trigger] ill.naar@[i]) == 0,
        forall|i: int| 0 <= i < length ==> (#[trigger] ill.coi_charge@[i]) == 0,
        forall|i: int| 0 <= i < length ==> (#[trigger] ill.interest@[i]) == 0,
        forall|i: int| 0 <= i < length ==> (#[trigger] ill.value_end@[i]) == 0,
{
    Illustration {
        length,
        policy_month: filled_u16(0, length),
        policy_year: filled_u8(0, length),
        month_in_policy_year: filled_u8(0, length),
        value_start: filled_u64(0, length),
        premium: filled_u64(0, length),
        premium_load: filled_u64(0, length),
        expense_charge: filled_u64(0, length),
        death_benefit: filled_u64(0, length),
        naar: filled_u64(0, length),
        coi_charge: filled_u64(0, length),
        interest: filled_u64(0, length),
        value_end: filled_u64(0, length),
    }
}

fn filled_u64(x: u64, n: usize) -> (v: Vec<u64>)
    ensures
        v@.len() == n,
        forall|j: int| 0 <= j < n ==> (#[trigger] v@[j]) == x,
{
    let mut v: Vec<u64> = Vec::new();
    let mut i: usize = 0;
    while i < n
        invariant
            i <= n,
            v@.len() == i,
            forall|j: int| 0 <= j < i ==> (#[trigger] v@[j]) == x,
        decreases n - i,
    {
        v.push(x);
        i = i + 1;
    }
    v
}

fn filled_u16(x: u16, n: usize) -> (v: Vec<u16>)
    ensures
        v@.len() == n,
        forall|j: int| 0 <= j < n ==> (#[trigger] v@[j]) == x,
{
    let mut v: Vec<u16> = Vec::new();
    let mut i: usize = 0;
    while i < n
        invariant
            i <= n,
            v@.len() == i,
            forall|j: int| 0 <= j < i ==> (#[trigger] v@[j]) == x,
        decreases n - i,
    {
        v.push(x);
        i = i + 1;
    }
    v
}

fn filled_u8(x: u8, n: usize) -> (v: Vec<u8>)
    ensures
        v@.len() == n,
        forall|j: int| 0 <= j < n ==> (#[trigger] v@[j]) == x,
{
    let mut v: Vec<u8> = Vec::new();
    let mut i: usize = 0;
    while i < n
        invariant
            i <= n,
            v@.len() == i,
            forall|j: int| 0 <= j < i ==> (#[trigger] v@[j]) == x,
        decreases n - i,
    {
        v.push(x);
        i = i + 1;
    }
    v
}

/// The inputs from which one month's figures are computed: the carried start
/// value, the premium collected this month, and the seven rates of the
/// current policy year. All monetary values are f64 bit patterns.
pub struct MonthInputs {
    pub value_start_bits: u64,
    pub premium_bits: u64,
    pub premium_load_rate_bits: u64,
    pub policy_fee_bits: u64,
    pub unit_load_rate_bits: u64,
    pub corridor_factor_bits: u64,
    pub naar_discount_bits: u64,
    pub coi_rate_bits: u64,
    pub interest_rate_bits: u64,
}

/// One month's computed figures, as f64 bit patterns. The net amount at risk
/// and the interest credit must come floored at zero, as the recurrence
/// floors them.
pub struct MonthFigures {
    pub premium_load_bits: u64,
    pub expense_charge_bits: u64,
    pub death_benefit_bits: u64,
    pub naar_bits: u64,
    pub coi_charge_bits: u64,
    pub interest_bits: u64,
    pub value_end_bits: u64,
}

/// The first required curve absent from `rates`, checked in the fixed order
/// the engine fetches them.
pub open spec fn first_missing_curve(rates: RateSet) -> Option<CurveKind> {
    if rates.spec_get(CurveKind::PremiumLoads) is None {
        Some(CurveKind::PremiumLoads)
    } else if rates.spec_get(CurveKind::PolicyFees) is None {
        Some(CurveKind::PolicyFees)
    } else if rates.spec_get(CurveKind::UnitLoads) is None {
        Some(CurveKind::UnitLoads)
    } else if rates.spec_get(CurveKind::CorridorFactors) is None {
        Some(CurveKind::CorridorFactors)
    } else if rates.spec_get(CurveKind::NaarDiscounts) is None {
        Some(CurveKind::NaarDiscounts)
    } else if rates.spec_get(CurveKind::CoiRates) is None {
        Some(CurveKind::CoiRates)
    } else if rates.spec_get(CurveKind::InterestRates) is None {
        Some(CurveKind::InterestRates)
    } else {
        None
    }
}

/// Assembles an illustration month by month. The builder owns the schedule,
/// the rate selection, the premium timing, and the start-value carry; the
/// caller supplies only the arithmetic results of each month.
pub struct ProjectionBuilder {
    issue_age: u8,
    face_amount_bits: u64,
    annual_premium_bits: u64,
    premium_loads: RateCurve,
    policy_fees: RateCurve,
    unit_loads: RateCurve,
    corridor_factors: RateCurve,
    naar_discounts: RateCurve,
    coi_rates: RateCurve,
    interest_rates: RateCurve,
    ill: Illustration,
    filled: usize,
}

impl ProjectionBuilder {
    pub closed spec fn spec_issue_age(&self) -> u8 {
        self.issue_age
    }

    pub closed spec fn spec_face_amount_bits(&self) -> u64 {
        self.face_amount_bits
    }

    pub closed spec fn spec_annual_premium_bits(&self) -> u64 {
        self.annual_premium_bits
    }

    /// The rows recorded so far.
    pub closed spec fn spec_filled(&self) -> int {
        self.filled as int
    }

    /// The illustration under construction.
    pub closed spec fn spec_ill(&self) -> Illustration {
        self.ill
    }

    /// The curve the builder uses for `kind`.
    pub closed spec fn spec_curve(&self, kind: CurveKind) -> Seq<u64> {
        match kind {
            CurveKind::PremiumLoads => self.premium_loads@,
            CurveKind::PolicyFees => self.policy_fees@,
            CurveKind::UnitLoads => self.unit_loads@,
            CurveKind::CorridorFactors => self.corridor_factors@,
            CurveKind::NaarDiscounts => self.naar_discounts@,
            CurveKind::CoiRates => self.coi_rates@,
            CurveKind::InterestRates => self.interest_rates@,
        }
    }

    /// Everything the builder guarantees of its partial illustration.
    pub open spec fn wf(&self) -> bool {
        &&& self.spec_issue_age() < MATURITY_AGE
        &&& self.spec_ill().length == spec_projection_months(self.spec_issue_age())
        &&& self.spec_ill().columns_len()
        &&& 0 <= self.spec_filled() <= self.spec_ill().length
        &&& self.spec_ill().schedule_ok(self.spec_filled())
        &&& self.spec_ill().chained(self.spec_filled())
        &&& self.spec_ill().premium_schedule_ok(self.spec_annual_premium_bits(), self.spec_filled())
        &&& self.spec_ill().floors_ok(self.spec_filled())
        &&& forall|k: CurveKind| (#[trigger] self.spec_curve(k)).len() == CURVE_LEN
    }

    /// Whether every month has been recorded.
    pub open spec fn spec_done(&self) -> bool {
        self.spec_filled() == self.spec_ill().length
    }

    /// Starts a projection: checks that all seven required curves are
    /// present, and prepares an illustration of `12 * (121 - issue_age)`
    /// zeroed rows. Fails with the lookup error naming the first absent
    /// curve, and succeeds exactly when none is absent.
    pub fn new(
        rates: &RateSet,
        issue_age: u8,
        face_amount_bits: u64,
        annual_premium_bits: u64,
    ) -> (r: Result<ProjectionBuilder, EngineError>)
        requires
            issue_age < MATURITY_AGE,
            rates.wf(),
        ensures
            match r {
                Ok(b) => {
                    &&& rates.complete()
                    &&& b.wf()
                    &&& b.spec_filled() == 0
                    &&& b.spec_issue_age() == issue_age
                    &&& b.spec_face_amount_bits() == face_amount_bits
                    &&& b.spec_annual_premium_bits() == annual_premium_bits
                    &&& forall|k: CurveKind|
                        #[trigger] b.spec_curve(k) == rates.spec_get(k)->Some_0@
                },
                Err(e) => {
                    &&& !rates.complete()
                    &&& e == EngineError::MissingCurve(first_missing_curve(*rates)->Some_0)
                },
            },
    {
        let premium_loads = match rates.get(CurveKind::PremiumLoads) {
            Ok(c) => c.to_owned_curve(),
            Err(e) => return Err(e),
        };
        let policy_fees = match rates.get(CurveKind::PolicyFees) {
            Ok(c) => c.to_owned_curve(),
            Err(e) => return Err(e),
        };
        let unit_loads = match rates.get(CurveKind::UnitLoads) {
            Ok(c) => c.to_owned_curve(),
            Err(e) => return Err(e),
        };
        let corridor_factors = match rates.get(CurveKind::CorridorFactors) {
            Ok(c) => c.to_owned_curve(),
            Err(e) => return Err(e),
        };
        let naar_discounts = match rates.get(CurveKind::NaarDiscounts) {
            Ok(c) => c.to_owned_curve(),
            Err(e) => return Err(e),
        };
        let coi_rates = match rates.get(CurveKind::CoiRates) {
            Ok(c) => c.to_owned_curve(),
            Err(e) => return Err(e),
        };
        let interest_rates = match rates.get(CurveKind::InterestRates) {
            Ok(c) => c.to_owned_curve(),
            Err(e) => return Err(e),
        };
        let months = projection_months(issue_age);
        let ill = new_illustration(months);
        let b = ProjectionBuilder {
            issue_age,
            face_amount_bits,
            annual_premium_bits,
            premium_loads,
            policy_fees,
            unit_loads,
            corridor_factors,
            naar_discounts,
            coi_rates,
            interest_rates,
            ill,
            filled: 0,
        };
        proof {
            assert forall|k: CurveKind| (#[trigger] rates.spec_get(k)) is Some by {
                match k {
                    CurveKind::PremiumLoads => {},
                    CurveKind::PolicyFees => {},
                    CurveKind::UnitLoads => {},
                    CurveKind::CorridorFactors => {},
                    CurveKind::NaarDiscounts => {},
                    CurveKind::CoiRates => {},
                    CurveKind::InterestRates => {},
                }
            }
            assert forall|k: CurveKind| #[trigger]
                b.spec_curve(k) == rates.spec_get(k)->Some_0@ by {
                match k {
                    CurveKind::PremiumLoads => {},
                    CurveKind::PolicyFees => {},
                    CurveKind::UnitLoads => {},
                    CurveKind::CorridorFactors => {},
                    CurveKind::NaarDiscounts => {},
                    CurveKind::CoiRates => {},
                    CurveKind::InterestRates => {},
                }
            }
        }
        Ok(b)
    }

    /// The inputs of the month about to be recorded: the previous month's end
    /// value (zero for the first month), the premium collected this month
    /// (the annual premium in anniversary months, zero otherwise), and each
    /// curve's rate for the current policy year.
    pub fn month_inputs(&self) -> (m: MonthInputs)
        requires
            self.wf(),
            !self.spec_done(),
        ensures
            m.value_start_bits == if self.spec_filled() == 0 {
                F64_POS_ZERO_BITS
            } else {
                self.spec_ill().value_end@[self.spec_filled() - 1]
            },
            m.premium_bits == if spec_premium_due(self.spec_filled()) {
                self.spec_annual_premium_bits()
            } else {
                F64_POS_ZERO_BITS
            },
            m.premium_load_rate_bits == self.spec_curve(CurveKind::PremiumLoads)[spec_policy_year(
                self.spec_filled(),
            ) - 1],
            m.policy_fee_bits == self.spec_curve(CurveKind::PolicyFees)[spec_policy_year(
                self.spec_filled(),
            ) - 1],
            m.unit_load_rate_bits == self.spec_curve(CurveKind::UnitLoads)[spec_policy_year(
                self.spec_filled(),
            ) - 1],
            m.corridor_factor_bits == self.spec_curve(CurveKind::CorridorFactors)[spec_policy_year(
                self.spec_filled(),
            ) - 1],
            m.naar_discount_bits == self.spec_curve(CurveKind::NaarDiscounts)[spec_policy_year(
                self.spec_filled(),
            ) - 1],
            m.coi_rate_bits == self.spec_curve(CurveKind::CoiRates)[spec_policy_year(
                self.spec_filled(),
            ) - 1],
            m.interest_rate_bits == self.spec_curve(CurveKind::InterestRates)[spec_policy_year(
                self.spec_filled(),
            ) - 1],
    {
        proof {
            assert(self.spec_curve(CurveKind::PremiumLoads).len() == CURVE_LEN);
            assert(self.spec_curve(CurveKind::PolicyFees).len() == CURVE_LEN);
            assert(self.spec_curve(CurveKind::UnitLoads).len() == CURVE_LEN);
            assert(self.spec_curve(CurveKind::CorridorFactors).len() == CURVE_LEN);
            assert(self.spec_curve(CurveKind::NaarDiscounts).len() == CURVE_LEN);
            assert(self.spec_curve(CurveKind::CoiRates).len() == CURVE_LEN);
            assert(self.spec_curve(CurveKind::InterestRates).len() == CURVE_LEN);
        }
        let py_idx = policy_year_of(self.filled) - 1;
        let value_start_bits = if self.filled == 0 {
            F64_POS_ZERO_BITS
        } else {
            self.ill.value_end[self.filled - 1]
        };
        let premium_bits = if premium_due(self.filled) {
            self.annual_premium_bits
        } else {
            F64_POS_ZERO_BITS
        };
        MonthInputs {
            value_start_bits,
            premium_bits,
            premium_load_rate_bits: self.premium_loads.get(py_idx),
            policy_fee_bits: self.policy_fees.get(py_idx),
            unit_load_rate_bits: self.unit_loads.get(py_idx),
            corridor_factor_bits: self.corridor_factors.get(py_idx),
            naar_discount_bits: self.naar_discounts.get(py_idx),
            coi_rate_bits: self.coi_rates.get(py_idx),
            interest_rate_bits: self.interest_rates.get(py_idx),
        }
    }

    /// Records the next month. The builder fills the calendar columns, the
    /// premium, and the carried start value itself; the caller's figures fill
    /// the remaining monetary columns verbatim.
    pub fn push_month(&mut self, figures: MonthFigures)
        requires
            old(self).wf(),
            !old(self).spec_done(),
            f64_bits_nonneg(figures.naar_bits),
            f64_bits_nonneg(figures.interest_bits),
        ensures
            final(self).wf(),
            final(self).spec_filled() == old(self).spec_filled() + 1,
            final(self).spec_issue_age() == old(self).spec_issue_age(),
            final(self).spec_face_amount_bits() == old(self).spec_face_amount_bits(),
            final(self).spec_annual_premium_bits() == old(self).spec_annual_premium_bits(),
            forall|k: CurveKind| #[trigger] final(self).spec_curve(k) == old(self).spec_curve(k),
            final(self).spec_ill().length == old(self).spec_ill().length,
            ({
                let f = old(self).spec_filled();
                let o = old(self).spec_ill();
                let n = final(self).spec_ill();
                &&& n.policy_month@ == o.policy_month@.update(f, (f + 1) as u16)
                &&& n.policy_year@ == o.policy_year@.update(f, spec_policy_year(f) as u8)
                &&& n.month_in_policy_year@ == o.month_in_policy_year@.update(
                    f,
                    spec_month_in_year(f) as u8,
                )
                &&& n.value_start@ == o.value_start@.update(
                    f,
                    if f == 0 {
                        F64_POS_ZERO_BITS
                    } else {
                        o.value_end@[f - 1]
                    },
                )
                &&& n.premium@ == o.premium@.update(
                    f,
                    if spec_premium_due(f) {
                        old(self).spec_annual_premium_bits()
                    } else {
                        F64_POS_ZERO_BITS
                    },
                )
                &&& n.premium_load@ == o.premium_load@.update(f, figures.premium_load_bits)
                &&& n.expense_charge@ == o.expense_charge@.update(f, figures.expense_charge_bits)
                &&& n.death_benefit@ == o.death_benefit@.update(f, figures.death_benefit_bits)
                &&& n.naar@ == o.naar@.update(f, figures.naar_bits)
                &&& n.coi_charge@ == o.coi_charge@.update(f, figures.coi_charge_bits)
                &&& n.interest@ == o.interest@.update(f, figures.interest_bits)
                &&& n.value_end@ == o.value_end@.update(f, figures.value_end_bits)
            }),
    {
        let i = self.filled;
        let month = i + 1;
        let py = policy_year_of(i);
        let miy = month_in_year_of(i);
        let value_start_bits = if i == 0 {
            F64_POS_ZERO_BITS
        } else {
            self.ill.value_end[i - 1]
        };
        let premium_bits = if premium_due(i) {
            self.annual_premium_bits
        } else {
            F64_POS_ZERO_BITS
        };
        self.ill.policy_month.set(i, month as u16);
        self.ill.policy_year.set(i, py as u8);
        self.ill.month_in_policy_year.set(i, miy as u8);
        self.ill.value_start.set(i, value_start_bits);
        self.ill.premium.set(i, premium_bits);
        self.ill.premium_load.set(i, figures.premium_load_bits);
        self.ill.expense_charge.set(i, figures.expense_charge_bits);
        self.ill.death_benefit.set(i, figures.death_benefit_bits);
        self.ill.naar.set(i, figures.naar_bits);
        self.ill.coi_charge.set(i, figures.coi_charge_bits);
        self.ill.interest.set(i, figures.interest_bits);
        self.ill.value_end.set(i, figures.value_end_bits);
        self.filled = i + 1;
        proof {
            assert forall|k: CurveKind| #[trigger]
                self.spec_curve(k) == old(self).spec_curve(k) by {
                match k {
                    CurveKind::PremiumLoads => {},
                    CurveKind::PolicyFees => {},
                    CurveKind::UnitLoads => {},
                    CurveKind::CorridorFactors => {},
                    CurveKind::NaarDiscounts => {},
                    CurveKind::CoiRates => {},
                    CurveKind::InterestRates => {},
                }
            }
        }
    }

    /// How many months remain to be recorded.
    pub fn months_left(&self) -> (n: usize)
        requires
            self.wf(),
        ensures
            n == self.spec_ill().length - self.spec_filled(),
    {
        self.ill.length - self.filled
    }

    /// Hands out the finished illustration with every guarantee the builder
    /// maintained: the schedule columns, the start-value chaining, the
    /// premium timing, and the zero floors on net amount at risk and
    /// interest.
    pub fn finish(self) -> (ill: Illustration)
        requires
            self.wf(),
            self.spec_done(),
        ensures
            ill == self.spec_ill(),
            ill.length == spec_projection_months(self.spec_issue_age()),
            ill.columns_len(),
            ill.schedule_ok(ill.length as int),
            ill.chained(ill.length as int),
            ill.premium_schedule_ok(self.spec_annual_premium_bits(), ill.length as int),
            ill.floors_ok(ill.length as int),
    {
        self.ill
    }
}

/// A projection's output is a function of its inputs alone. The guarantees
/// the builder maintains leave no freedom: two finished illustrations of the
/// same length, built for the same annual premium, that agree slot for slot
/// on the monetary figures their callers computed, agree on every remaining
/// column as well — the calendar columns, the premium column, and the carried
/// start values are all forced.
pub proof fn lemma_projection_deterministic(a: Illustration, b: Illustration, annual: u64)
    requires
        a.length == b.length,
        a.columns_len(),
        b.columns_len(),
        a.schedule_ok(a.length as int),
        b.schedule_ok(b.length as int),
        a.chained(a.length as int),
        b.chained(b.length as int),
        a.premium_schedule_ok(annual, a.length as int),
        b.premium_schedule_ok(annual, b.length as int),
        a.value_end@ == b.value_end@,
    ensures
        a.policy_month@ == b.policy_month@,
        a.policy_year@ == b.policy_year@,
        a.month_in_policy_year@ == b.month_in_policy_year@,
        a.value_start@ == b.value_start@,
        a.premium@ == b.premium@,
{
    let n = a.length as int;
    assert forall|i: int| 0 <= i < n implies a.policy_month@[i] == b.policy_month@[i] by {
        assert(a.policy_month@[i] == i + 1);
        assert(b.policy_month@[i] == i + 1);
    }
    assert(a.policy_month@ =~= b.policy_month@);
    assert forall|i: int| 0 <= i < n implies a.policy_year@[i] == b.policy_year@[i] by {
        assert(a.policy_month@[i] == i + 1);
        assert(b.policy_month@[i] == i + 1);
        assert(a.policy_year@[i] == spec_policy_year(i));
        assert(b.policy_year@[i] == spec_policy_year(i));
    }
    assert(a.policy_year@ =~= b.policy_year@);
    assert forall|i: int|
        0 <= i < n implies a.month_in_policy_year@[i] == b.month_in_policy_year@[i] by {
        assert(a.policy_month@[i] == i + 1);
        assert(b.policy_month@[i] == i + 1);
        assert(a.month_in_policy_year@[i] == spec_month_in_year(i));
        assert(b.month_in_policy_year@[i] == spec_month_in_year(i));
    }
    assert(a.month_in_policy_year@ =~= b.month_in_policy_year@);
    assert forall|i: int| 0 <= i < n implies a.value_start@[i] == b.value_start@[i] by {
        if i == 0 {
            assert(a.value_start@[0] == F64_POS_ZERO_BITS);
            assert(b.value_start@[0] == F64_POS_ZERO_BITS);
        } else {
            assert(a.value_start@[i] == a.value_end@[i - 1]);
            assert(b.value_start@[i] == b.value_end@[i - 1]);
        }
    }
    assert(a.value_start@ =~= b.value_start@);
    assert forall|i: int| 0 <= i < n implies a.premium@[i] == b.premium@[i] by {
        if spec_premium_due(i) {
            assert(a.premium@[i] == annual);
            assert(b.premium@[i] == annual);
        } else {
            assert(a.premium@[i] == F64_POS_ZERO_BITS);
            assert(b.premium@[i] == F64_POS_ZERO_BITS);
        }
    }
    assert(a.premium@ =~= b.premium@);
}

} // verus!
