//! Rate curves and rate sets.
//!
//! A curve is a fixed-length table of 121 rate values, indexed by policy year
//! (index 0 is policy year 1). Curves are built from plain records that an
//! unverified reader extracts from the backing tables; the library owns the
//! matching and placement rules: which records apply to a cohort, which slot
//! each one fills, and that unmatched slots keep the caller's default. When
//! several records fill one slot, the last one wins.

use vstd::prelude::*;
use crate::errors::CurveKind;
use crate::errors::EngineError;

verus! {

/// Number of entries in every rate curve: one per policy year up to maturity.
pub const CURVE_LEN: usize = 121;

/// A fixed-length ordered sequence of 121 rate values, carried as f64 bit
/// patterns.
#[derive(Clone, Debug)]
pub struct RateCurve {
    bits: Vec<u64>,
}

impl View for RateCurve {
    type V = Seq<u64>;

    closed spec fn view(&self) -> Seq<u64> {
        self.bits@
    }
}

/// A record of a table that varies by issue age and policy year.
#[derive(Clone, Debug)]
pub struct PolicyYearRecord {
    pub issue_age: u8,
    pub policy_year: u8,
    pub rate_bits: u64,
}

/// A record of a table that varies by gender, risk class, issue age, and
/// policy year.
#[derive(Clone, Debug)]
pub struct CohortRecord {
    pub gender: String,
    pub risk_class: String,
    pub issue_age: u8,
    pub policy_year: u8,
    pub rate_bits: u64,
}

/// A record of a table that varies by attained age.
#[derive(Clone, Debug)]
pub struct AttainedAgeRecord {
    pub attained_age: u8,
    pub rate_bits: u64,
}

/// Whether a policy-year record applies to the given issue age.
pub open spec fn py_record_matches(r: PolicyYearRecord, issue_age: u8) -> bool {
    r.issue_age == issue_age
}

/// Whether a cohort record applies to the given cohort.
pub open spec fn cohort_record_matches(
    r: CohortRecord,
    gender: Seq<char>,
    risk_class: Seq<char>,
    issue_age: u8,
) -> bool {
    r.gender@ == gender && r.risk_class@ == risk_class && r.issue_age == issue_age
}

/// Whether an attained-age record applies to the given issue age.
pub open spec fn aa_record_matches(r: AttainedAgeRecord, issue_age: u8) -> bool {
    r.attained_age >= issue_age
}

/// The value slot `j` holds after the policy-year records are applied in
/// order: the rate of the last applicable record for policy year `j + 1`, or
/// the default when none applies.
pub open spec fn py_slot_value(
    records: Seq<PolicyYearRecord>,
    issue_age: u8,
    default_bits: u64,
    j: int,
) -> u64
    decreases records.len(),
{
    if records.len() == 0 {
        default_bits
    } else if py_record_matches(records.last(), issue_age) && records.last().policy_year - 1 == j {
        records.last().rate_bits
    } else {
        py_slot_value(records.drop_last(), issue_age, default_bits, j)
    }
}

/// The value slot `j` holds after the cohort records are applied in order.
pub open spec fn cohort_slot_value(
    records: Seq<CohortRecord>,
    gender: Seq<char>,
    risk_class: Seq<char>,
    issue_age: u8,
    default_bits: u64,
    j: int,
) -> u64
    decreases records.len(),
{
    if records.len() == 0 {
        default_bits
    } else if cohort_record_matches(records.last(), gender, risk_class, issue_age)
        && records.last().policy_year - 1 == j {
        records.last().rate_bits
    } else {
        cohort_slot_value(records.drop_last(), gender, risk_class, issue_age, default_bits, j)
    }
}

/// The value slot `j` holds after the attained-age records are applied in
/// order. A record for attained age `a` fills slot `a - issue_age`: corridor
/// factors are tabulated by attained age but stored by duration.
pub open spec fn aa_slot_value(
    records: Seq<AttainedAgeRecord>,
    issue_age: u8,
    default_bits: u64,
    j: int,
) -> u64
    decreases records.len(),
{
    if records.len() == 0 {
        default_bits
    } else if aa_record_matches(records.last(), issue_age) && records.last().attained_age
        - issue_age == j {
        records.last().rate_bits
    } else {
        aa_slot_value(records.drop_last(), issue_age, default_bits, j)
    }
}

impl RateCurve {
    /// A curve that holds the same value in every slot.
    pub fn flat(bits: u64) -> (c: RateCurve)
        ensures
            c@.len() == CURVE_LEN,
            forall|j: int| 0 <= j < CURVE_LEN ==> c@[j] == bits,
    {
        let mut v: Vec<u64> = Vec::new();
        let mut i: usize = 0;
        while i < CURVE_LEN
            invariant
                i <= CURVE_LEN,
                v@.len() == i,
                forall|j: int| 0 <= j < i ==> v@[j] == bits,
            decreases CURVE_LEN - i,
        {
            v.push(bits);
            i = i + 1;
        }
        RateCurve { bits: v }
    }

    /// The rate for the policy year whose zero-based index is `idx`.
    pub fn get(&self, idx: usize) -> (r: u64)
        requires
            self@.len() == CURVE_LEN,
            idx < CURVE_LEN,
        ensures
            r == self@[idx as int],
    {
        self.bits[idx]
    }

    /// An owned copy of the curve, slot for slot.
    pub fn to_owned_curve(&self) -> (c: RateCurve)
        requires
            self@.len() == CURVE_LEN,
        ensures
            c@ == self@,
    {
        let mut v: Vec<u64> = Vec::new();
        let mut i: usize = 0;
        while i < CURVE_LEN
            invariant
                i <= CURVE_LEN,
                self@.len() == CURVE_LEN,
                v@.len() == i,
                forall|j: int| 0 <= j < i ==> (#[trigger] v@[j]) == self@[j],
            decreases CURVE_LEN - i,
        {
            v.push(self.bits[i]);
            i = i + 1;
        }
        proof {
            assert(v@ =~= self@);
        }
        RateCurve { bits: v }
    }

    fn set_slot(&mut self, idx: usize, val: u64)
        requires
            old(self)@.len() == CURVE_LEN,
            idx < CURVE_LEN,
        ensures
            final(self)@ == old(self)@.update(idx as int, val),
    {
        self.bits.set(idx, val);
    }

    /// Builds a policy-year-indexed curve from records that vary by issue age
    /// and policy year. Matching records must carry a policy year between 1
    /// and 121; the original tables do, and an out-of-range year has no slot.
    pub fn from_policy_year_records(
        records: &Vec<PolicyYearRecord>,
        issue_age: u8,
        default_bits: u64,
    ) -> (c: RateCurve)
        requires
            forall|k: int|
                0 <= k < records@.len() && py_record_matches(#[trigger] records@[k], issue_age)
                    ==> 1 <= records@[k].policy_year <= CURVE_LEN,
        ensures
            c@.len() == CURVE_LEN,
            forall|j: int|
                0 <= j < CURVE_LEN ==> c@[j] == py_slot_value(
                    records@,
                    issue_age,
                    default_bits,
                    j,
                ),
    {
        let mut c = RateCurve::flat(default_bits);
        let mut i: usize = 0;
        while i < records.len()
            invariant
                i <= records@.len(),
                c@.len() == CURVE_LEN,
                forall|k: int|
                    0 <= k < records@.len() && py_record_matches(
                        #[trigger] records@[k],
                        issue_age,
                    ) ==> 1 <= records@[k].policy_year <= CURVE_LEN,
                forall|j: int|
                    0 <= j < CURVE_LEN ==> c@[j] == py_slot_value(
                        records@.take(i as int),
                        issue_age,
                        default_bits,
                        j,
                    ),
            decreases records@.len() - i,
        {
            let r = &records[i];
            proof {
                assert(records@.take(i + 1).drop_last() =~= records@.take(i as int));
                assert(records@.take(i + 1).last() == records@[i as int]);
            }
            if r.issue_age == issue_age {
                c.set_slot((r.policy_year - 1) as usize, r.rate_bits);
            }
            i = i + 1;
        }
        proof {
            assert(records@.take(records@.len() as int) =~= records@);
        }
        c
    }

    /// Builds a policy-year-indexed curve from records that vary by gender,
    /// risk class, issue age, and policy year.
    pub fn from_cohort_records(
        records: &Vec<CohortRecord>,
        gender: &String,
        risk_class: &String,
        issue_age: u8,
        default_bits: u64,
    ) -> (c: RateCurve)
        requires
            forall|k: int|
                0 <= k < records@.len() && cohort_record_matches(
                    #[trigger] records@[k],
                    gender@,
                    risk_class@,
                    issue_age,
                ) ==> 1 <= records@[k].policy_year <= CURVE_LEN,
        ensures
            c@.len() == CURVE_LEN,
            forall|j: int|
                0 <= j < CURVE_LEN ==> c@[j] == cohort_slot_value(
                    records@,
                    gender@,
                    risk_class@,
                    issue_age,
                    default_bits,
                    j,
                ),
    {
        let mut c = RateCurve::flat(default_bits);
        let mut i: usize = 0;
        while i < records.len()
            invariant
                i <= records@.len(),
                c@.len() == CURVE_LEN,
                forall|k: int|
                    0 <= k < records@.len() && cohort_record_matches(
                        #[trigger] records@[k],
                        gender@,
                        risk_class@,
                        issue_age,
                    ) ==> 1 <= records@[k].policy_year <= CURVE_LEN,
                forall|j: int|
                    0 <= j < CURVE_LEN ==> c@[j] == cohort_slot_value(
                        records@.take(i as int),
                        gender@,
                        risk_class@,
                        issue_age,
                        default_bits,
                        j,
                    ),
            decreases records@.len() - i,
        {
            let r = &records[i];
            proof {
                assert(records@.take(i + 1).drop_last() =~= records@.take(i as int));
                assert(records@.take(i + 1).last() == records@[i as int]);
            }
            if r.gender == *gender && r.risk_class == *risk_class && r.issue_age == issue_age {
                c.set_slot((r.policy_year - 1) as usize, r.rate_bits);
            }
            i = i + 1;
        }
        proof {
            assert(records@.take(records@.len() as int) =~= records@);
        }
        c
    }

    /// Builds a curve from records that vary by attained age. A record for
    /// attained age `a >= issue_age` fills slot `a - issue_age`; ages below
    /// the issue age are skipped. Applicable records must stay within the
    /// curve, so their attained age may exceed the issue age by at most 120.
    pub fn from_attained_age_records(
        records: &Vec<AttainedAgeRecord>,
        issue_age: u8,
        default_bits: u64,
    ) -> (c: RateCurve)
        requires
            forall|k: int|
                0 <= k < records@.len() && aa_record_matches(#[trigger] records@[k], issue_age)
                    ==> records@[k].attained_age - issue_age < CURVE_LEN,
        ensures
            c@.len() == CURVE_LEN,
            forall|j: int|
                0 <= j < CURVE_LEN ==> c@[j] == aa_slot_value(
                    records@,
                    issue_age,
                    default_bits,
                    j,
                ),
    {
        let mut c = RateCurve::flat(default_bits);
        let mut i: usize = 0;
        while i < records.len()
            invariant
                i <= records@.len(),
                c@.len() == CURVE_LEN,
                forall|k: int|
                    0 <= k < records@.len() && aa_record_matches(
                        #[trigger] records@[k],
                        issue_age,
                    ) ==> records@[k].attained_age - issue_age < CURVE_LEN,
                forall|j: int|
                    0 <= j < CURVE_LEN ==> c@[j] == aa_slot_value(
                        records@.take(i as int),
                        issue_age,
                        default_bits,
                        j,
                    ),
            decreases records@.len() - i,
        {
            let r = &records[i];
            proof {
                assert(records@.take(i + 1).drop_last() =~= records@.take(i as int));
                assert(records@.take(i + 1).last() == records@[i as int]);
            }
            if r.attained_age >= issue_age {
                c.set_slot((r.attained_age - issue_age) as usize, r.rate_bits);
            }
            i = i + 1;
        }
        proof {
            assert(records@.take(records@.len() as int) =~= records@);
        }
        c
    }
}

/// A named collection of rate curves for one cohort, built once and then
/// read-only. A curve can be absent; the engine reports which one it missed.
#[derive(Clone, Debug)]
pub struct RateSet {
    premium_loads: Option<RateCurve>,
    policy_fees: Option<RateCurve>,
    unit_loads: Option<RateCurve>,
    corridor_factors: Option<RateCurve>,
    naar_discounts: Option<RateCurve>,
    coi_rates: Option<RateCurve>,
    interest_rates: Option<RateCurve>,
}

impl RateSet {
    /// The curve stored under `kind`, if any.
    pub closed spec fn spec_get(&self, kind: CurveKind) -> Option<RateCurve> {
        match kind {
            CurveKind::PremiumLoads => self.premium_loads,
            CurveKind::PolicyFees => self.policy_fees,
            CurveKind::UnitLoads => self.unit_loads,
            CurveKind::CorridorFactors => self.corridor_factors,
            CurveKind::NaarDiscounts => self.naar_discounts,
            CurveKind::CoiRates => self.coi_rates,
            CurveKind::InterestRates => self.interest_rates,
        }
    }

    /// Every curve that is present has the fixed curve length.
    pub open spec fn wf(&self) -> bool {
        forall|k: CurveKind|
            (#[trigger] self.spec_get(k)) is Some ==> self.spec_get(k)->Some_0@.len() == CURVE_LEN
    }

    /// Whether all seven required curves are present.
    pub open spec fn complete(&self) -> bool {
        forall|k: CurveKind| (#[trigger] self.spec_get(k)) is Some
    }

    /// An empty rate set.
    pub fn new() -> (s: RateSet)
        ensures
            s.wf(),
            forall|k: CurveKind| (#[trigger] s.spec_get(k)) is None,
    {
        RateSet {
            premium_loads: None,
            policy_fees: None,
            unit_loads: None,
            corridor_factors: None,
            naar_discounts: None,
            coi_rates: None,
            interest_rates: None,
        }
    }

    /// Stores `curve` under `kind`, replacing any curve already there.
    pub fn insert(&mut self, kind: CurveKind, curve: RateCurve)
        requires
            old(self).wf(),
            curve@.len() == CURVE_LEN,
        ensures
            final(self).wf(),
            final(self).spec_get(kind) == Some(curve),
            forall|k: CurveKind|
                k != kind ==> #[trigger] final(self).spec_get(k) == old(self).spec_get(k),
    {
        match kind {
            CurveKind::PremiumLoads => self.premium_loads = Some(curve),
            CurveKind::PolicyFees => self.policy_fees = Some(curve),
            CurveKind::UnitLoads => self.unit_loads = Some(curve),
            CurveKind::CorridorFactors => self.corridor_factors = Some(curve),
            CurveKind::NaarDiscounts => self.naar_discounts = Some(curve),
            CurveKind::CoiRates => self.coi_rates = Some(curve),
            CurveKind::InterestRates => self.interest_rates = Some(curve),
        }
        proof {
            assert forall|k: CurveKind| (#[trigger] self.spec_get(k)) is Some implies self.spec_get(
                k,
            )->Some_0@.len() == CURVE_LEN by {
                if k != kind {
                    assert(self.spec_get(k) == old(self).spec_get(k));
                    assert(old(self).spec_get(k) is Some ==> old(self).spec_get(k)->Some_0@.len()
                        == CURVE_LEN);
                }
            }
        }
    }

    /// The curve stored under `kind`, or the lookup error naming the curve
    /// that is absent.
    pub fn get(&self, kind: CurveKind) -> (r: Result<&RateCurve, EngineError>)
        ensures
            match r {
                Ok(c) => self.spec_get(kind) == Some(*c),
                Err(e) => self.spec_get(kind) is None && e == EngineError::MissingCurve(kind),
            },
    {
        let field = match kind {
            CurveKind::PremiumLoads => &self.premium_loads,
            CurveKind::PolicyFees => &self.policy_fees,
            CurveKind::UnitLoads => &self.unit_loads,
            CurveKind::CorridorFactors => &self.corridor_factors,
            CurveKind::NaarDiscounts => &self.naar_discounts,
            CurveKind::CoiRates => &self.coi_rates,
            CurveKind::InterestRates => &self.interest_rates,
        };
        match field {
            Some(c) => Ok(c),
            None => Err(EngineError::MissingCurve(kind)),
        }
    }
}

} // verus!
