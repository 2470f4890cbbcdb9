use illustrator::bits::is_nonneg_bits;
use illustrator::errors::CurveKind;
use illustrator::errors::EngineError;
use illustrator::illustration::Illustration;
use illustrator::illustration::MonthFigures;
use illustrator::illustration::MonthInputs;
use illustrator::illustration::ProjectionBuilder;
use illustrator::illustration::new_illustration;
use illustrator::pool::Collector;
use illustrator::pool::Task;
use illustrator::pool::new_default_task;
use illustrator::rates::AttainedAgeRecord;
use illustrator::rates::CohortRecord;
use illustrator::rates::PolicyYearRecord;
use illustrator::rates::RateCurve;
use illustrator::rates::RateSet;
use illustrator::schedule::projection_months;
use illustrator::solver::SolverAction;
use illustrator::solver::SolverEvent;
use illustrator::solver::SolverPhase;
use illustrator::solver::solve_step;
use illustrator::solver::solver_start;

fn naar_discount() -> f64 {
    f64::powf(1.01, -1.0 / 12.0)
}

fn interest_rate() -> f64 {
    f64::powf(1.03, 1.0 / 12.0) - 1.0
}

fn flat_rate_set(
    premium_load: f64,
    policy_fee: f64,
    unit_load: f64,
    corridor: f64,
    naar_disc: f64,
    coi: f64,
    int_rate: f64,
) -> RateSet {
    let mut rs = RateSet::new();
    rs.insert(CurveKind::PremiumLoads, RateCurve::flat(premium_load.to_bits()));
    rs.insert(CurveKind::PolicyFees, RateCurve::flat(policy_fee.to_bits()));
    rs.insert(CurveKind::UnitLoads, RateCurve::flat(unit_load.to_bits()));
    rs.insert(CurveKind::CorridorFactors, RateCurve::flat(corridor.to_bits()));
    rs.insert(CurveKind::NaarDiscounts, RateCurve::flat(naar_disc.to_bits()));
    rs.insert(CurveKind::CoiRates, RateCurve::flat(coi.to_bits()));
    rs.insert(CurveKind::InterestRates, RateCurve::flat(int_rate.to_bits()));
    rs
}

fn default_rate_set() -> RateSet {
    flat_rate_set(0.06, 120.0, 0.0, 1.0, naar_discount(), 0.0, interest_rate())
}

/// The monthly recurrence on doubles: the one piece of the projection the
/// library leaves to its caller.
fn month_figures(inputs: &MonthInputs, face_amount: f64) -> MonthFigures {
    let start = f64::from_bits(inputs.value_start_bits);
    let premium = f64::from_bits(inputs.premium_bits);
    let premium_load_rate = f64::from_bits(inputs.premium_load_rate_bits);
    let policy_fee = f64::from_bits(inputs.policy_fee_bits);
    let unit_load_rate = f64::from_bits(inputs.unit_load_rate_bits);
    let corridor = f64::from_bits(inputs.corridor_factor_bits);
    let naar_disc = f64::from_bits(inputs.naar_discount_bits);
    let coi_rate = f64::from_bits(inputs.coi_rate_bits);
    let int_rate = f64::from_bits(inputs.interest_rate_bits);

    let premium_load = premium * premium_load_rate;
    let expense_charge = (policy_fee + unit_load_rate * face_amount / 1000.0) / 12.0;
    let av_for_db = start + premium - premium_load - expense_charge;
    let db = face_amount.max(corridor * av_for_db);
    let naar = (db * naar_disc - av_for_db.max(0.0)).max(0.0);
    let coi = (naar / 1000.0) * (coi_rate / 12.0);
    let av_for_interest = av_for_db - coi;
    let interest = (av_for_interest * int_rate).max(0.0);
    let end_value = av_for_interest + interest;
    MonthFigures {
        premium_load_bits: premium_load.to_bits(),
        expense_charge_bits: expense_charge.to_bits(),
        death_benefit_bits: db.to_bits(),
        naar_bits: naar.to_bits(),
        coi_charge_bits: coi.to_bits(),
        interest_bits: interest.to_bits(),
        value_end_bits: end_value.to_bits(),
    }
}

fn project(
    rates: &RateSet,
    issue_age: u8,
    face_amount: f64,
    annual_premium: f64,
) -> Result<Illustration, EngineError> {
    let mut b = match ProjectionBuilder::new(
        rates,
        issue_age,
        face_amount.to_bits(),
        annual_premium.to_bits(),
    ) {
        Ok(b) => b,
        Err(e) => return Err(e),
    };
    while b.months_left() > 0 {
        let inputs = b.month_inputs();
        let figures = month_figures(&inputs, face_amount);
        assert!(is_nonneg_bits(figures.naar_bits));
        assert!(is_nonneg_bits(figures.interest_bits));
        b.push_month(figures);
    }
    Ok(b.finish())
}

fn last_value_end(ill: &Illustration) -> f64 {
    f64::from_bits(ill.value_end[ill.length - 1])
}

fn solve(rates: &RateSet, issue_age: u8, face_amount: f64) -> Result<Illustration, EngineError> {
    let mut lo: f64 = 0.0;
    let mut hi: f64 = face_amount / 100.0;
    let mut mid: f64 = 0.0;
    let mut latest: Option<Illustration> = None;
    let (mut phase, mut action) = solver_start();
    loop {
        let event = match action {
            SolverAction::ProjectAtUpper => {
                let ill = project(rates, issue_age, face_amount, hi)?;
                let nonpositive = last_value_end(&ill) <= 0.0;
                latest = Some(ill);
                SolverEvent::Terminal { nonpositive }
            }
            SolverAction::WidenAndProjectAtUpper => {
                lo = hi;
                hi *= 2.0;
                let ill = project(rates, issue_age, face_amount, hi)?;
                let nonpositive = last_value_end(&ill) <= 0.0;
                latest = Some(ill);
                SolverEvent::Terminal { nonpositive }
            }
            SolverAction::MeasureGap => SolverEvent::Gap { above_tolerance: (hi - lo) > 0.005 },
            SolverAction::RaiseLowerAndMeasureGap => {
                lo = mid;
                SolverEvent::Gap { above_tolerance: (hi - lo) > 0.005 }
            }
            SolverAction::LowerUpperAndMeasureGap => {
                hi = mid;
                SolverEvent::Gap { above_tolerance: (hi - lo) > 0.005 }
            }
            SolverAction::ProjectAtMidpoint => {
                mid = (lo + hi) / 2.0;
                let ill = project(rates, issue_age, face_amount, mid)?;
                let nonpositive = last_value_end(&ill) <= 0.0;
                latest = Some(ill);
                SolverEvent::Terminal { nonpositive }
            }
            SolverAction::RoundAndProject => {
                mid = (mid * 100.0).round() / 100.0;
                let ill = project(rates, issue_age, face_amount, mid)?;
                let nonpositive = last_value_end(&ill) <= 0.0;
                latest = Some(ill);
                SolverEvent::Terminal { nonpositive }
            }
            SolverAction::BumpCentAndProject => {
                mid += 0.01;
                let ill = project(rates, issue_age, face_amount, mid)?;
                let nonpositive = last_value_end(&ill) <= 0.0;
                latest = Some(ill);
                SolverEvent::Terminal { nonpositive }
            }
            SolverAction::Deliver => return Ok(latest.expect("no illustration delivered")),
            SolverAction::Abort => return Err(EngineError::NoConvergence),
        };
        let (next, act) = solve_step(phase, event);
        phase = next;
        action = act;
    }
}

#[test]
fn projection_length_and_policy_months() {
    for issue_age in [0u8, 35u8, 70u8, 120u8] {
        let rates = default_rate_set();
        let ill = project(&rates, issue_age, 100000.0, 1200.0).expect("projection failed");
        let expected_len: usize = 12 * (121 - issue_age as usize);
        assert_eq!(ill.length, expected_len);
        assert_eq!(projection_months(issue_age), expected_len);
        for i in 0..ill.length {
            assert_eq!(ill.policy_month[i] as usize, i + 1);
            assert_eq!(ill.policy_year[i] as usize, i / 12 + 1);
            assert_eq!(ill.month_in_policy_year[i] as usize, (i + 11) % 12 + 1);
        }
    }
}

#[test]
fn value_start_chains_from_value_end() {
    let rates = default_rate_set();
    let ill = project(&rates, 35, 100000.0, 1255.03).expect("projection failed");
    assert_eq!(ill.value_start[0], 0.0f64.to_bits());
    for i in 1..ill.length {
        assert_eq!(ill.value_start[i], ill.value_end[i - 1]);
    }
}

#[test]
fn naar_and_interest_are_floored_at_zero() {
    // a harsh table: high loads and fees drive the account value negative,
    // yet interest and net amount at risk never go below zero
    let rates = flat_rate_set(0.5, 5000.0, 10.0, 1.2, naar_discount(), 3.5, interest_rate());
    let ill = project(&rates, 50, 250000.0, 100.0).expect("projection failed");
    for i in 0..ill.length {
        assert!(f64::from_bits(ill.naar[i]) >= 0.0);
        assert!(f64::from_bits(ill.interest[i]) >= 0.0);
        assert!(is_nonneg_bits(ill.naar[i]));
        assert!(is_nonneg_bits(ill.interest[i]));
    }
}

#[test]
fn projection_is_bit_identical_on_repeat() {
    let rates = default_rate_set();
    let a = project(&rates, 35, 100000.0, 1255.03).expect("projection failed");
    let b = project(&rates, 35, 100000.0, 1255.03).expect("projection failed");
    assert_eq!(a.length, b.length);
    for i in 0..a.length {
        assert_eq!(a.policy_month[i], b.policy_month[i]);
        assert_eq!(a.value_start[i], b.value_start[i]);
        assert_eq!(a.premium[i], b.premium[i]);
        assert_eq!(a.premium_load[i], b.premium_load[i]);
        assert_eq!(a.expense_charge[i], b.expense_charge[i]);
        assert_eq!(a.death_benefit[i], b.death_benefit[i]);
        assert_eq!(a.naar[i], b.naar[i]);
        assert_eq!(a.coi_charge[i], b.coi_charge[i]);
        assert_eq!(a.interest[i], b.interest[i]);
        assert_eq!(a.value_end[i], b.value_end[i]);
    }
}

#[test]
fn concrete_first_row_at_flat_rates() {
    let rates = default_rate_set();
    let ill = project(&rates, 35, 100000.0, 1255.03).expect("projection failed");
    assert_eq!(ill.length, 1032);
    assert_eq!(ill.premium[0], 1255.03f64.to_bits());
    assert_eq!(ill.value_start[0], 0.0f64.to_bits());
    let premium_load: f64 = 1255.03 * 0.06;
    assert_eq!(ill.premium_load[0], premium_load.to_bits());
    assert!((f64::from_bits(ill.premium_load[0]) - 75.3018).abs() < 1e-9);
    assert_eq!(ill.expense_charge[0], 10.0f64.to_bits());
    // the recurrence, computed independently to full double precision
    let av_for_db: f64 = 0.0 + 1255.03 - premium_load - 10.0;
    let db: f64 = 100000.0f64.max(1.0 * av_for_db);
    let naar: f64 = (db * naar_discount() - av_for_db.max(0.0)).max(0.0);
    let coi: f64 = (naar / 1000.0) * (0.0 / 12.0);
    let av_for_interest: f64 = av_for_db - coi;
    let interest: f64 = (av_for_interest * interest_rate()).max(0.0);
    let end_value: f64 = av_for_interest + interest;
    assert_eq!(ill.death_benefit[0], db.to_bits());
    assert_eq!(ill.naar[0], naar.to_bits());
    assert_eq!(ill.coi_charge[0], coi.to_bits());
    assert_eq!(ill.interest[0], interest.to_bits());
    assert_eq!(ill.value_end[0], end_value.to_bits());
    assert!((end_value - 1169.7282f64 * (1.0 + interest_rate())).abs() < 1.0);
    // premium is collected only in anniversary months
    for i in 0..ill.length {
        if i % 12 == 0 {
            assert_eq!(ill.premium[i], 1255.03f64.to_bits());
        } else {
            assert_eq!(ill.premium[i], 0.0f64.to_bits());
        }
    }
}

#[test]
fn final_value_is_monotone_in_premium() {
    let rates = default_rate_set();
    let premiums: [f64; 6] = [0.0, 100.0, 500.0, 1255.03, 2000.0, 10000.0];
    let mut previous: Option<f64> = None;
    for p in premiums {
        let ill = project(&rates, 35, 100000.0, p).expect("projection failed");
        let terminal = last_value_end(&ill);
        if let Some(prev) = previous {
            assert!(terminal >= prev, "terminal value decreased when premium rose");
        }
        previous = Some(terminal);
    }
}

#[test]
fn solve_ends_nonnegative_at_a_whole_cent() {
    let rates = default_rate_set();
    let ill = solve(&rates, 35, 100000.0).expect("solve failed");
    assert!(last_value_end(&ill) >= 0.0);
    let premium = f64::from_bits(ill.premium[0]);
    assert!(premium > 0.0);
    let cents: f64 = premium * 100.0;
    assert!((cents - cents.round()).abs() < 1e-6, "premium is not a whole number of cents");
    // the solved premium is minimal at cent precision: one cent less ends negative
    let below = project(&rates, 35, 100000.0, (cents.round() - 1.0) / 100.0)
        .expect("projection failed");
    assert!(last_value_end(&below) < last_value_end(&ill));
}

#[test]
fn missing_curves_are_reported_in_lookup_order() {
    let empty = RateSet::new();
    match ProjectionBuilder::new(&empty, 35, 100000.0f64.to_bits(), 0) {
        Err(EngineError::MissingCurve(CurveKind::PremiumLoads)) => {}
        _ => panic!("expected the first missing curve to be the premium loads"),
    }
    // a set missing only the cost-of-insurance curve
    let mut partial = RateSet::new();
    partial.insert(CurveKind::PremiumLoads, RateCurve::flat(0.06f64.to_bits()));
    partial.insert(CurveKind::PolicyFees, RateCurve::flat(120.0f64.to_bits()));
    partial.insert(CurveKind::UnitLoads, RateCurve::flat(0.0f64.to_bits()));
    partial.insert(CurveKind::CorridorFactors, RateCurve::flat(1.0f64.to_bits()));
    partial.insert(CurveKind::NaarDiscounts, RateCurve::flat(naar_discount().to_bits()));
    partial.insert(CurveKind::InterestRates, RateCurve::flat(interest_rate().to_bits()));
    match ProjectionBuilder::new(&partial, 35, 100000.0f64.to_bits(), 0) {
        Err(EngineError::MissingCurve(CurveKind::CoiRates)) => {}
        _ => panic!("expected the cost-of-insurance curve to be reported missing"),
    }
}

#[test]
fn curve_fill_applies_matching_records_last_wins() {
    let records = vec![
        PolicyYearRecord { issue_age: 35, policy_year: 1, rate_bits: 0.5f64.to_bits() },
        PolicyYearRecord { issue_age: 40, policy_year: 2, rate_bits: 0.9f64.to_bits() },
        PolicyYearRecord { issue_age: 35, policy_year: 121, rate_bits: 0.25f64.to_bits() },
        PolicyYearRecord { issue_age: 35, policy_year: 1, rate_bits: 0.75f64.to_bits() },
    ];
    let c = RateCurve::from_policy_year_records(&records, 35, 0.1f64.to_bits());
    assert_eq!(c.get(0), 0.75f64.to_bits(), "last matching record wins");
    assert_eq!(c.get(1), 0.1f64.to_bits(), "record for another issue age is skipped");
    assert_eq!(c.get(120), 0.25f64.to_bits());
    for idx in 2..120usize {
        assert_eq!(c.get(idx), 0.1f64.to_bits(), "unmatched slots keep the default");
    }
}

#[test]
fn attained_age_records_are_stored_by_duration() {
    let records = vec![
        AttainedAgeRecord { attained_age: 34, rate_bits: 9.0f64.to_bits() },
        AttainedAgeRecord { attained_age: 35, rate_bits: 2.5f64.to_bits() },
        AttainedAgeRecord { attained_age: 60, rate_bits: 1.5f64.to_bits() },
    ];
    let c = RateCurve::from_attained_age_records(&records, 35, 1.0f64.to_bits());
    assert_eq!(c.get(0), 2.5f64.to_bits(), "attained age equal to issue age fills slot 0");
    assert_eq!(c.get(25), 1.5f64.to_bits(), "attained age 60 at issue age 35 fills slot 25");
    assert_eq!(c.get(1), 1.0f64.to_bits(), "ages below issue age are skipped");
}

#[test]
fn cohort_records_filter_on_all_keys() {
    let records = vec![
        CohortRecord {
            gender: "M".to_owned(),
            risk_class: "NS".to_owned(),
            issue_age: 35,
            policy_year: 1,
            rate_bits: 3.0f64.to_bits(),
        },
        CohortRecord {
            gender: "F".to_owned(),
            risk_class: "NS".to_owned(),
            issue_age: 35,
            policy_year: 2,
            rate_bits: 4.0f64.to_bits(),
        },
        CohortRecord {
            gender: "M".to_owned(),
            risk_class: "SM".to_owned(),
            issue_age: 35,
            policy_year: 3,
            rate_bits: 5.0f64.to_bits(),
        },
        CohortRecord {
            gender: "M".to_owned(),
            risk_class: "NS".to_owned(),
            issue_age: 36,
            policy_year: 4,
            rate_bits: 6.0f64.to_bits(),
        },
    ];
    let g = "M".to_owned();
    let rc = "NS".to_owned();
    let c = RateCurve::from_cohort_records(&records, &g, &rc, 35, 0.0f64.to_bits());
    assert_eq!(c.get(0), 3.0f64.to_bits());
    assert_eq!(c.get(1), 0.0f64.to_bits(), "wrong gender is skipped");
    assert_eq!(c.get(2), 0.0f64.to_bits(), "wrong risk class is skipped");
    assert_eq!(c.get(3), 0.0f64.to_bits(), "wrong issue age is skipped");
}

#[test]
fn bracketing_aborts_at_its_cap() {
    let (mut phase, mut action) = solver_start();
    let mut steps: usize = 0;
    while !matches!(action, SolverAction::Abort) {
        assert!(steps < 200, "bracketing did not hit its cap");
        let (next, act) = solve_step(phase, SolverEvent::Terminal { nonpositive: true });
        phase = next;
        action = act;
        steps += 1;
    }
    assert!(matches!(phase, SolverPhase::Aborted));
    assert_eq!(steps as u64, illustrator::solver::BRACKET_CAP + 1);
}

#[test]
fn pool_run_delivers_one_result_per_task() {
    let n: usize = 50;
    let mut tasks: Vec<Task> = Vec::new();
    for _ in 0..n {
        tasks.push(new_default_task());
    }
    let rates = default_rate_set();
    let sequential = project(&rates, 35, 100000.0, 1255.03).expect("projection failed");
    let mut collector = Collector::for_tasks(&tasks);
    let mut delivered: usize = 0;
    for t in &tasks {
        assert!(!collector.is_complete(), "collector completed before all tasks were done");
        let ill = project(
            &rates,
            t.issue_age,
            f64::from_bits(t.face_amount_bits),
            f64::from_bits(t.premium_bits),
        )
        .expect("projection failed");
        // every pooled outcome matches the sequential run bit for bit
        assert_eq!(ill.length, sequential.length);
        for i in 0..ill.length {
            assert_eq!(ill.value_end[i], sequential.value_end[i]);
            assert_eq!(ill.interest[i], sequential.interest[i]);
        }
        collector.record(Ok(ill));
        delivered += 1;
    }
    assert_eq!(delivered, n);
    assert!(collector.is_complete());
    let answer = collector.finish().expect("pool reported a failure");
    assert_eq!(answer.length, sequential.length);
    assert_eq!(answer.value_end[0], sequential.value_end[0]);
}

#[test]
fn new_illustration_is_zeroed() {
    let ill = new_illustration(5);
    assert_eq!(ill.length, 5);
    for i in 0..5 {
        assert_eq!(ill.policy_month[i], 0);
        assert_eq!(ill.policy_year[i], 0);
        assert_eq!(ill.value_start[i], 0);
        assert_eq!(ill.value_end[i], 0);
    }
}
