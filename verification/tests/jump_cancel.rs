use ahoy_jump::jump::{
    admit_cancel, choose_impulse, plan_cancel, CancelImpulse, CancelPlan, ClampBound,
    ThresholdReading, ThresholdSign,
};

const MS: u128 = 1_000_000;

fn reading(sign: ThresholdSign, above: bool, below: bool) -> ThresholdReading {
    ThresholdReading { sign, velocity_above: above, velocity_below: below }
}

#[test]
fn grounded_never_cancels() {
    assert_eq!(plan_cancel(true, true, true, None, 10 * MS, 400 * MS), None);
    assert_eq!(admit_cancel(true, true, true, None), None);
}

#[test]
fn mode_without_rules_never_cancels() {
    assert_eq!(plan_cancel(false, false, false, None, 10 * MS, 400 * MS), None);
}

#[test]
fn positive_threshold_blocks_velocity_above() {
    let r = reading(ThresholdSign::Positive, true, false);
    assert!(r.blocks_cancel());
    assert_eq!(plan_cancel(false, true, true, Some(r), 10 * MS, 400 * MS), None);
}

#[test]
fn positive_threshold_lets_velocity_below_through_and_clamps_at_most() {
    let r = reading(ThresholdSign::Positive, false, true);
    assert!(!r.blocks_cancel());
    assert_eq!(r.clamp_bound(), ClampBound::AtMost);
    assert_eq!(
        plan_cancel(false, true, true, Some(r), 10 * MS, 400 * MS),
        Some(CancelPlan { impulse: CancelImpulse::PreApex, clamp: Some(ClampBound::AtMost) })
    );
}

#[test]
fn negative_threshold_blocks_velocity_below() {
    let r = reading(ThresholdSign::Negative, false, true);
    assert!(r.blocks_cancel());
    assert_eq!(plan_cancel(false, true, true, Some(r), 10 * MS, 400 * MS), None);
}

#[test]
fn negative_threshold_lets_velocity_above_through_and_clamps_at_least() {
    let r = reading(ThresholdSign::Negative, true, false);
    assert!(!r.blocks_cancel());
    assert_eq!(r.clamp_bound(), ClampBound::AtLeast);
    assert_eq!(
        plan_cancel(false, false, true, Some(r), 500 * MS, 400 * MS),
        Some(CancelPlan { impulse: CancelImpulse::PostApex, clamp: Some(ClampBound::AtLeast) })
    );
}

#[test]
fn undefined_threshold_never_blocks() {
    let r = reading(ThresholdSign::Undefined, true, true);
    assert!(!r.blocks_cancel());
    assert_eq!(r.clamp_bound(), ClampBound::AtLeast);
    assert_eq!(admit_cancel(false, true, false, Some(r)), Some(Some(ClampBound::AtLeast)));
}

#[test]
fn velocity_equal_to_threshold_is_not_blocked() {
    let r = reading(ThresholdSign::Positive, false, false);
    assert_eq!(admit_cancel(false, true, true, Some(r)), Some(Some(ClampBound::AtMost)));
}

#[test]
fn pre_apex_rule_before_apex() {
    assert_eq!(choose_impulse(true, true, 399 * MS, 400 * MS), CancelImpulse::PreApex);
}

#[test]
fn post_apex_rule_at_and_after_apex() {
    assert_eq!(choose_impulse(true, true, 400 * MS, 400 * MS), CancelImpulse::PostApex);
    assert_eq!(choose_impulse(true, true, 900 * MS, 400 * MS), CancelImpulse::PostApex);
}

#[test]
fn before_apex_without_pre_apex_rule_keeps_velocity() {
    assert_eq!(choose_impulse(false, true, 10 * MS, 400 * MS), CancelImpulse::Unchanged);
    assert_eq!(
        plan_cancel(false, false, true, None, 0, 1_000 * MS),
        Some(CancelPlan { impulse: CancelImpulse::Unchanged, clamp: None })
    );
}

#[test]
fn no_rule_after_apex_keeps_velocity() {
    assert_eq!(choose_impulse(true, false, 500 * MS, 400 * MS), CancelImpulse::Unchanged);
    assert_eq!(
        plan_cancel(false, true, false, None, 500 * MS, 400 * MS),
        Some(CancelPlan { impulse: CancelImpulse::Unchanged, clamp: None })
    );
}

#[test]
fn zero_time_to_apex_is_past_the_apex() {
    assert_eq!(choose_impulse(true, true, 0, 0), CancelImpulse::PostApex);
}

#[test]
fn cancel_outcome_does_not_depend_on_time() {
    let r = Some(reading(ThresholdSign::Positive, false, true));
    let early = plan_cancel(false, true, true, r, 0, 400 * MS);
    let late = plan_cancel(false, true, true, r, 2_000 * MS, 400 * MS);
    assert!(early.is_some() && late.is_some());
    assert_eq!(early.unwrap().clamp, late.unwrap().clamp);
    let blocked = Some(reading(ThresholdSign::Positive, true, false));
    assert_eq!(plan_cancel(false, true, true, blocked, 0, 400 * MS), None);
    assert_eq!(plan_cancel(false, true, true, blocked, 2_000 * MS, 400 * MS), None);
}

#[test]
fn apex_passed_stays_passed() {
    let first = plan_cancel(false, true, true, None, 400 * MS, 400 * MS);
    let later = plan_cancel(false, true, true, None, 700 * MS, 400 * MS);
    assert_eq!(first, Some(CancelPlan { impulse: CancelImpulse::PostApex, clamp: None }));
    assert_eq!(first, later);
}

#[test]
fn plan_is_admission_then_impulse() {
    let r = Some(reading(ThresholdSign::Negative, true, false));
    let clamp = admit_cancel(false, true, true, r).unwrap();
    let impulse = choose_impulse(true, true, 100 * MS, 400 * MS);
    assert_eq!(
        plan_cancel(false, true, true, r, 100 * MS, 400 * MS),
        Some(CancelPlan { impulse, clamp })
    );
}
