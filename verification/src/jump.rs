use vstd::prelude::*;

verus! {

/// The sign of a jump-cancel threshold, as `f32::signum` classifies it.
#[derive(Clone, Copy, Debug, PartialEq, Eq, Structural)]
pub enum ThresholdSign {
    /// `signum` is `1.0`: the threshold limits upward boosts.
    Positive,
    /// `signum` is `-1.0`: the threshold limits downward boosts.
    Negative,
    /// `signum` is NaN (a NaN threshold): no velocity compares past it.
    Undefined,
}

/// What the cancel logic reads of a threshold and the current vertical velocity.
#[derive(Clone, Copy, Debug, PartialEq, Eq, Structural)]
pub struct ThresholdReading {
    /// The sign of the threshold.
    pub sign: ThresholdSign,
    /// The vertical velocity is strictly greater than the threshold.
    pub velocity_above: bool,
    /// The vertical velocity is strictly less than the threshold.
    pub velocity_below: bool,
}

/// The side towards which the velocity is clamped after a cancel.
#[derive(Clone, Copy, Debug, PartialEq, Eq, Structural)]
pub enum ClampBound {
    /// The velocity becomes at most the threshold (`min`).
    AtMost,
    /// The velocity becomes at least the threshold (`max`).
    AtLeast,
}

/// Which impulse rule a cancel applies to the vertical velocity.
#[derive(Clone, Copy, Debug, PartialEq, Eq, Structural)]
pub enum CancelImpulse {
    /// The pre-apex rule: the jump is canceled before reaching its apex.
    PreApex,
    /// The post-apex rule: the jump is canceled at or after its apex.
    PostApex,
    /// No rule is set for the side of the apex the cancel falls on; the
    /// velocity is kept (and still clamped).
    Unchanged,
}

/// The outcome of a jump cancel that goes ahead.
#[derive(Clone, Copy, Debug, PartialEq, Eq, Structural)]
pub struct CancelPlan {
    /// The impulse rule to apply.
    pub impulse: CancelImpulse,
    /// The clamp against the threshold, present exactly when a threshold is set.
    pub clamp: Option<ClampBound>,
}

/// The directional threshold check: a threshold with a positive sign blocks
/// velocities above it, one with a negative sign velocities below it.
pub open spec fn threshold_blocks(r: ThresholdReading) -> bool {
    match r.sign {
        ThresholdSign::Positive => r.velocity_above,
        ThresholdSign::Negative => r.velocity_below,
        ThresholdSign::Undefined => false,
    }
}

/// The clamp direction for a threshold: `min` for a positive sign, `max` otherwise.
pub open spec fn clamp_bound_of(r: ThresholdReading) -> ClampBound {
    if r.sign == ThresholdSign::Positive {
        ClampBound::AtMost
    } else {
        ClampBound::AtLeast
    }
}

/// A cancel is refused while grounded, when neither rule is set, or when
/// the threshold check blocks it.
pub open spec fn cancel_refused(
    is_grounded: bool,
    has_pre_apex: bool,
    has_post_apex: bool,
    threshold: Option<ThresholdReading>,
) -> bool {
    ||| is_grounded
    ||| !has_pre_apex && !has_post_apex
    ||| (threshold matches Some(r) && threshold_blocks(r))
}

/// Before the apex the pre-apex rule applies, at or after it the post-apex
/// rule; when the rule for that side is not set, none applies.
pub open spec fn impulse_for(
    has_pre_apex: bool,
    has_post_apex: bool,
    time_since_grounded_nanos: u128,
    time_to_apex_nanos: u128,
) -> CancelImpulse {
    if time_since_grounded_nanos < time_to_apex_nanos {
        if has_pre_apex {
            CancelImpulse::PreApex
        } else {
            CancelImpulse::Unchanged
        }
    } else if has_post_apex {
        CancelImpulse::PostApex
    } else {
        CancelImpulse::Unchanged
    }
}

/// The clamp of a cancel: the threshold's direction when a threshold is set.
pub open spec fn clamp_for(threshold: Option<ThresholdReading>) -> Option<ClampBound> {
    match threshold {
        Some(r) => Some(clamp_bound_of(r)),
        None => None,
    }
}

/// The decision a jump cancel makes.
pub open spec fn cancel_plan_spec(
    is_grounded: bool,
    has_pre_apex: bool,
    has_post_apex: bool,
    threshold: Option<ThresholdReading>,
    time_since_grounded_nanos: u128,
    time_to_apex_nanos: u128,
) -> Option<CancelPlan> {
    if cancel_refused(is_grounded, has_pre_apex, has_post_apex, threshold) {
        None
    } else {
        Some(
            CancelPlan {
                impulse: impulse_for(
                    has_pre_apex,
                    has_post_apex,
                    time_since_grounded_nanos,
                    time_to_apex_nanos,
                ),
                clamp: clamp_for(threshold),
            },
        )
    }
}

impl ThresholdReading {
    /// Whether this threshold prevents the cancel from boosting the velocity.
    pub fn blocks_cancel(&self) -> (blocks: bool)
        ensures
            blocks == threshold_blocks(*self),
            blocks <==> (self.sign == ThresholdSign::Positive && self.velocity_above) || (self.sign
                == ThresholdSign::Negative && self.velocity_below),
    {
        match self.sign {
            ThresholdSign::Positive => self.velocity_above,
            ThresholdSign::Negative => self.velocity_below,
            ThresholdSign::Undefined => false,
        }
    }

    /// The direction in which the velocity is clamped against this threshold.
    pub fn clamp_bound(&self) -> (bound: ClampBound)
        ensures
            bound == clamp_bound_of(*self),
            bound == ClampBound::AtMost <==> self.sign == ThresholdSign::Positive,
    {
        match self.sign {
            ThresholdSign::Positive => ClampBound::AtMost,
            _ => ClampBound::AtLeast,
        }
    }
}

/// The clamp of an admitted cancel, or `None` when the cancel is refused.
pub open spec fn admission_spec(
    is_grounded: bool,
    has_pre_apex: bool,
    has_post_apex: bool,
    threshold: Option<ThresholdReading>,
) -> Option<Option<ClampBound>> {
    if cancel_refused(is_grounded, has_pre_apex, has_post_apex, threshold) {
        None
    } else {
        Some(clamp_for(threshold))
    }
}

/// Decides whether a jump cancel goes ahead, before any timing is looked at.
///
/// Returns `None` when the cancel leaves the velocity alone: the character
/// is grounded, the mode sets neither rule, or the threshold blocks it.
/// Otherwise returns the clamp to apply after the impulse (`None` inside
/// when the mode sets no threshold).
pub fn admit_cancel(
    is_grounded: bool,
    has_pre_apex: bool,
    has_post_apex: bool,
    threshold: Option<ThresholdReading>,
) -> (admitted: Option<Option<ClampBound>>)
    ensures
        admitted == admission_spec(is_grounded, has_pre_apex, has_post_apex, threshold),
        admitted is Some <==> !is_grounded && (has_pre_apex || has_post_apex) && !(threshold matches Some(
            r) && ((r.sign == ThresholdSign::Positive && r.velocity_above) || (r.sign
            == ThresholdSign::Negative && r.velocity_below))),
        admitted matches Some(c) ==> (threshold is None ==> c is None),
        admitted matches Some(c) ==> (threshold matches Some(r) ==> c == Some(
            if r.sign == ThresholdSign::Positive {
                ClampBound::AtMost
            } else {
                ClampBound::AtLeast
            },
        )),
        is_grounded ==> admitted is None,
        !has_pre_apex && !has_post_apex ==> admitted is None,
        threshold matches Some(r) && r.sign == ThresholdSign::Positive && r.velocity_above
            ==> admitted is None,
        threshold matches Some(r) && r.sign == ThresholdSign::Negative && r.velocity_below
            ==> admitted is None,
        admitted matches Some(c) ==> (c is Some <==> threshold is Some),
        admitted matches Some(c) ==> (threshold matches Some(r) ==> (c == Some(ClampBound::AtMost)
            <==> r.sign == ThresholdSign::Positive)),
{
    if is_grounded {
        return None;
    }
    if !has_pre_apex && !has_post_apex {
        return None;
    }
    match threshold {
        Some(reading) => {
            if reading.blocks_cancel() {
                None
            } else {
                Some(Some(reading.clamp_bound()))
            }
        },
        None => Some(None),
    }
}

/// Chooses the impulse rule of an admitted cancel from the time since the
/// character left the ground and the time to the jump's apex (nanoseconds).
pub fn choose_impulse(
    has_pre_apex: bool,
    has_post_apex: bool,
    time_since_grounded_nanos: u128,
    time_to_apex_nanos: u128,
) -> (impulse: CancelImpulse)
    ensures
        impulse == impulse_for(
            has_pre_apex,
            has_post_apex,
            time_since_grounded_nanos,
            time_to_apex_nanos,
        ),
        time_since_grounded_nanos < time_to_apex_nanos && has_pre_apex ==> impulse
            == CancelImpulse::PreApex,
        time_since_grounded_nanos < time_to_apex_nanos && !has_pre_apex ==> impulse
            == CancelImpulse::Unchanged,
        time_since_grounded_nanos >= time_to_apex_nanos && has_post_apex ==> impulse
            == CancelImpulse::PostApex,
        time_since_grounded_nanos >= time_to_apex_nanos && !has_post_apex ==> impulse
            == CancelImpulse::Unchanged,
        impulse == CancelImpulse::PreApex ==> has_pre_apex && time_since_grounded_nanos
            < time_to_apex_nanos,
        impulse == CancelImpulse::PostApex ==> has_post_apex && time_since_grounded_nanos
            >= time_to_apex_nanos,
        impulse == CancelImpulse::Unchanged ==> (time_since_grounded_nanos < time_to_apex_nanos
            && !has_pre_apex) || (time_since_grounded_nanos >= time_to_apex_nanos
            && !has_post_apex),
{
    if time_since_grounded_nanos < time_to_apex_nanos {
        if has_pre_apex {
            CancelImpulse::PreApex
        } else {
            CancelImpulse::Unchanged
        }
    } else if has_post_apex {
        CancelImpulse::PostApex
    } else {
        CancelImpulse::Unchanged
    }
}

/// Decides what canceling a jump does to the vertical velocity.
///
/// `has_pre_apex` and `has_post_apex` say which rules the cancel mode sets,
/// `threshold` is present when the mode sets a threshold, and the two times
/// are the time since the character left the ground and the time the jump
/// takes to reach its apex, both in nanoseconds. `None` means the cancel
/// leaves the velocity alone.
pub fn plan_cancel(
    is_grounded: bool,
    has_pre_apex: bool,
    has_post_apex: bool,
    threshold: Option<ThresholdReading>,
    time_since_grounded_nanos: u128,
    time_to_apex_nanos: u128,
) -> (plan: Option<CancelPlan>)
    ensures
        plan == cancel_plan_spec(
            is_grounded,
            has_pre_apex,
            has_post_apex,
            threshold,
            time_since_grounded_nanos,
            time_to_apex_nanos,
        ),
        plan is Some <==> !is_grounded && (has_pre_apex || has_post_apex) && !(threshold matches Some(
            r) && ((r.sign == ThresholdSign::Positive && r.velocity_above) || (r.sign
            == ThresholdSign::Negative && r.velocity_below))),
        is_grounded ==> plan is None,
        !has_pre_apex && !has_post_apex ==> plan is None,
        plan matches Some(p) ==> (p.impulse == CancelImpulse::PreApex ==> has_pre_apex
            && time_since_grounded_nanos < time_to_apex_nanos),
        plan matches Some(p) ==> (p.impulse == CancelImpulse::PostApex ==> has_post_apex
            && time_since_grounded_nanos >= time_to_apex_nanos),
        plan matches Some(p) ==> (p.clamp is Some <==> threshold is Some),
{
    match admit_cancel(is_grounded, has_pre_apex, has_post_apex, threshold) {
        None => None,
        Some(clamp) => {
            let impulse = choose_impulse(
                has_pre_apex,
                has_post_apex,
                time_since_grounded_nanos,
                time_to_apex_nanos,
            );
            Some(CancelPlan { impulse, clamp })
        },
    }
}

/// Whether a jump cancel goes ahead, and how it clamps, does not depend on
/// how long the character has been airborne or on the time to the apex.
pub proof fn lemma_cancel_outcome_independent_of_time(
    is_grounded: bool,
    has_pre_apex: bool,
    has_post_apex: bool,
    threshold: Option<ThresholdReading>,
    t1: u128,
    apex1: u128,
    t2: u128,
    apex2: u128,
)
    ensures
        cancel_plan_spec(is_grounded, has_pre_apex, has_post_apex, threshold, t1, apex1) is None
            <==> cancel_plan_spec(
            is_grounded,
            has_pre_apex,
            has_post_apex,
            threshold,
            t2,
            apex2,
        ) is None,
        cancel_plan_spec(is_grounded, has_pre_apex, has_post_apex, threshold, t1, apex1) matches Some(
            p1,
        ) ==> cancel_plan_spec(is_grounded, has_pre_apex, has_post_apex, threshold, t2, apex2)
            matches Some(p2) && p1.clamp == p2.clamp,
{
}

/// Once a cancel of a jump falls at or after the apex, a cancel at any later
/// time of the same jump is decided the same way: the apex stays passed.
pub proof fn lemma_apex_passed_stays_passed(
    is_grounded: bool,
    has_pre_apex: bool,
    has_post_apex: bool,
    threshold: Option<ThresholdReading>,
    time_to_apex_nanos: u128,
    earlier: u128,
    later: u128,
)
    requires
        time_to_apex_nanos <= earlier <= later,
    ensures
        cancel_plan_spec(is_grounded, has_pre_apex, has_post_apex, threshold, later, time_to_apex_nanos)
            == cancel_plan_spec(
            is_grounded,
            has_pre_apex,
            has_post_apex,
            threshold,
            earlier,
            time_to_apex_nanos,
        ),
        cancel_plan_spec(is_grounded, has_pre_apex, has_post_apex, threshold, later, time_to_apex_nanos)
            matches Some(p) ==> p.impulse != CancelImpulse::PreApex,
{
}

/// A cancel never uses the pre-apex rule after the apex, nor the post-apex
/// rule before it: each rule applies exactly on its side of the apex, when set.
pub proof fn lemma_rules_apply_on_their_side_of_apex(
    has_pre_apex: bool,
    has_post_apex: bool,
    time_since_grounded_nanos: u128,
    time_to_apex_nanos: u128,
)
    ensures
        impulse_for(has_pre_apex, has_post_apex, time_since_grounded_nanos, time_to_apex_nanos)
            == CancelImpulse::PreApex <==> has_pre_apex && time_since_grounded_nanos
            < time_to_apex_nanos,
        impulse_for(has_pre_apex, has_post_apex, time_since_grounded_nanos, time_to_apex_nanos)
            == CancelImpulse::PostApex <==> has_post_apex && time_since_grounded_nanos
            >= time_to_apex_nanos,
{
}

/// A planned cancel is an admitted cancel with the impulse rule chosen for
/// its timing: the plan exists exactly when the cancel is admitted, and it
/// carries the admitted clamp.
pub proof fn lemma_plan_is_admission_then_impulse(
    is_grounded: bool,
    has_pre_apex: bool,
    has_post_apex: bool,
    threshold: Option<ThresholdReading>,
    time_since_grounded_nanos: u128,
    time_to_apex_nanos: u128,
)
    ensures
        match admission_spec(is_grounded, has_pre_apex, has_post_apex, threshold) {
            None => cancel_plan_spec(
                is_grounded,
                has_pre_apex,
                has_post_apex,
                threshold,
                time_since_grounded_nanos,
                time_to_apex_nanos,
            ) is None,
            Some(clamp) => cancel_plan_spec(
                is_grounded,
                has_pre_apex,
                has_post_apex,
                threshold,
                time_since_grounded_nanos,
                time_to_apex_nanos,
            ) == Some(
                CancelPlan {
                    impulse: impulse_for(
                        has_pre_apex,
                        has_post_apex,
                        time_since_grounded_nanos,
                        time_to_apex_nanos,
                    ),
                    clamp,
                },
            ),
        },
{
}

/// A jump cancel is refused exactly when the character is grounded, when the
/// mode sets neither rule, or when the velocity lies past a directional
/// threshold: above a positive one, or below a negative one. In every other
/// case it goes ahead, clamped with `min` against a positive threshold, with
/// `max` against any other threshold, and not at all without a threshold.
pub proof fn lemma_admission_exactly_when_unblocked(
    is_grounded: bool,
    has_pre_apex: bool,
    has_post_apex: bool,
    threshold: Option<ThresholdReading>,
)
    ensures
        admission_spec(is_grounded, has_pre_apex, has_post_apex, threshold) is None <==> {
            ||| is_grounded
            ||| !has_pre_apex && !has_post_apex
            ||| threshold matches Some(r) && r.sign == ThresholdSign::Positive && r.velocity_above
            ||| threshold matches Some(r) && r.sign == ThresholdSign::Negative && r.velocity_below
        },
        admission_spec(is_grounded, has_pre_apex, has_post_apex, threshold) matches Some(c) ==> (
        match threshold {
            None => c is None,
            Some(r) => (r.sign == ThresholdSign::Positive ==> c == Some(ClampBound::AtMost)) && (
            r.sign != ThresholdSign::Positive ==> c == Some(ClampBound::AtLeast)),
        }),
{
}

/// A planned cancel exists at every time of the jump exactly when the cancel
/// is admitted: not grounded, some rule set, and the velocity not past a
/// directional threshold. Before the apex it uses the pre-apex rule when that
/// is set and keeps the velocity otherwise; at or after the apex it uses the
/// post-apex rule when that is set and keeps the velocity otherwise.
pub proof fn lemma_plan_exactly_when_unblocked(
    is_grounded: bool,
    has_pre_apex: bool,
    has_post_apex: bool,
    threshold: Option<ThresholdReading>,
    time_since_grounded_nanos: u128,
    time_to_apex_nanos: u128,
)
    ensures
        cancel_plan_spec(
            is_grounded,
            has_pre_apex,
            has_post_apex,
            threshold,
            time_since_grounded_nanos,
            time_to_apex_nanos,
        ) is Some <==> {
            &&& !is_grounded
            &&& has_pre_apex || has_post_apex
            &&& !(threshold matches Some(r) && r.sign == ThresholdSign::Positive && r.velocity_above)
            &&& !(threshold matches Some(r) && r.sign == ThresholdSign::Negative && r.velocity_below)
        },
        cancel_plan_spec(
            is_grounded,
            has_pre_apex,
            has_post_apex,
            threshold,
            time_since_grounded_nanos,
            time_to_apex_nanos,
        ) matches Some(p) ==> {
            &&& time_since_grounded_nanos < time_to_apex_nanos && has_pre_apex ==> p.impulse
                == CancelImpulse::PreApex
            &&& time_since_grounded_nanos < time_to_apex_nanos && !has_pre_apex ==> p.impulse
                == CancelImpulse::Unchanged
            &&& time_since_grounded_nanos >= time_to_apex_nanos && has_post_apex ==> p.impulse
                == CancelImpulse::PostApex
            &&& time_since_grounded_nanos >= time_to_apex_nanos && !has_post_apex ==> p.impulse
                == CancelImpulse::Unchanged
            &&& (p.clamp is Some <==> threshold is Some)
        },
{
}

/// A threshold blocks a cancel exactly when the velocity lies past it in its
/// own direction: above a positive threshold, below a negative one; a
/// threshold of undefined sign never blocks.
pub proof fn lemma_threshold_blocks_exactly_past_its_direction(r: ThresholdReading)
    ensures
        threshold_blocks(r) <==> (r.sign == ThresholdSign::Positive && r.velocity_above) || (r.sign
            == ThresholdSign::Negative && r.velocity_below),
        r.sign == ThresholdSign::Undefined ==> !threshold_blocks(r),
{
}

} // verus!
