use vstd::prelude::*;
use std::ops::Shr;
use std::ops::ShrAssign;
use vstd::std_specs::ops::ShrSpecImpl;

verus! {

/// The state of an anomaly detector.
#[derive(PartialEq, Eq, Structural, Debug, Copy, Clone)]
pub enum Anomaly {
    /// No anomaly has been detected.
    Negative,
    /// An anomaly has occurred.
    Positive,
    /// An intervention has been attempted this many times.
    Fixing(usize),
    /// The programmed strategy will not work, so intervening was given up.
    OutOfControl,
}

/// A move of an anomaly detector from one state to another.
#[derive(PartialEq, Eq, Structural, Debug, Copy, Clone)]
pub enum AnomalyTransition {
    /// Negative -> Negative
    Normal,
    /// Negative -> Positive
    Occurred,
    /// Positive -> Positive
    Unhandled,
    /// Positive | OutOfControl -> Negative
    Disappeared,
    /// Fixing(_) -> Negative
    Fixed,
    /// Positive -> Fixing(1), or Fixing(n) -> Fixing(n + 1)
    Fixing,
    /// Fixing(_) -> OutOfControl
    GaveUp,
    /// OutOfControl -> OutOfControl
    HasGivenUp,
}

/// The transition that names the move from `from` to `to`, where that move is legal.
pub open spec fn transition_between(from: Anomaly, to: Anomaly) -> Option<AnomalyTransition> {
    match from {
        Anomaly::Negative => match to {
            Anomaly::Negative => Some(AnomalyTransition::Normal),
            Anomaly::Positive => Some(AnomalyTransition::Occurred),
            _ => None,
        },
        Anomaly::Positive => match to {
            Anomaly::Positive => Some(AnomalyTransition::Unhandled),
            Anomaly::Negative => Some(AnomalyTransition::Disappeared),
            Anomaly::Fixing(j) => if j == 1 { Some(AnomalyTransition::Fixing) } else { None },
            _ => None,
        },
        Anomaly::Fixing(i) => match to {
            Anomaly::Fixing(j) => if i + 1 == j { Some(AnomalyTransition::Fixing) } else { None },
            Anomaly::Negative => Some(AnomalyTransition::Fixed),
            Anomaly::OutOfControl => Some(AnomalyTransition::GaveUp),
            _ => None,
        },
        Anomaly::OutOfControl => match to {
            Anomaly::Negative => Some(AnomalyTransition::Disappeared),
            Anomaly::OutOfControl => Some(AnomalyTransition::HasGivenUp),
            _ => None,
        },
    }
}

/// The state reached from `from` by the transition `t`; a transition that does
/// not apply to `from` leaves it where it is.
pub open spec fn apply_transition(from: Anomaly, t: AnomalyTransition) -> Anomaly {
    match (from, t) {
        (Anomaly::Negative, AnomalyTransition::Occurred) => Anomaly::Positive,
        (Anomaly::Positive, AnomalyTransition::Disappeared) => Anomaly::Negative,
        (Anomaly::OutOfControl, AnomalyTransition::Disappeared) => Anomaly::Negative,
        (Anomaly::Fixing(_), AnomalyTransition::Fixed) => Anomaly::Negative,
        (Anomaly::Positive, AnomalyTransition::Fixing) => Anomaly::Fixing(1),
        (Anomaly::Fixing(n), AnomalyTransition::Fixing) => Anomaly::Fixing((n + 1) as usize),
        (Anomaly::Fixing(_), AnomalyTransition::GaveUp) => Anomaly::OutOfControl,
        _ => from,
    }
}

/// Whether the retry counter of `a` is at its largest value, where counting
/// one more attempt would overflow.
pub open spec fn retry_saturated(a: Anomaly) -> bool {
    a matches Anomaly::Fixing(n) && n == usize::MAX
}

impl Shr for Anomaly {
    type Output = Option<AnomalyTransition>;

    /// The name of the move from `self` to `rhs`, or `None` where that move is
    /// not legal.
    fn shr(self, rhs: Self) -> (res: Option<AnomalyTransition>)
        ensures
            res == transition_between(self, rhs),
    {
        match (self, rhs) {
            (Anomaly::Negative, Anomaly::Negative) => Some(AnomalyTransition::Normal),
            (Anomaly::Negative, Anomaly::Positive) => Some(AnomalyTransition::Occurred),
            (Anomaly::Positive, Anomaly::Positive) => Some(AnomalyTransition::Unhandled),
            (Anomaly::Positive, Anomaly::Negative) => Some(AnomalyTransition::Disappeared),
            (Anomaly::Positive, Anomaly::Fixing(1)) => Some(AnomalyTransition::Fixing),
            (Anomaly::Fixing(i), Anomaly::Fixing(j)) if i < usize::MAX && i + 1 == j => {
                Some(AnomalyTransition::Fixing)
            },
            (Anomaly::Fixing(_), Anomaly::Negative) => Some(AnomalyTransition::Fixed),
            (Anomaly::Fixing(_), Anomaly::OutOfControl) => Some(AnomalyTransition::GaveUp),
            (Anomaly::OutOfControl, Anomaly::Negative) => Some(AnomalyTransition::Disappeared),
            (Anomaly::OutOfControl, Anomaly::OutOfControl) => Some(AnomalyTransition::HasGivenUp),
            _ => None,
        }
    }
}

impl ShrSpecImpl for Anomaly {
    open spec fn obeys_shr_spec() -> bool {
        true
    }

    open spec fn shr_req(self, rhs: Anomaly) -> bool {
        true
    }

    open spec fn shr_spec(self, rhs: Anomaly) -> Option<AnomalyTransition> {
        transition_between(self, rhs)
    }
}

impl Shr<AnomalyTransition> for Anomaly {
    type Output = Anomaly;

    /// The state that `rhs` leads to from `self`.
    fn shr(self, rhs: AnomalyTransition) -> (res: Anomaly)
        ensures
            res == apply_transition(self, rhs),
    {
        match (self, rhs) {
            (Anomaly::Negative, AnomalyTransition::Occurred) => Anomaly::Positive,
            (Anomaly::Positive, AnomalyTransition::Disappeared) => Anomaly::Negative,
            (Anomaly::OutOfControl, AnomalyTransition::Disappeared) => Anomaly::Negative,
            (Anomaly::Fixing(_), AnomalyTransition::Fixed) => Anomaly::Negative,
            (Anomaly::Positive, AnomalyTransition::Fixing) => Anomaly::Fixing(1),
            (Anomaly::Fixing(n), AnomalyTransition::Fixing) => Anomaly::Fixing(n + 1),
            (Anomaly::Fixing(_), AnomalyTransition::GaveUp) => Anomaly::OutOfControl,
            _ => self,
        }
    }
}

impl ShrSpecImpl<AnomalyTransition> for Anomaly {
    open spec fn obeys_shr_spec() -> bool {
        true
    }

    open spec fn shr_req(self, rhs: AnomalyTransition) -> bool {
        !(retry_saturated(self) && rhs == AnomalyTransition::Fixing)
    }

    open spec fn shr_spec(self, rhs: AnomalyTransition) -> Anomaly {
        apply_transition(self, rhs)
    }
}

impl ShrAssign<AnomalyTransition> for Anomaly {
    /// Moves `self` along `rhs`.
    fn shr_assign(&mut self, rhs: AnomalyTransition)
        requires
            !(retry_saturated(*old(self)) && rhs == AnomalyTransition::Fixing),
        ensures
            *final(self) == apply_transition(*old(self), rhs),
    {
        let next = *self >> rhs;
        *self = next;
    }
}

/// The retry counter of a state: none before an intervention, the number of
/// attempts while fixing, and the largest `usize` once given up.
pub open spec fn retry_count(a: Anomaly) -> usize {
    match a {
        Anomaly::Negative | Anomaly::Positive => 0,
        Anomaly::Fixing(n) => n,
        Anomaly::OutOfControl => usize::MAX,
    }
}

/// The transition that an escalation takes from `a` when at most `max_retry`
/// interventions are allowed.
pub open spec fn escalation(a: Anomaly, max_retry: usize) -> AnomalyTransition {
    match a {
        Anomaly::Negative => AnomalyTransition::Occurred,
        Anomaly::Positive => AnomalyTransition::Fixing,
        Anomaly::Fixing(n) => if n < max_retry {
            AnomalyTransition::Fixing
        } else {
            AnomalyTransition::GaveUp
        },
        Anomaly::OutOfControl => AnomalyTransition::HasGivenUp,
    }
}

/// The transition that takes `a` back to `Negative` when the anomaly is no
/// longer observed.
pub open spec fn diminishing(a: Anomaly) -> AnomalyTransition {
    match a {
        Anomaly::Negative => AnomalyTransition::Normal,
        Anomaly::Positive => AnomalyTransition::Disappeared,
        Anomaly::Fixing(_) => AnomalyTransition::Fixed,
        Anomaly::OutOfControl => AnomalyTransition::Disappeared,
    }
}

/// The state reached from `a` after `k` escalations in a row.
pub open spec fn escalated(a: Anomaly, max_retry: usize, k: nat) -> Anomaly
    decreases k,
{
    if k == 0 {
        a
    } else {
        let prev = escalated(a, max_retry, (k - 1) as nat);
        apply_transition(prev, escalation(prev, max_retry))
    }
}

impl Anomaly {
    /// The retry counter of this state (see `retry_count`).
    pub fn get_retry_unchecked(&self) -> (res: usize)
        ensures
            res == retry_count(*self),
    {
        match self {
            Anomaly::Negative | Anomaly::Positive => 0,
            Anomaly::Fixing(n) => *n,
            Anomaly::OutOfControl => usize::MAX,
        }
    }

    /// The transition to take when the anomaly is observed (again): it occurs,
    /// then an intervention is attempted, retried while fewer than `max_retry`
    /// attempts were made, and given up after that.
    pub fn escalate(&self, max_retry: usize) -> (res: AnomalyTransition)
        ensures
            res == escalation(*self, max_retry),
            transition_between(*self, apply_transition(*self, res)) == Some(res),
    {
        match self {
            Anomaly::Negative => (*self >> Anomaly::Positive).unwrap(),
            Anomaly::Positive => (*self >> Anomaly::Fixing(1)).unwrap(),
            Anomaly::Fixing(n) => if *n < max_retry {
                AnomalyTransition::Fixing
            } else {
                (*self >> Anomaly::OutOfControl).unwrap()
            },
            Anomaly::OutOfControl => (*self >> Anomaly::OutOfControl).unwrap(),
        }
    }

    /// The transition to take when the anomaly is no longer observed; it
    /// always leads back to `Negative`.
    pub fn diminish(&self) -> (res: AnomalyTransition)
        ensures
            res == diminishing(*self),
            transition_between(*self, Anomaly::Negative) == Some(res),
    {
        (*self >> Anomaly::Negative).unwrap()
    }
}

/// A legal move is reproduced by its name: where `a >> b` names a transition
/// `t`, applying `t` to `a` (`a >> t`) gives `b`.
pub proof fn lemma_transition_reaches_target(from: Anomaly, to: Anomaly)
    ensures
        transition_between(from, to) matches Some(t) ==> apply_transition(from, t) == to,
{
}

/// Diminishing always brings a detector back to `Negative`, with its retry
/// counter cleared.
pub proof fn lemma_diminish_resets(a: Anomaly)
    ensures
        apply_transition(a, diminishing(a)) == Anomaly::Negative,
        retry_count(apply_transition(a, diminishing(a))) == 0,
{
}

/// The transition that an escalation takes is the legal move to the state it
/// leads to.
pub proof fn lemma_escalation_is_legal(a: Anomaly, max_retry: usize)
    ensures
        transition_between(a, apply_transition(a, escalation(a, max_retry)))
            == Some(escalation(a, max_retry)),
{
}

/// Escalating never lowers the retry counter.
pub proof fn lemma_escalation_monotone(a: Anomaly, max_retry: usize)
    ensures
        retry_count(a) <= retry_count(apply_transition(a, escalation(a, max_retry))),
{
}

/// An anomaly that persists from `Negative` goes through `Positive`, then the
/// attempts `Fixing(1)`, ..., `Fixing(max_retry)` (at least one attempt is
/// made), and is given up at the escalation after that, where it stays.
pub proof fn lemma_escalation_schedule(max_retry: usize, k: nat)
    ensures
        escalated(Anomaly::Negative, max_retry, k) == (if k == 0 {
            Anomaly::Negative
        } else if k == 1 {
            Anomaly::Positive
        } else if k <= (if max_retry == 0 { 1 } else { max_retry as int }) + 1 {
            Anomaly::Fixing((k - 1) as usize)
        } else {
            Anomaly::OutOfControl
        }),
    decreases k,
{
    if k > 0 {
        lemma_escalation_schedule(max_retry, (k - 1) as nat);
    }
}

/// Each transition names exactly the moves that its documentation lists:
/// `Normal` Negative -> Negative, `Occurred` Negative -> Positive, `Unhandled`
/// Positive -> Positive, `Disappeared` Positive | OutOfControl -> Negative,
/// `Fixed` Fixing(_) -> Negative, `Fixing` Positive -> Fixing(1) or
/// Fixing(n) -> Fixing(n + 1), `GaveUp` Fixing(_) -> OutOfControl and
/// `HasGivenUp` OutOfControl -> OutOfControl; `a >> b` is `None` for every
/// other pair.
pub proof fn lemma_transition_names(a: Anomaly, b: Anomaly)
    ensures
        (transition_between(a, b) == Some(AnomalyTransition::Normal)) <==> (a is Negative && b is Negative),
        (transition_between(a, b) == Some(AnomalyTransition::Occurred)) <==> (a is Negative && b is Positive),
        (transition_between(a, b) == Some(AnomalyTransition::Unhandled)) <==> (a is Positive && b is Positive),
        (transition_between(a, b) == Some(AnomalyTransition::Disappeared)) <==> ((a is Positive
            || a is OutOfControl) && b is Negative),
        (transition_between(a, b) == Some(AnomalyTransition::Fixed)) <==> (a is Fixing && b is Negative),
        (transition_between(a, b) == Some(AnomalyTransition::Fixing)) <==> ((a is Positive && b
            == Anomaly::Fixing(1)) || (a is Fixing && b is Fixing && b->0 == a->0 + 1)),
        (transition_between(a, b) == Some(AnomalyTransition::GaveUp)) <==> (a is Fixing && b is OutOfControl),
        (transition_between(a, b) == Some(AnomalyTransition::HasGivenUp)) <==> (a is OutOfControl
            && b is OutOfControl),
        (transition_between(a, b) is None) <==> !((a is Negative && (b is Negative || b is Positive))
            || (a is Positive && (b is Positive || b is Negative || b == Anomaly::Fixing(1))) || (
        a is Fixing && (b is Negative || b is OutOfControl || (b is Fixing && b->0 == a->0 + 1)))
            || (a is OutOfControl && (b is Negative || b is OutOfControl))),
{
}

/// What applying each transition does: `Occurred` takes Negative to Positive,
/// `Disappeared` takes Positive and OutOfControl to Negative, `Fixed` takes
/// every Fixing(n) to Negative, `Fixing` takes Positive to Fixing(1) and
/// Fixing(n) to Fixing(n + 1), `GaveUp` takes every Fixing(n) to
/// OutOfControl; and a transition only ever moves a state along a move that it
/// names, leaving the state as it is otherwise.
pub proof fn lemma_transition_effects(a: Anomaly, t: AnomalyTransition)
    requires
        !(retry_saturated(a) && t == AnomalyTransition::Fixing),
    ensures
        apply_transition(a, t) == a || transition_between(a, apply_transition(a, t)) == Some(t),
        (a is Negative && t == AnomalyTransition::Occurred) ==> apply_transition(a, t) == Anomaly::Positive,
        ((a is Positive || a is OutOfControl) && t == AnomalyTransition::Disappeared) ==> apply_transition(a, t)
            == Anomaly::Negative,
        (a is Fixing && t == AnomalyTransition::Disappeared) ==> apply_transition(a, t) == a,
        (a is Fixing && t == AnomalyTransition::Fixed) ==> apply_transition(a, t) == Anomaly::Negative,
        (a is Positive && t == AnomalyTransition::Fixing) ==> apply_transition(a, t) == Anomaly::Fixing(1),
        (a is Fixing && t == AnomalyTransition::Fixing) ==> apply_transition(a, t) == Anomaly::Fixing(
            (a->0 + 1) as usize,
        ),
        (a is Fixing && t == AnomalyTransition::Unhandled) ==> apply_transition(a, t) == a,
        (a is Fixing && t == AnomalyTransition::GaveUp) ==> apply_transition(a, t) == Anomaly::OutOfControl,
{
}

/// The name of each escalation step: an anomaly that occurs on `Negative` is
/// `Occurred`; an intervention is `Fixing`, from `Positive` to `Fixing(1)` and
/// from `Fixing(n)` to `Fixing(n + 1)` while `n < max_retry`; from
/// `Fixing(n)` with `n >= max_retry` the step is `GaveUp`, to `OutOfControl`;
/// and `OutOfControl` stays there, `HasGivenUp`. No escalation is named
/// `Normal`, `Unhandled`, `Disappeared` or `Fixed`.
pub proof fn lemma_escalation_names(a: Anomaly, max_retry: usize)
    ensures
        (escalation(a, max_retry) == AnomalyTransition::Occurred) <==> a is Negative,
        (escalation(a, max_retry) == AnomalyTransition::Fixing) <==> (a is Positive || (a is Fixing
            && a->0 < max_retry)),
        (escalation(a, max_retry) == AnomalyTransition::GaveUp) <==> (a is Fixing && a->0 >= max_retry),
        (escalation(a, max_retry) == AnomalyTransition::HasGivenUp) <==> a is OutOfControl,
        a is Negative ==> apply_transition(a, escalation(a, max_retry)) == Anomaly::Positive,
        a is Positive ==> apply_transition(a, escalation(a, max_retry)) == Anomaly::Fixing(1),
        (a is Fixing && a->0 < max_retry) ==> apply_transition(a, escalation(a, max_retry))
            == Anomaly::Fixing((a->0 + 1) as usize),
        (a is Fixing && a->0 >= max_retry) ==> apply_transition(a, escalation(a, max_retry))
            == Anomaly::OutOfControl,
        a is OutOfControl ==> apply_transition(a, escalation(a, max_retry)) == Anomaly::OutOfControl,
{
}

/// The name of each diminishing step: `Normal` from `Negative`, `Fixed` from
/// every `Fixing(n)` (the intervention worked), `Disappeared` from `Positive`
/// and `OutOfControl` (the anomaly went away by itself).
pub proof fn lemma_diminish_names(a: Anomaly)
    ensures
        (diminishing(a) == AnomalyTransition::Normal) <==> a is Negative,
        (diminishing(a) == AnomalyTransition::Fixed) <==> a is Fixing,
        (diminishing(a) == AnomalyTransition::Disappeared) <==> (a is Positive || a is OutOfControl),
{
}

/// The retry counter counts interventions: none before the first one, `n` in
/// `Fixing(n)`, the largest `usize` once given up; each intervention adds one
/// and a diminishing clears it.
pub proof fn lemma_retry_counts(a: Anomaly, max_retry: usize)
    ensures
        (a is Negative || a is Positive) ==> retry_count(a) == 0,
        a is Fixing ==> retry_count(a) == a->0,
        a is OutOfControl ==> retry_count(a) == usize::MAX,
        (a is Fixing && a->0 < max_retry) ==> retry_count(apply_transition(a, escalation(a, max_retry)))
            == retry_count(a) + 1,
        a is Positive ==> retry_count(apply_transition(a, escalation(a, max_retry))) == 1,
        retry_count(apply_transition(a, diminishing(a))) == 0,
{
}

} // verus!
