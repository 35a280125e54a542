use vstd::prelude::*;
use crate::character::CharacterState;

verus! {

/// Route an enemy follows: waypoints and the one it heads for.
pub struct EnemyPath<T> {
    pub waypoints: Vec<T>,
    pub current_index: usize,
}

/// The waypoint at `index`, if there is one.
pub open spec fn waypoint_at<T>(waypoints: Seq<T>, index: int) -> Option<T> {
    if 0 <= index < waypoints.len() { Some(waypoints[index]) } else { None }
}

/// A freshly planned route starts at the enemy's own position: its first
/// point is dropped, unless it is the only one.
pub open spec fn trimmed_route<T>(waypoints: Seq<T>) -> Seq<T> {
    if waypoints.len() > 1 { waypoints.drop_first() } else { waypoints }
}

impl<T: Copy> Default for EnemyPath<T> {
    fn default() -> (path: EnemyPath<T>)
        ensures
            path.waypoints@.len() == 0,
            path.current_index == 0,
    {
        EnemyPath { waypoints: Vec::new(), current_index: 0 }
    }
}

impl<T: Copy> EnemyPath<T> {
    /// The waypoint the enemy heads for, if the route is not finished.
    pub fn current_waypoint(&self) -> (waypoint: Option<T>)
        ensures
            waypoint == waypoint_at(self.waypoints@, self.current_index as int),
    {
        if self.current_index < self.waypoints.len() {
            Some(self.waypoints[self.current_index])
        } else {
            None
        }
    }

    /// Moves on to the next waypoint; tells whether the route is now finished.
    pub fn advance(&mut self) -> (finished: bool)
        requires
            old(self).current_index < usize::MAX,
        ensures
            final(self).current_index == old(self).current_index + 1,
            final(self).waypoints@ == old(self).waypoints@,
            finished == (final(self).current_index >= final(self).waypoints@.len()),
    {
        self.current_index = self.current_index + 1;
        self.current_index >= self.waypoints.len()
    }

    /// Whether a waypoint remains to be reached.
    pub fn has_path(&self) -> (remaining: bool)
        ensures
            remaining == (self.current_index < self.waypoints@.len()),
    {
        !self.waypoints.is_empty() && self.current_index < self.waypoints.len()
    }

    /// Takes a newly planned route, dropping its first point (the enemy's own
    /// position) unless it is the only one. The current route is kept when
    /// `is_near` says that its current waypoint and the new route's first
    /// point are close, so that an enemy does not stutter between routes that
    /// agree; otherwise the new route is followed from its start.
    pub fn set_path<F: Fn(T, T) -> bool>(&mut self, waypoints: Vec<T>, is_near: F)
        requires
            forall|a: T, b: T| is_near.requires((a, b)),
        ensures
            ({
                let route = trimmed_route(waypoints@);
                let current = waypoint_at(old(self).waypoints@, old(self).current_index as int);
                let replaced = final(self).waypoints@ == route && final(self).current_index == 0;
                let kept = final(self).waypoints@ == old(self).waypoints@
                    && final(self).current_index == old(self).current_index;
                &&& (current is None || route.len() == 0) ==> replaced
                &&& (current is Some && route.len() > 0) ==> (
                    (kept && is_near.ensures((current.unwrap(), route[0]), true))
                    || (replaced && is_near.ensures((current.unwrap(), route[0]), false)))
            }),
    {
        let ghost given = waypoints@;
        let mut new_waypoints: Vec<T>;
        if waypoints.len() > 1 {
            new_waypoints = Vec::new();
            let mut i: usize = 1;
            while i < waypoints.len()
                invariant
                    1 <= i <= waypoints@.len(),
                    new_waypoints@ == waypoints@.subrange(1, i as int),
                decreases waypoints@.len() - i,
            {
                new_waypoints.push(waypoints[i]);
                i = i + 1;
                assert(new_waypoints@ =~= waypoints@.subrange(1, i as int));
            }
            assert(new_waypoints@ =~= given.drop_first());
        } else {
            new_waypoints = waypoints;
        }
        if let Some(current_target) = self.current_waypoint() {
            if new_waypoints.len() > 0 {
                let new_first = new_waypoints[0];
                if is_near(current_target, new_first) {
                    return;
                }
            }
        }
        self.waypoints = new_waypoints;
        self.current_index = 0;
    }
}

/// A planned route of two or more points loses exactly its first point (the
/// enemy's own position), keeping the rest in order; a route of at most one
/// point is taken whole.
pub proof fn lemma_trimmed_route<T>(waypoints: Seq<T>)
    ensures
        waypoints.len() >= 2 ==> trimmed_route(waypoints).len() == waypoints.len() - 1,
        waypoints.len() >= 2 ==> forall|i: int| 0 <= i < waypoints.len() - 1
            ==> #[trigger] trimmed_route(waypoints)[i] == waypoints[i + 1],
        waypoints.len() <= 1 ==> trimmed_route(waypoints) == waypoints,
{
}

/// What an enemy does this frame about the player.
#[derive(Clone, Copy, Debug, PartialEq, Eq, Structural)]
pub enum ChaseAction {
    /// The player is out of sight: stand still.
    Rest,
    /// The player is within reach: stand still facing the player.
    Attack,
    /// Walk towards the player along a route.
    Pursue,
}

/// What an enemy in `state` does, given where the player is: out of
/// detection range it rests; within attack range it stops to attack, the
/// range being extended (by twenty units) while it already stands still so
/// that it does not stutter at the edge; otherwise it pursues.
/// `within_attack_range` and `within_extended_attack_range` compare the
/// player's distance with the attack range and with the extended one.
pub fn chase_action(
    state: CharacterState,
    within_detection: bool,
    within_attack_range: bool,
    within_extended_attack_range: bool,
) -> (action: ChaseAction)
    ensures
        action == chase_spec(state, within_detection, within_attack_range, within_extended_attack_range),
{
    if !within_detection {
        return ChaseAction::Rest;
    }
    let in_reach = if state == CharacterState::Idle {
        within_extended_attack_range
    } else {
        within_attack_range
    };
    if in_reach {
        ChaseAction::Attack
    } else {
        ChaseAction::Pursue
    }
}

/// How a pursuing enemy refreshes its route.
#[derive(Clone, Copy, Debug, PartialEq, Eq, Structural)]
pub enum RepathPlan {
    /// Follow the current route.
    Keep,
    /// No route yet: plan one; when planning succeeds, take it and restart
    /// the replanning timer.
    Plan,
    /// The replanning timer ran out: restart it and plan again; take the new
    /// route when planning succeeds.
    Replan,
}

/// How the route is refreshed this frame.
pub fn repath_plan(has_path: bool, timer_expired: bool) -> (plan: RepathPlan)
    ensures
        plan == (if !has_path {
            RepathPlan::Plan
        } else if timer_expired {
            RepathPlan::Replan
        } else {
            RepathPlan::Keep
        }),
{
    if !has_path {
        RepathPlan::Plan
    } else if timer_expired {
        RepathPlan::Replan
    } else {
        RepathPlan::Keep
    }
}

/// Movement state an enemy takes for a chase action: it stands still unless
/// pursuing.
pub fn state_for_action(action: ChaseAction) -> (state: CharacterState)
    ensures
        state == (match action {
            ChaseAction::Pursue => CharacterState::Walking,
            _ => CharacterState::Idle,
        }),
{
    match action {
        ChaseAction::Pursue => CharacterState::Walking,
        _ => CharacterState::Idle,
    }
}

/// An enemy that loses sight of the player rests whatever else holds, and an
/// enemy only attacks a player it can see.
pub proof fn lemma_chase_priorities(state: CharacterState, within_attack_range: bool, within_extended_attack_range: bool)
    ensures
        chase_spec(state, false, within_attack_range, within_extended_attack_range) == ChaseAction::Rest,
        within_attack_range && within_extended_attack_range ==> chase_spec(state, true, within_attack_range, within_extended_attack_range)
            == ChaseAction::Attack,
        !within_attack_range && !within_extended_attack_range ==> chase_spec(state, true, within_attack_range, within_extended_attack_range)
            == ChaseAction::Pursue,
{
}

/// A seen player is never ignored, and whether the enemy attacks depends on
/// its own state: a standing enemy attacks within the extended range, a
/// moving one only within the attack range itself.
pub proof fn lemma_chase_ranges(state: CharacterState, within_attack_range: bool, within_extended_attack_range: bool)
    ensures
        chase_spec(state, true, within_attack_range, within_extended_attack_range) != ChaseAction::Rest,
        state == CharacterState::Idle ==> (chase_spec(state, true, within_attack_range, within_extended_attack_range)
            == ChaseAction::Attack <==> within_extended_attack_range),
        state != CharacterState::Idle ==> (chase_spec(state, true, within_attack_range, within_extended_attack_range)
            == ChaseAction::Attack <==> within_attack_range),
{
}

/// The decision `chase_action` makes.
pub open spec fn chase_spec(
    state: CharacterState,
    within_detection: bool,
    within_attack_range: bool,
    within_extended_attack_range: bool,
) -> ChaseAction {
    if !within_detection {
        ChaseAction::Rest
    } else if (if state == CharacterState::Idle { within_extended_attack_range } else { within_attack_range }) {
        ChaseAction::Attack
    } else {
        ChaseAction::Pursue
    }
}

} // verus!
