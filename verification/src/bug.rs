use vstd::prelude::*;
use crate::team::Team;
use crate::vec2::IMPULSE_CAP;
use crate::vec2::Vec2;
use crate::vec2::clamp_intent;
use crate::vec2::spec_clamped_intent;

verus! {

/// The sort of a bug; each sort has its own physique, and some carry a bonus
/// effect in combat.
#[derive(PartialEq, Eq, Structural, Hash, Debug, Copy, Clone)]
pub enum BugSort {
    /// A sturdy all-rounder.
    Beetle,
    /// A bouncy skirmisher.
    Ladybug,
    /// A light striker that deals one extra point of damage on impact.
    Ant,
}

impl BugSort {
    /// The health a bug of this sort starts with and may never exceed.
    pub open spec fn spec_max_health(self) -> int {
        match self {
            BugSort::Beetle => 4,
            BugSort::Ladybug => 4,
            BugSort::Ant => 4,
        }
    }

    /// The largest health a bug of this sort can hold.
    pub fn max_health(&self) -> (h: usize)
        ensures
            h == self.spec_max_health(),
    {
        match self {
            BugSort::Beetle => 4,
            BugSort::Ladybug => 4,
            BugSort::Ant => 4,
        }
    }
}

impl Default for BugSort {
    /// The sort assigned when none is chosen.
    fn default() -> (s: BugSort)
        ensures
            s == BugSort::Beetle,
    {
        BugSort::Beetle
    }
}

/// Health is clamped into `[0, max]` after adding `delta`.
pub open spec fn spec_clamped_health(h: int, delta: int, max: int) -> int {
    if h + delta < 0 {
        0
    } else if h + delta > max {
        max
    } else {
        h + delta
    }
}

/// The game-facing state of one bug. Its position and velocity live in the
/// physics world, owned by the host; this record holds what the rules read.
#[derive(PartialEq, Eq, Structural, Debug, Copy, Clone)]
pub struct BugData {
    /// The bug's sort.
    pub sort: BugSort,
    /// The team the bug fights for.
    pub team: Team,
    /// The impulse the owner intends to apply at the next turn boundary.
    pub impulse_intent: Vec2,
    /// Remaining health; a bug with zero health is dead but never removed.
    pub health: usize,
}

impl BugData {
    /// Well-formedness: health never exceeds the sort's maximum, and the
    /// stored intent never exceeds the impulse cap.
    pub open spec fn wf(self) -> bool {
        &&& self.health <= self.sort.spec_max_health()
        &&& self.impulse_intent.spec_norm_sq() <= IMPULSE_CAP * IMPULSE_CAP
    }

    /// Creates a bug of the given sort and team at full health with no
    /// pending impulse.
    pub fn new(sort: BugSort, team: Team) -> (b: BugData)
        ensures
            b.sort == sort,
            b.team == team,
            b.impulse_intent == (Vec2 { x: 0, y: 0 }),
            b.health == sort.spec_max_health(),
            b.wf(),
    {
        BugData { sort, team, impulse_intent: Vec2 { x: 0, y: 0 }, health: sort.max_health() }
    }

    /// The bug's sort.
    pub fn sort(&self) -> (s: &BugSort)
        ensures
            s == self.sort,
    {
        &self.sort
    }

    /// The bug's team.
    pub fn team(&self) -> (t: &Team)
        ensures
            t == self.team,
    {
        &self.team
    }

    /// The impulse the owner currently intends.
    pub fn impulse_intent(&self) -> (v: &Vec2)
        ensures
            v == self.impulse_intent,
    {
        &self.impulse_intent
    }

    /// Stores an impulse intent, applying the clamp/dead-zone rule: the
    /// stored magnitude never exceeds the cap and inputs inside the dead
    /// zone are zeroed.
    pub fn set_impulse_intent(&mut self, impulse_intent: Vec2)
        ensures
            final(self).impulse_intent == spec_clamped_intent(impulse_intent),
            final(self).impulse_intent.spec_norm_sq() <= IMPULSE_CAP * IMPULSE_CAP,
            final(self).sort == old(self).sort,
            final(self).team == old(self).team,
            final(self).health == old(self).health,
    {
        self.impulse_intent = clamp_intent(impulse_intent);
    }

    /// Remaining health.
    pub fn health(&self) -> (h: usize)
        ensures
            h == self.health,
    {
        self.health
    }

    /// Adds a signed delta to health, clamping into `[0, max_health]`.
    pub fn add_health(&mut self, delta: isize)
        requires
            old(self).wf(),
        ensures
            final(self).health == spec_clamped_health(
                old(self).health as int,
                delta as int,
                old(self).sort.spec_max_health(),
            ),
            final(self).wf(),
            final(self).sort == old(self).sort,
            final(self).team == old(self).team,
            final(self).impulse_intent == old(self).impulse_intent,
    {
        let max: usize = self.sort.max_health();
        if delta >= 0 {
            let d: usize = delta as usize;
            if d >= max - self.health {
                self.health = max;
            } else {
                self.health = self.health + d;
            }
        } else {
            if delta <= -(self.health as isize) {
                self.health = 0;
            } else {
                self.health = self.health - ((-delta) as usize);
            }
        }
    }

    /// Clears the pending impulse intent.
    pub fn reset_impulse_intent(&mut self)
        ensures
            final(self).impulse_intent == (Vec2 { x: 0, y: 0 }),
            final(self).sort == old(self).sort,
            final(self).team == old(self).team,
            final(self).health == old(self).health,
    {
        self.impulse_intent = Vec2 { x: 0, y: 0 };
    }
}

/// The health a bug ends with after a whole sequence of signed deltas, each
/// clamped into `[0, max]` as it is applied.
pub open spec fn spec_health_after(h: int, max: int, deltas: Seq<int>) -> int
    decreases deltas.len(),
{
    if deltas.len() == 0 {
        h
    } else {
        spec_health_after(spec_clamped_health(h, deltas[0], max), max, deltas.drop_first())
    }
}

/// Law: for any sequence of damage or regeneration deltas applied to a
/// well-formed bug, health never leaves `[0, max_health]`; in particular the
/// final health is in that range.
pub proof fn lemma_health_stays_clamped(h: int, max: int, deltas: Seq<int>)
    requires
        0 <= h <= max,
    ensures
        0 <= spec_health_after(h, max, deltas) <= max,
    decreases deltas.len(),
{
    if deltas.len() > 0 {
        lemma_health_stays_clamped(spec_clamped_health(h, deltas[0], max), max, deltas.drop_first());
    }
}

} // verus!
