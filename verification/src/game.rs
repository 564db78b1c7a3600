use vstd::prelude::*;
use crate::bug::BugData;
use crate::bug::BugSort;
use crate::bug::spec_clamped_health;
use crate::team::GameResult;
use crate::team::Team;
use crate::lobby::Player;
use crate::net::Message;
use crate::turn::Turn;
use crate::turn::TurnView;
use crate::turn::spec_lookup_intent;
use crate::vec2::Vec2;
use crate::vec2::spec_clamped_intent;

verus! {

/// Entity identifiers below this value name bugs; identifiers at or above it
/// name props.
pub const PROP_ID_BASE: usize = 0xff;

/// Wall-clock ticks per second driven by the host.
pub const TICKS_PER_SECOND: u64 = 60;

/// Length of one turn window, in seconds.
pub const TURN_DURATION: u64 = 16;

/// Ticks in one turn window.
pub const TURN_TICK_COUNT: u64 = 960;

/// The tick within a window at which turn-boundary resolution runs.
pub const TURN_TICK_COUNT_HALF: u64 = 240;

/// Squared speed (milli-units per second, squared) above which a contact
/// between enemies causes damage: 2 world units per second.
pub const IMPACT_SPEED_SQ: u64 = 4_000_000;

/// A marker entity with no mutable state: purely an obstacle in the physics
/// world.
#[derive(PartialEq, Eq, Structural, Debug, Copy, Clone)]
pub struct PropData {}

/// A touching pair reported by the host's physics step: the two entity ids,
/// their current velocities and the deepest contact point.
#[derive(PartialEq, Eq, Structural, Debug, Copy, Clone)]
pub struct Contact {
    /// First entity of the pair.
    pub id_a: usize,
    /// Second entity of the pair.
    pub id_b: usize,
    /// Velocity of the first entity, milli-units per second.
    pub vel_a: Vec2,
    /// Velocity of the second entity, milli-units per second.
    pub vel_b: Vec2,
    /// The contact point, milli-units.
    pub point: Vec2,
}

/// A qualifying impact: an enemy pair that met above the speed threshold,
/// ordered so that the faster entity comes first.
#[derive(PartialEq, Eq, Structural, Debug, Copy, Clone)]
pub struct Impact {
    /// The faster entity; its sort decides bonus damage.
    pub attacker: usize,
    /// The slower entity; it takes any bonus damage.
    pub victim: usize,
    /// The contact point, milli-units.
    pub point: Vec2,
}

/// What the host must do after one scheduler tick, in order.
#[derive(Debug)]
pub enum TickAction {
    /// Apply these `(bug id, impulse)` pairs to the rigid bodies, then run
    /// one physics substep and report its contacts.
    ApplyImpulses(Vec<(usize, Vec2)>),
    /// Run one physics substep and report its contacts.
    StepPhysics,
    /// Gather bug positions and resolve the turn boundary.
    ResolveBoundary,
}

/// The mathematical content of a sequence of turns.
pub open spec fn spec_history(ts: Seq<Turn>) -> Seq<TurnView> {
    ts.map_values(|t: Turn| t@)
}

/// Whether a turn is accepted against a history: the history is empty or the
/// index strictly exceeds the last applied index.
pub open spec fn spec_accepts(h: Seq<TurnView>, t: TurnView) -> bool {
    h.len() == 0 || t.index > h.last().index
}

/// The indices of applied turns are strictly increasing.
pub open spec fn spec_indices_increasing(h: Seq<TurnView>) -> bool {
    forall|i: int, j: int| 0 <= i < j < h.len() ==> h[i].index < h[j].index
}

/// The history after offering one turn: appended if accepted, unchanged
/// otherwise.
pub open spec fn spec_apply_one_history(h: Seq<TurnView>, t: TurnView) -> Seq<TurnView> {
    if spec_accepts(h, t) {
        h.push(t)
    } else {
        h
    }
}

/// The history after offering a whole queue, first-come-first-applied.
pub open spec fn spec_apply_queue(h: Seq<TurnView>, q: Seq<TurnView>) -> Seq<TurnView>
    decreases q.len(),
{
    if q.len() == 0 {
        h
    } else {
        spec_apply_queue(spec_apply_one_history(h, q[0]), q.drop_first())
    }
}

/// All bugs with their pending intents cleared.
pub open spec fn spec_zero_intents(bugs: Seq<BugData>) -> Seq<BugData> {
    bugs.map_values(|b: BugData| BugData { impulse_intent: Vec2 { x: 0, y: 0 }, ..b })
}

/// The intent bug `i` (zero-based) ends with when turn `t` is applied: the
/// turn's clamped entry for its id if the turn carries one, else the intent
/// already stored.
pub open spec fn spec_merged_intent(bugs: Seq<BugData>, t: TurnView, i: int) -> Vec2 {
    match spec_lookup_intent(t.impulse_intents, (i + 1) as usize) {
        Some(v) => spec_clamped_intent(v),
        None => bugs[i].impulse_intent,
    }
}

/// Each component doubled: the fixed multiplier from stored intent to the
/// impulse handed to the physics world.
pub open spec fn spec_doubled(v: Vec2) -> Vec2 {
    Vec2 { x: (2 * v.x) as i32, y: (2 * v.y) as i32 }
}

/// The starting lineup: twelve bugs on a symmetric layout, the first six Red
/// and the rest Blue, cycling through the three sorts.
pub open spec fn spec_starting_bug(i: int) -> BugData {
    BugData {
        sort: if i % 3 == 0 {
            BugSort::Beetle
        } else if i % 3 == 1 {
            BugSort::Ladybug
        } else {
            BugSort::Ant
        },
        team: if i < 6 {
            Team::Red
        } else {
            Team::Blue
        },
        impulse_intent: Vec2 { x: 0, y: 0 },
        health: 4,
    }
}

/// Division rounded toward zero, for a positive divisor.
pub open spec fn spec_trunc_div(a: int, b: int) -> int {
    if a >= 0 {
        a / b
    } else {
        -((-a) / b)
    }
}

/// The capture progress as a normalized fraction of the bug count, in
/// permille, clamped to the `i64` range.
pub open spec fn spec_normalized_progress(progress: int, count: int) -> int {
    if count == 0 {
        0
    } else {
        let scaled = spec_trunc_div(progress * 1000, count);
        if scaled > i64::MAX {
            i64::MAX as int
        } else if scaled < i64::MIN {
            i64::MIN as int
        } else {
            scaled
        }
    }
}

/// One aiming update: if the entry names an existing bug of the acting
/// player's team that is still alive, that bug's intent is set (clamped);
/// any other entry is silently ignored.
pub open spec fn spec_act_entry(bugs: Seq<BugData>, e: (usize, Vec2), team: Team) -> Seq<BugData> {
    let id = e.0;
    if 1 <= id <= bugs.len() && bugs[id - 1].team == team && bugs[id - 1].health > 1 {
        bugs.update(id - 1, BugData { impulse_intent: spec_clamped_intent(e.1), ..bugs[id - 1] })
    } else {
        bugs
    }
}

/// A whole batch of aiming updates applied in order.
pub open spec fn spec_act_entries(bugs: Seq<BugData>, es: Seq<(usize, Vec2)>, team: Team) -> Seq<
    BugData,
>
    decreases es.len(),
{
    if es.len() == 0 {
        bugs
    } else {
        spec_act_entries(spec_act_entry(bugs, es[0], team), es.drop_first(), team)
    }
}

/// Whether the next tick would land on a turn-window wrap-around, the
/// instant at which the scheduler tries to dequeue a turn.
pub open spec fn spec_at_wrap(ticks: u64) -> bool {
    (ticks + 1) % (TURN_TICK_COUNT as int) == 0
}

/// How much scheduler work remains before the queue must be empty: a whole
/// window per queued turn, plus the distance to the next wrap-around.
pub open spec fn spec_sched_measure(ticks: u64, qlen: int) -> int {
    qlen * (TURN_TICK_COUNT as int) + ((TURN_TICK_COUNT as int) - ((ticks as int + 1) % (
    TURN_TICK_COUNT as int))) % (TURN_TICK_COUNT as int)
}

/// Contribution of one bug to the capture tally: living bugs inside the
/// capture radius count +1 for Red and -1 for Blue.
pub open spec fn spec_capture_contrib(b: BugData, p: Vec2, radius: int) -> int {
    if p.spec_norm_sq() < radius * radius && b.health > 1 {
        if b.team == Team::Red {
            1
        } else {
            -1
        }
    } else {
        0
    }
}

/// The capture tally over the first `n` bugs.
pub open spec fn spec_capture_tally(bugs: Seq<BugData>, ps: Seq<Vec2>, radius: int, n: int) -> int
    decreases n,
{
    if n <= 0 {
        0
    } else {
        spec_capture_tally(bugs, ps, radius, n - 1) + spec_capture_contrib(
            bugs[n - 1],
            ps[n - 1],
            radius,
        )
    }
}

/// Every bug regains one health point, clamped to its sort's maximum.
pub open spec fn spec_regen(bugs: Seq<BugData>) -> Seq<BugData> {
    bugs.map_values(
        |b: BugData|
            BugData {
                health: spec_clamped_health(b.health as int, 1, b.sort.spec_max_health()) as usize,
                ..b
            },
    )
}

/// Signed 64-bit saturating addition.
pub open spec fn spec_sat_add_i64(a: int, b: int) -> int {
    if a + b > i64::MAX {
        i64::MAX as int
    } else if a + b < i64::MIN {
        i64::MIN as int
    } else {
        a + b
    }
}

/// A contact names two existing bugs.
pub open spec fn spec_contact_valid(bugs: Seq<BugData>, c: Contact) -> bool {
    1 <= c.id_a <= bugs.len() && 1 <= c.id_b <= bugs.len()
}

/// The larger of the two squared speeds in a contact.
pub open spec fn spec_max_speed_sq(c: Contact) -> int {
    if c.vel_a.spec_norm_sq() >= c.vel_b.spec_norm_sq() {
        c.vel_a.spec_norm_sq()
    } else {
        c.vel_b.spec_norm_sq()
    }
}

/// A contact causes damage exactly when both bugs exist, the faster one
/// moves above the speed threshold and the two belong to opposing teams.
pub open spec fn spec_is_impact(bugs: Seq<BugData>, c: Contact) -> bool {
    &&& spec_contact_valid(bugs, c)
    &&& spec_max_speed_sq(c) > IMPACT_SPEED_SQ
    &&& bugs[c.id_a - 1].team != bugs[c.id_b - 1].team
}

/// Orders a damaging contact so that the faster entity is the attacker.
pub open spec fn spec_to_impact(c: Contact) -> Impact {
    if c.vel_a.spec_norm_sq() >= c.vel_b.spec_norm_sq() {
        Impact { attacker: c.id_a, victim: c.id_b, point: c.point }
    } else {
        Impact { attacker: c.id_b, victim: c.id_a, point: c.point }
    }
}

/// The contacts that name two existing bugs, in report order.
pub open spec fn spec_valid_contacts(bugs: Seq<BugData>, cs: Seq<Contact>) -> Seq<Contact>
    decreases cs.len(),
{
    if cs.len() == 0 {
        Seq::empty()
    } else if spec_contact_valid(bugs, cs[0]) {
        seq![cs[0]] + spec_valid_contacts(bugs, cs.drop_first())
    } else {
        spec_valid_contacts(bugs, cs.drop_first())
    }
}

/// The damaging impacts derived from a contact report, in report order.
pub open spec fn spec_impacts(bugs: Seq<BugData>, cs: Seq<Contact>) -> Seq<Impact>
    decreases cs.len(),
{
    if cs.len() == 0 {
        Seq::empty()
    } else if spec_is_impact(bugs, cs[0]) {
        seq![spec_to_impact(cs[0])] + spec_impacts(bugs, cs.drop_first())
    } else {
        spec_impacts(bugs, cs.drop_first())
    }
}

/// One impact applied to the bugs: the attacker loses one health point, the
/// victim loses one, and one more if the attacker is an Ant; each loss is
/// clamped at zero.
pub open spec fn spec_apply_impact(bugs: Seq<BugData>, im: Impact) -> Seq<BugData> {
    let a = im.attacker - 1;
    let v = im.victim - 1;
    let ba = bugs[a];
    let bugs1 = bugs.update(
        a,
        BugData {
            health: spec_clamped_health(ba.health as int, -1, ba.sort.spec_max_health()) as usize,
            ..ba
        },
    );
    let bv = bugs1[v];
    let bugs2 = bugs1.update(
        v,
        BugData {
            health: spec_clamped_health(bv.health as int, -1, bv.sort.spec_max_health()) as usize,
            ..bv
        },
    );
    if bugs1[a].sort == BugSort::Ant {
        let bv2 = bugs2[v];
        bugs2.update(
            v,
            BugData {
                health: spec_clamped_health(bv2.health as int, -1, bv2.sort.spec_max_health())
                    as usize,
                ..bv2
            },
        )
    } else {
        bugs2
    }
}

/// A whole list of impacts applied in order.
pub open spec fn spec_apply_impacts(bugs: Seq<BugData>, ims: Seq<Impact>) -> Seq<BugData>
    decreases ims.len(),
{
    if ims.len() == 0 {
        bugs
    } else {
        spec_apply_impacts(spec_apply_impact(bugs, ims[0]), ims.drop_first())
    }
}

/// The scheduler measure is non-negative and under one window per queued
/// turn plus one.
proof fn lemma_sched_measure_bounds(ticks: u64, qlen: int)
    requires
        qlen >= 0,
    ensures
        0 <= spec_sched_measure(ticks, qlen) < (qlen + 1) * (TURN_TICK_COUNT as int),
{
    let c: int = TURN_TICK_COUNT as int;
    let t: int = ticks as int;
    vstd::arithmetic::div_mod::lemma_mod_bound(t + 1, c);
    vstd::arithmetic::div_mod::lemma_mod_bound(c - ((t + 1) % c), c);
    assert(qlen * c + (c - ((t + 1) % c)) % c < (qlen + 1) * c) by (nonlinear_arith)
        requires
            0 <= (c - ((t + 1) % c)) % c < c,
    ;
    assert(qlen * c >= 0) by (nonlinear_arith)
        requires
            qlen >= 0 && c > 0,
    ;
}

/// One scheduler step shrinks the measure by exactly one: a wrap-around
/// consumes a queued turn, any other step closes in on the next wrap.
proof fn lemma_sched_step_measure(ticks: u64, qlen: int)
    requires
        qlen >= 1,
        ticks < u64::MAX,
    ensures
        spec_at_wrap(ticks) ==> spec_sched_measure((ticks + 1) as u64, qlen - 1)
            == spec_sched_measure(ticks, qlen) - 1,
        !spec_at_wrap(ticks) ==> spec_sched_measure((ticks + 1) as u64, qlen)
            == spec_sched_measure(ticks, qlen) - 1,
{
    let c: int = TURN_TICK_COUNT as int;
    let t: int = ticks as int;
    let r1: int = (t + 1) % c;
    let r2: int = (t + 2) % c;
    vstd::arithmetic::div_mod::lemma_mod_bound(t + 1, c);
    vstd::arithmetic::div_mod::lemma_mod_bound(t + 2, c);
    vstd::arithmetic::div_mod::lemma_add_mod_noop(t + 1, 1, c);
    vstd::arithmetic::div_mod::lemma_small_mod(1nat, c as nat);
    assert(r2 == (r1 + 1) % c);
    vstd::arithmetic::div_mod::lemma_mod_self_0(c);
    if r1 == c - 1 {
        assert(r2 == 0);
    } else {
        vstd::arithmetic::div_mod::lemma_small_mod((r1 + 1) as nat, c as nat);
        assert(r2 == r1 + 1);
    }
    if r1 == 0 {
        vstd::arithmetic::div_mod::lemma_small_mod((c - 1) as nat, c as nat);
        assert((c - r1) % c == 0);
        assert((c - r2) % c == c - 1);
        assert((qlen - 1) * c + (c - 1) == qlen * c - 1) by (nonlinear_arith);
    } else {
        vstd::arithmetic::div_mod::lemma_small_mod((c - r1) as nat, c as nat);
        assert((c - r1) % c == c - r1);
        if r1 == c - 1 {
            assert((c - r2) % c == 0);
        } else {
            vstd::arithmetic::div_mod::lemma_small_mod((c - r2) as nat, c as nat);
            assert((c - r2) % c == c - r1 - 1);
        }
    }
}

/// Clearing every intent twice is the same as clearing it once.
proof fn lemma_zero_intents_idempotent(bugs: Seq<BugData>)
    ensures
        spec_zero_intents(spec_zero_intents(bugs)) == spec_zero_intents(bugs),
{
    assert(spec_zero_intents(bugs).len() == bugs.len());
    assert(spec_zero_intents(spec_zero_intents(bugs)) =~= spec_zero_intents(bugs));
}

/// An accepted turn keeps the history strictly increasing.
proof fn lemma_push_increasing(h: Seq<TurnView>, t: TurnView)
    requires
        spec_indices_increasing(h),
        spec_accepts(h, t),
    ensures
        spec_indices_increasing(h.push(t)),
{
    let h1 = h.push(t);
    assert forall|i: int, j: int| 0 <= i < j < h1.len() implies h1[i].index < h1[j].index by {
        if j == h.len() {
            assert(h1[j] == t);
            assert(h1[i] == h[i]);
            if i < h.len() - 1 {
                assert(h[i].index < h[h.len() - 1].index);
            }
            assert(h.last() == h[h.len() - 1]);
        } else {
            assert(h1[i] == h[i] && h1[j] == h[j]);
        }
    }
}

/// Law (monotonic acceptance): offering any queue of turns to a history in
/// first-come-first-applied order keeps the history's indices strictly
/// increasing, never rewrites what was already applied, and appends only
/// turns taken from the queue. Together with the definition of
/// [`spec_apply_queue`] — each turn is accepted exactly when its index
/// exceeds the last applied index — the appended part is exactly the maximal
/// strictly-increasing subsequence obtainable first-come-first-applied.
pub proof fn lemma_monotonic_acceptance(h: Seq<TurnView>, q: Seq<TurnView>)
    requires
        spec_indices_increasing(h),
    ensures
        spec_indices_increasing(spec_apply_queue(h, q)),
        spec_apply_queue(h, q).len() >= h.len(),
        forall|i: int| 0 <= i < h.len() ==> #[trigger] spec_apply_queue(h, q)[i] == h[i],
        forall|i: int|
            h.len() <= i < spec_apply_queue(h, q).len() ==> q.contains(
                #[trigger] spec_apply_queue(h, q)[i],
            ),
    decreases q.len(),
{
    if q.len() > 0 {
        let h1 = spec_apply_one_history(h, q[0]);
        if spec_accepts(h, q[0]) {
            lemma_push_increasing(h, q[0]);
        }
        lemma_monotonic_acceptance(h1, q.drop_first());
        let res = spec_apply_queue(h, q);
        assert(res == spec_apply_queue(h1, q.drop_first()));
        assert forall|i: int| h.len() <= i < res.len() implies q.contains(#[trigger] res[i]) by {
            if i < h1.len() {
                assert(res[i] == h1[i]);
                assert(h1[i] == q[0]);
                assert(q[0] == q[0]);
            } else {
                assert(q.drop_first().contains(res[i]));
                let j: int = choose|j: int|
                    0 <= j < q.drop_first().len() && q.drop_first()[j] == res[i];
                assert(q[j + 1] == res[i]);
            }
        }
    }
}

/// Law (idempotent replay): offering the same turn twice in a row changes
/// the history exactly as offering it once; in particular an accepted turn
/// is rejected on replay, and a rejected [`Game::execute_turn`] leaves the
/// whole game untouched, so replaying a turn never changes the game state.
pub proof fn lemma_idempotent_replay(h: Seq<TurnView>, t: TurnView)
    ensures
        spec_apply_one_history(spec_apply_one_history(h, t), t) == spec_apply_one_history(h, t),
        spec_accepts(h, t) ==> !spec_accepts(spec_apply_one_history(h, t), t),
{
    let h1 = spec_apply_one_history(h, t);
    if spec_accepts(h, t) {
        assert(h1 == h.push(t));
        assert(h1.last() == t);
    }
}

/// The turn-paced simulation core. Owns the entity store, tick counter, turn
/// history, pending-turn queue and capture-zone state. The floating-point
/// physics world itself lives with the host, which feeds contact reports and
/// positions back in as plain values.
pub struct Game {
    /// Bug with id `i + 1` sits at index `i`; bugs are never removed.
    pub bugs: Vec<BugData>,
    /// Props; the prop with id `PROP_ID_BASE + k` sits at index `k`.
    pub props: Vec<PropData>,
    /// Monotonically increasing tick counter; does not advance while the
    /// scheduler stalls waiting for a turn.
    pub ticks: u64,
    /// Ordered, append-only history of applied turns.
    pub turns: Vec<Turn>,
    /// Turns that arrived but have not been applied yet, in arrival order.
    pub queued_turns: Vec<Turn>,
    /// Radius of the capture zone around the origin, milli-units.
    pub capture_radius: i32,
    /// Signed dwell-time score: positive favours Red.
    pub capture_progress: i64,
    /// The raw bug-pair contacts seen at the last physics substep.
    pub bug_collisions: Vec<Contact>,
    /// The damaging impacts derived from the last physics substep.
    pub bug_impacts: Vec<Impact>,
}

impl Game {
    /// The applied turn history, as mathematical values.
    pub open spec fn history(self) -> Seq<TurnView> {
        spec_history(self.turns@)
    }

    /// The pending queue, as mathematical values.
    pub open spec fn queued(self) -> Seq<TurnView> {
        spec_history(self.queued_turns@)
    }

    /// Well-formedness: every bug is well formed, the history's indices are
    /// strictly increasing, and bug ids stay below the prop range.
    pub open spec fn wf(self) -> bool {
        &&& forall|i: int| 0 <= i < self.bugs@.len() ==> (#[trigger] self.bugs@[i]).wf()
        &&& spec_indices_increasing(self.history())
        &&& self.bugs@.len() < PROP_ID_BASE
        &&& self.capture_radius >= 0
    }

    /// Returns copies of the applied turns, skipping the first `since`.
    pub fn turns_since(&self, since: usize) -> (r: Vec<Turn>)
        ensures
            spec_history(r@) == self.history().skip(
                if since as int <= self.history().len() {
                    since as int
                } else {
                    self.history().len() as int
                },
            ),
    {
        let n: usize = self.turns.len();
        let start: usize = if since <= n {
            since
        } else {
            n
        };
        let mut r: Vec<Turn> = Vec::new();
        let mut i: usize = start;
        proof {
            assert(spec_history(r@) =~= self.history().subrange(start as int, start as int));
        }
        while i < n
            invariant
                start <= i <= n,
                n == self.turns@.len(),
                self.history().len() == n,
                forall|k: int| 0 <= k < n ==> #[trigger] self.history()[k] == self.turns@[k]@,
                r@.len() == i - start,
                spec_history(r@).len() == i - start,
                spec_history(r@) == self.history().subrange(start as int, i as int),
            decreases n - i,
        {
            let t: Turn = self.turns[i].clone();
            proof {
                assert(t@ =~= self.turns@[i as int]@);
            }
            let ghost r0: Seq<Turn> = r@;
            r.push(t);
            proof {
                assert forall|k: int| 0 <= k < r@.len() implies #[trigger] spec_history(r@)[k]
                    == self.history().subrange(start as int, i as int + 1)[k] by {
                    assert(spec_history(r@)[k] == r@[k]@);
                    assert(self.history().subrange(start as int, i as int + 1)[k] == self.history()[
                    start + k]);
                    assert(self.history()[start + k] == self.turns@[start + k]@);
                    if k < r0.len() {
                        assert(r@[k] == r0[k]);
                        assert(spec_history(r0)[k] == r0[k]@);
                        assert(spec_history(r0)[k] == self.history().subrange(
                            start as int,
                            i as int,
                        )[k]);
                        assert(self.history().subrange(start as int, i as int)[k] == self.turns@[
                        start + k]@);
                    } else {
                        assert(k == i - start);
                        assert(r@[k] == t);
                        assert(t@ == self.turns@[i as int]@);
                    }
                }
                assert(spec_history(r@) =~= self.history().subrange(start as int, i as int + 1));
            }
            i = i + 1;
        }
        proof {
            assert(spec_history(r@) =~= self.history().skip(start as int));
        }
        r
    }

    /// Returns the latest applied turn, if any.
    pub fn last_turn(&self) -> (r: Option<&Turn>)
        ensures
            self.history().len() == 0 ==> r is None,
            self.history().len() > 0 ==> (r matches Some(t) && t@ == self.history().last()),
    {
        let n: usize = self.turns.len();
        if n == 0 {
            None
        } else {
            Some(&self.turns[n - 1])
        }
    }

    /// A hypothetical turn aggregating every bug's currently expressed
    /// intent, indexed to follow the history.
    pub fn aggregate_turn(&self) -> (t: Turn)
        ensures
            t@.index == self.history().len(),
            t@.timestamp == 0,
            t@.impulse_intents.len() == self.bugs@.len(),
            forall|i: int|
                0 <= i < self.bugs@.len() ==> #[trigger] t@.impulse_intents[i] == (
                (i + 1) as usize,
                self.bugs@[i].impulse_intent,
                ),
            t.wf(),
    {
        let n: usize = self.bugs.len();
        let mut intents: Vec<(usize, Vec2)> = Vec::new();
        let mut i: usize = 0;
        while i < n
            invariant
                0 <= i <= n,
                n == self.bugs@.len(),
                intents@.len() == i,
                forall|k: int|
                    0 <= k < i ==> #[trigger] intents@[k] == (
                    (k + 1) as usize,
                    self.bugs@[k].impulse_intent,
                    ),
            decreases n - i,
        {
            intents.push((i + 1, self.bugs[i].impulse_intent));
            i = i + 1;
        }
        Turn { impulse_intents: intents, timestamp: 0, index: self.turns.len() }
    }

    /// The result of the game, if decided: a side whose normalized capture
    /// progress has magnitude at least one has dominated the zone.
    pub fn result(&self) -> (r: Option<GameResult>)
        requires
            self.bugs@.len() < PROP_ID_BASE,
        ensures
            r == (if self.capture_progress >= self.bugs@.len() {
                Some(GameResult::Win(Team::Red))
            } else if self.capture_progress <= -(self.bugs@.len() as int) {
                Some(GameResult::Win(Team::Blue))
            } else {
                None::<GameResult>
            }),
    {
        let n: i64 = self.bugs.len() as i64;
        if self.capture_progress >= n {
            Some(GameResult::Win(Team::Red))
        } else if self.capture_progress <= -n {
            Some(GameResult::Win(Team::Blue))
        } else {
            None
        }
    }

    /// The tick counter.
    pub fn ticks(&self) -> (t: u64)
        ensures
            t == self.ticks,
    {
        self.ticks
    }

    /// Ticks since the start of the current turn window.
    pub fn turn_ticks(&self) -> (t: u64)
        ensures
            t == self.ticks % TURN_TICK_COUNT,
    {
        self.ticks % TURN_TICK_COUNT
    }

    /// Duration of one turn window, in seconds.
    pub fn turn_duration(&self) -> (d: u64)
        ensures
            d == TURN_DURATION,
    {
        TURN_DURATION
    }

    /// Ticks in one turn window.
    pub fn turn_tick_count(&self) -> (c: u64)
        ensures
            c == TURN_TICK_COUNT,
    {
        TURN_DURATION * TICKS_PER_SECOND
    }

    /// The tick within a window at which boundary resolution runs.
    pub fn turn_tick_count_half(&self) -> (c: u64)
        ensures
            c == TURN_TICK_COUNT_HALF,
    {
        4 * TICKS_PER_SECOND
    }

    /// Progress through the current turn window, in permille.
    pub fn turn_percentage_time(&self) -> (p: u64)
        ensures
            p == (self.ticks % TURN_TICK_COUNT) * 1000 / (TURN_TICK_COUNT as int),
    {
        self.turn_ticks() * 1000 / TURN_TICK_COUNT
    }

    /// The boundary instant's position within the window, in permille.
    pub fn turn_percentage_time_half(&self) -> (p: u64)
        ensures
            p == TURN_TICK_COUNT_HALF * 1000 / (TURN_TICK_COUNT as int),
    {
        TURN_TICK_COUNT_HALF * 1000 / TURN_TICK_COUNT
    }

    /// The applied turns.
    pub fn turns(&self) -> (r: &Vec<Turn>)
        ensures
            r == &self.turns,
    {
        &self.turns
    }

    /// How many turns have been applied.
    pub fn turns_count(&self) -> (n: usize)
        ensures
            n == self.history().len(),
    {
        self.turns.len()
    }

    /// Applied plus queued turns; what the network layer asks for next.
    pub fn all_turns_count(&self) -> (n: usize)
        requires
            self.history().len() + self.queued().len() <= usize::MAX,
        ensures
            n == self.history().len() + self.queued().len(),
    {
        self.turns.len() + self.queued_turns.len()
    }

    /// The game-facing data of every bug, ordered by id.
    pub fn iter_bugdata(&self) -> (r: &Vec<BugData>)
        ensures
            r == &self.bugs,
    {
        &self.bugs
    }

    /// The raw bug-pair contacts of the last physics substep.
    pub fn bug_collisions(&self) -> (r: &Vec<Contact>)
        ensures
            r == &self.bug_collisions,
    {
        &self.bug_collisions
    }

    /// The damaging impacts of the last physics substep.
    pub fn bug_impacts(&self) -> (r: &Vec<Impact>)
        ensures
            r == &self.bug_impacts,
    {
        &self.bug_impacts
    }

    /// The capture progress normalized by the bug count, in permille:
    /// +1000 means Red has fully dominated the zone, -1000 Blue. Clamped to
    /// the `i64` range; zero for a game without bugs.
    pub fn capture_progress(&self) -> (p: i64)
        ensures
            p == spec_normalized_progress(self.capture_progress as int, self.bugs@.len() as int),
    {
        let count: usize = self.bugs.len();
        if count == 0 {
            return 0;
        }
        let neg: bool = self.capture_progress < 0;
        let mag: u128 = if neg {
            (-(self.capture_progress as i128)) as u128
        } else {
            self.capture_progress as u128
        };
        let q: u128 = (mag * 1000) / (count as u128);
        if neg {
            if q >= 0x8000_0000_0000_0000 {
                i64::MIN
            } else {
                -(q as i64)
            }
        } else {
            if q > i64::MAX as u128 {
                i64::MAX
            } else {
                q as i64
            }
        }
    }

    /// Radius of the capture zone, milli-units.
    pub fn capture_radius(&self) -> (r: i32)
        ensures
            r == self.capture_radius,
    {
        self.capture_radius
    }

    /// The bug with the given entity id, if it exists.
    pub fn get_bug(&self, bug_index: usize) -> (r: Option<&BugData>)
        ensures
            (1 <= bug_index <= self.bugs@.len()) ==> (r matches Some(b) && *b == self.bugs@[
            bug_index - 1]),
            !(1 <= bug_index <= self.bugs@.len()) ==> r is None,
    {
        if 1 <= bug_index && bug_index <= self.bugs.len() {
            Some(&self.bugs[bug_index - 1])
        } else {
            None
        }
    }

    /// Inserts a new prop and returns its entity id; the host places its
    /// collider.
    pub fn insert_prop(&mut self) -> (id: usize)
        requires
            old(self).props@.len() + PROP_ID_BASE < usize::MAX,
        ensures
            id == PROP_ID_BASE + old(self).props@.len(),
            final(self).props@ == old(self).props@.push(PropData {}),
            final(self).bugs == old(self).bugs,
            final(self).ticks == old(self).ticks,
            final(self).turns == old(self).turns,
            final(self).queued_turns == old(self).queued_turns,
            final(self).capture_radius == old(self).capture_radius,
            final(self).capture_progress == old(self).capture_progress,
            final(self).bug_collisions == old(self).bug_collisions,
            final(self).bug_impacts == old(self).bug_impacts,
    {
        let id: usize = PROP_ID_BASE + self.props.len();
        self.props.push(PropData {});
        id
    }

    /// Inserts a new bug and returns its entity id; the host places its
    /// rigid body.
    pub fn insert_bug(&mut self, bug_data: BugData) -> (id: usize)
        requires
            old(self).bugs@.len() + 1 < PROP_ID_BASE,
        ensures
            id == old(self).bugs@.len() + 1,
            final(self).bugs@ == old(self).bugs@.push(bug_data),
            final(self).props == old(self).props,
            final(self).ticks == old(self).ticks,
            final(self).turns == old(self).turns,
            final(self).queued_turns == old(self).queued_turns,
            final(self).capture_radius == old(self).capture_radius,
            final(self).capture_progress == old(self).capture_progress,
            final(self).bug_collisions == old(self).bug_collisions,
            final(self).bug_impacts == old(self).bug_impacts,
    {
        let id: usize = self.bugs.len() + 1;
        self.bugs.push(bug_data);
        id
    }

    /// Clears every bug's pending impulse intent.
    fn reset_impulses(&mut self)
        ensures
            final(self).bugs@ == spec_zero_intents(old(self).bugs@),
            final(self).props == old(self).props,
            final(self).ticks == old(self).ticks,
            final(self).turns == old(self).turns,
            final(self).queued_turns == old(self).queued_turns,
            final(self).capture_radius == old(self).capture_radius,
            final(self).capture_progress == old(self).capture_progress,
            final(self).bug_collisions == old(self).bug_collisions,
            final(self).bug_impacts == old(self).bug_impacts,
    {
        let n: usize = self.bugs.len();
        let mut i: usize = 0;
        while i < n
            invariant
                0 <= i <= n,
                n == self.bugs@.len(),
                forall|k: int|
                    0 <= k < i ==> #[trigger] self.bugs@[k] == (BugData {
                        impulse_intent: Vec2 { x: 0, y: 0 },
                        ..old(self).bugs@[k]
                    }),
                forall|k: int| i <= k < n ==> #[trigger] self.bugs@[k] == old(self).bugs@[k],
                self.props == old(self).props,
                self.ticks == old(self).ticks,
                self.turns == old(self).turns,
                self.queued_turns == old(self).queued_turns,
                self.capture_radius == old(self).capture_radius,
                self.capture_progress == old(self).capture_progress,
                self.bug_collisions == old(self).bug_collisions,
                self.bug_impacts == old(self).bug_impacts,
            decreases n - i,
        {
            self.bugs[i].reset_impulse_intent();
            i = i + 1;
        }
        proof {
            assert(spec_zero_intents(old(self).bugs@).len() == n);
            assert(self.bugs@ =~= spec_zero_intents(old(self).bugs@));
        }
    }

    /// Offers one turn for execution. If the turn's index does not exceed
    /// the last applied index it is rejected: the game is left untouched and
    /// `None` is returned. If accepted, the turn's per-entity intents are
    /// merged in (clamped, unknown ids ignored), the impulses to hand to the
    /// physics world are returned, every stored intent is cleared, and the
    /// turn is appended verbatim to the history.
    pub fn execute_turn(&mut self, turn: &Turn) -> (r: Option<Vec<(usize, Vec2)>>)
        requires
            old(self).wf(),
        ensures
            final(self).wf(),
            (r is Some) == spec_accepts(old(self).history(), turn@),
            final(self).history() == spec_apply_one_history(old(self).history(), turn@),
            spec_accepts(old(self).history(), turn@) ==> final(self).bugs@ == spec_zero_intents(
                old(self).bugs@,
            ),
            !spec_accepts(old(self).history(), turn@) ==> *final(self) == *old(self),
            r matches Some(imps) ==> (imps@.len() == old(self).bugs@.len() && forall|i: int|
                0 <= i < imps@.len() ==> #[trigger] imps@[i] == (
                (i + 1) as usize,
                spec_doubled(spec_merged_intent(old(self).bugs@, turn@, i)),
                )),
            final(self).ticks == old(self).ticks,
            final(self).queued_turns == old(self).queued_turns,
            final(self).props == old(self).props,
            final(self).capture_radius == old(self).capture_radius,
            final(self).capture_progress == old(self).capture_progress,
            final(self).bug_collisions == old(self).bug_collisions,
            final(self).bug_impacts == old(self).bug_impacts,
    {
        let accepted: bool = match self.last_turn() {
            Some(last) => turn.index > last.index,
            None => true,
        };
        if !accepted {
            return None;
        }
        let n: usize = self.bugs.len();
        let mut imps: Vec<(usize, Vec2)> = Vec::new();
        let mut i: usize = 0;
        while i < n
            invariant
                0 <= i <= n,
                n == self.bugs@.len(),
                old(self).bugs@.len() == n,
                forall|k: int| 0 <= k < n ==> (#[trigger] old(self).bugs@[k]).wf(),
                forall|k: int|
                    0 <= k < i ==> #[trigger] self.bugs@[k] == (BugData {
                        impulse_intent: spec_merged_intent(old(self).bugs@, turn@, k),
                        ..old(self).bugs@[k]
                    }),
                forall|k: int| i <= k < n ==> #[trigger] self.bugs@[k] == old(self).bugs@[k],
                imps@.len() == i,
                forall|k: int|
                    0 <= k < i ==> #[trigger] imps@[k] == (
                    (k + 1) as usize,
                    spec_doubled(spec_merged_intent(old(self).bugs@, turn@, k)),
                    ),
                self.props == old(self).props,
                self.ticks == old(self).ticks,
                self.turns == old(self).turns,
                self.queued_turns == old(self).queued_turns,
                self.capture_radius == old(self).capture_radius,
                self.capture_progress == old(self).capture_progress,
                self.bug_collisions == old(self).bug_collisions,
                self.bug_impacts == old(self).bug_impacts,
            decreases n - i,
        {
            let id: usize = i + 1;
            match turn.intent_for(id) {
                Some(v) => {
                    self.bugs[i].set_impulse_intent(v);
                },
                None => {},
            }
            let cur: Vec2 = self.bugs[i].impulse_intent;
            proof {
                crate::vec2::lemma_clamped_intent_bounded(
                    match spec_lookup_intent(turn@.impulse_intents, id) {
                        Some(v) => v,
                        None => cur,
                    },
                );
                assert(cur == spec_merged_intent(old(self).bugs@, turn@, i as int));
                assert(cur.spec_norm_sq() <= crate::vec2::IMPULSE_CAP * crate::vec2::IMPULSE_CAP);
                crate::vec2::lemma_component_bound(cur, crate::vec2::IMPULSE_CAP as int);
            }
            imps.push((id, cur.doubled()));
            i = i + 1;
        }
        self.reset_impulses();
        let ghost pre_push: Seq<Turn> = self.turns@;
        let copied: Turn = turn.clone();
        proof {
            assert(copied@ =~= turn@);
        }
        self.turns.push(copied);
        proof {
            assert forall|k: int| 0 <= k < self.turns@.len() implies #[trigger] self.history()[k]
                == spec_apply_one_history(old(self).history(), turn@)[k] by {
                assert(self.history()[k] == self.turns@[k]@);
                if k < pre_push.len() {
                    assert(self.turns@[k] == pre_push[k]);
                    assert(old(self).history()[k] == pre_push[k]@);
                } else {
                    assert(self.turns@[k] == copied);
                }
            }
            assert(old(self).history().len() == pre_push.len());
            assert(self.history().len() == self.turns@.len());
            assert(self.history() =~= spec_apply_one_history(old(self).history(), turn@));
            assert(self.bugs@ == spec_zero_intents(old(self).bugs@));
            assert(spec_zero_intents(old(self).bugs@).len() == old(self).bugs@.len());
            crate::vec2::lemma_zero_norm();
            assert forall|k: int|
                0 <= k < self.bugs@.len() implies (#[trigger] self.bugs@[k]).wf() by {
                assert(0 <= k < old(self).bugs@.len());
                assert(self.bugs@[k] == spec_zero_intents(old(self).bugs@)[k]);
                assert(spec_zero_intents(old(self).bugs@)[k] == (BugData {
                    impulse_intent: Vec2 { x: 0, y: 0 },
                    ..old(self).bugs@[k]
                }));
                assert(old(self).bugs@[k].wf());
                assert(self.bugs@[k].health <= self.bugs@[k].sort.spec_max_health());
                assert(self.bugs@[k].impulse_intent == (Vec2 { x: 0, y: 0 }));
            }
        }
        Some(imps)
    }

    /// Turn-boundary resolution: counts living bugs inside the capture zone
    /// (+1 per Red, -1 per Blue), adds the tally to the capture progress
    /// (saturating), then applies one point of health regeneration to every
    /// bug. `positions[i]` is the host-reported position of the bug with id
    /// `i + 1`.
    pub fn tick_turn(&mut self, positions: &Vec<Vec2>)
        requires
            old(self).wf(),
            positions@.len() == old(self).bugs@.len(),
        ensures
            final(self).wf(),
            final(self).capture_progress == spec_sat_add_i64(
                old(self).capture_progress as int,
                spec_capture_tally(
                    old(self).bugs@,
                    positions@,
                    old(self).capture_radius as int,
                    old(self).bugs@.len() as int,
                ),
            ),
            final(self).bugs@ == spec_regen(old(self).bugs@),
            final(self).props == old(self).props,
            final(self).ticks == old(self).ticks,
            final(self).turns == old(self).turns,
            final(self).queued_turns == old(self).queued_turns,
            final(self).capture_radius == old(self).capture_radius,
            final(self).bug_collisions == old(self).bug_collisions,
            final(self).bug_impacts == old(self).bug_impacts,
    {
        let n: usize = self.bugs.len();
        let radius: i32 = self.capture_radius;
        proof {
            assert((radius as int) * (radius as int) <= 0x4000_0000_0000_0000) by (nonlinear_arith)
                requires
                    0 <= radius <= 0x7fff_ffff,
            ;
        }
        let r2: u64 = (radius as u64) * (radius as u64);
        let mut tip: i64 = 0;
        let mut i: usize = 0;
        while i < n
            invariant
                0 <= i <= n,
                n == self.bugs@.len(),
                n < PROP_ID_BASE,
                positions@.len() == n,
                radius == self.capture_radius,
                r2 == (radius as int) * (radius as int),
                -(i as int) <= tip <= i as int,
                tip == spec_capture_tally(self.bugs@, positions@, radius as int, i as int),
                *self == *old(self),
            decreases n - i,
        {
            let b: BugData = self.bugs[i];
            let p: Vec2 = positions[i];
            if p.norm_sq() < r2 && b.health > 1 {
                match b.team {
                    Team::Red => {
                        tip = tip + 1;
                    },
                    Team::Blue => {
                        tip = tip - 1;
                    },
                }
            }
            i = i + 1;
        }
        let mut j: usize = 0;
        while j < n
            invariant
                0 <= j <= n,
                n == self.bugs@.len(),
                forall|k: int| 0 <= k < n ==> (#[trigger] old(self).bugs@[k]).wf(),
                forall|k: int|
                    0 <= k < j ==> #[trigger] self.bugs@[k] == (BugData {
                        health: spec_clamped_health(
                            old(self).bugs@[k].health as int,
                            1,
                            old(self).bugs@[k].sort.spec_max_health(),
                        ) as usize,
                        ..old(self).bugs@[k]
                    }),
                forall|k: int| j <= k < n ==> #[trigger] self.bugs@[k] == old(self).bugs@[k],
                self.props == old(self).props,
                self.ticks == old(self).ticks,
                self.turns == old(self).turns,
                self.queued_turns == old(self).queued_turns,
                self.capture_radius == old(self).capture_radius,
                self.capture_progress == old(self).capture_progress,
                self.bug_collisions == old(self).bug_collisions,
                self.bug_impacts == old(self).bug_impacts,
            decreases n - j,
        {
            self.bugs[j].add_health(1);
            j = j + 1;
        }
        proof {
            assert(spec_regen(old(self).bugs@).len() == n);
            assert(self.bugs@ =~= spec_regen(old(self).bugs@));
            assert forall|k: int| 0 <= k < n implies (#[trigger] self.bugs@[k]).wf() by {
                assert(old(self).bugs@[k].wf());
            }
        }
        let base: i64 = self.capture_progress;
        let newp: i64 = if tip >= 0 {
            if base > i64::MAX - tip {
                i64::MAX
            } else {
                base + tip
            }
        } else {
            if base < i64::MIN - tip {
                i64::MIN
            } else {
                base + tip
            }
        };
        self.capture_progress = newp;
    }

    /// Combat resolution for one physics substep. The host reports the
    /// currently touching bug pairs with their velocities; pairs naming
    /// unknown entities are ignored, enemy pairs met above the speed
    /// threshold become impacts, and each impact costs both bugs one health
    /// point — plus one more for the victim when the faster bug is an Ant.
    pub fn tick_physics(&mut self, contacts: &Vec<Contact>)
        requires
            old(self).wf(),
        ensures
            final(self).wf(),
            final(self).bug_collisions@ == spec_valid_contacts(old(self).bugs@, contacts@),
            final(self).bug_impacts@ == spec_impacts(old(self).bugs@, contacts@),
            final(self).bugs@ == spec_apply_impacts(
                old(self).bugs@,
                spec_impacts(old(self).bugs@, contacts@),
            ),
            final(self).props == old(self).props,
            final(self).ticks == old(self).ticks,
            final(self).turns == old(self).turns,
            final(self).queued_turns == old(self).queued_turns,
            final(self).capture_radius == old(self).capture_radius,
            final(self).capture_progress == old(self).capture_progress,
    {
        let n: usize = self.bugs.len();
        let m: usize = contacts.len();
        let mut collisions: Vec<Contact> = Vec::new();
        let mut impacts: Vec<Impact> = Vec::new();
        let mut i: usize = 0;
        proof {
            assert(contacts@.skip(0) =~= contacts@);
        }
        while i < m
            invariant
                0 <= i <= m,
                m == contacts@.len(),
                n == self.bugs@.len(),
                *self == *old(self),
                spec_valid_contacts(self.bugs@, contacts@) == collisions@ + spec_valid_contacts(
                    self.bugs@,
                    contacts@.skip(i as int),
                ),
                spec_impacts(self.bugs@, contacts@) == impacts@ + spec_impacts(
                    self.bugs@,
                    contacts@.skip(i as int),
                ),
                forall|k: int|
                    0 <= k < impacts@.len() ==> 1 <= (#[trigger] impacts@[k]).attacker <= n && 1
                        <= impacts@[k].victim <= n,
            decreases m - i,
        {
            let c: Contact = contacts[i];
            proof {
                assert(contacts@.skip(i as int)[0] == c);
                assert(contacts@.skip(i as int).drop_first() =~= contacts@.skip(i as int + 1));
            }
            let valid: bool = 1 <= c.id_a && c.id_a <= n && 1 <= c.id_b && c.id_b <= n;
            if valid {
                let ghost collisions0: Seq<Contact> = collisions@;
                collisions.push(c);
                proof {
                    assert(collisions@ =~= collisions0 + seq![c]);
                    assert((collisions0 + seq![c]) + spec_valid_contacts(
                        self.bugs@,
                        contacts@.skip(i as int + 1),
                    ) =~= collisions0 + (seq![c] + spec_valid_contacts(
                        self.bugs@,
                        contacts@.skip(i as int + 1),
                    )));
                }
                let na: u64 = c.vel_a.norm_sq();
                let nb: u64 = c.vel_b.norm_sq();
                let ms: u64 = if na >= nb {
                    na
                } else {
                    nb
                };
                let hit: bool = ms > IMPACT_SPEED_SQ && {
                    let ta: Team = self.bugs[c.id_a - 1].team;
                    let tb: Team = self.bugs[c.id_b - 1].team;
                    ta != tb
                };
                if hit {
                    let im: Impact = if na >= nb {
                        Impact { attacker: c.id_a, victim: c.id_b, point: c.point }
                    } else {
                        Impact { attacker: c.id_b, victim: c.id_a, point: c.point }
                    };
                    let ghost impacts0: Seq<Impact> = impacts@;
                    impacts.push(im);
                    proof {
                        assert(im == spec_to_impact(c));
                        assert(impacts@ =~= impacts0 + seq![im]);
                        assert((impacts0 + seq![im]) + spec_impacts(
                            self.bugs@,
                            contacts@.skip(i as int + 1),
                        ) =~= impacts0 + (seq![im] + spec_impacts(
                            self.bugs@,
                            contacts@.skip(i as int + 1),
                        )));
                    }
                } else {
                    proof {
                        assert(!spec_is_impact(self.bugs@, c));
                    }
                }
            }
            i = i + 1;
        }
        proof {
            assert(contacts@.skip(m as int) =~= Seq::<Contact>::empty());
            assert(collisions@ + Seq::<Contact>::empty() =~= collisions@);
            assert(impacts@ + Seq::<Impact>::empty() =~= impacts@);
        }
        self.bug_collisions = collisions;
        self.bug_impacts = impacts;
        let total: usize = self.bug_impacts.len();
        let ghost ims: Seq<Impact> = self.bug_impacts@;
        let mut k: usize = 0;
        proof {
            assert(ims.skip(0) =~= ims);
        }
        while k < total
            invariant
                0 <= k <= total,
                total == ims.len(),
                self.bug_impacts@ == ims,
                n == self.bugs@.len(),
                forall|t: int| 0 <= t < n ==> (#[trigger] self.bugs@[t]).wf(),
                forall|t: int|
                    0 <= t < ims.len() ==> 1 <= (#[trigger] ims[t]).attacker <= n && 1 <= ims[t].victim
                        <= n,
                spec_apply_impacts(self.bugs@, ims.skip(k as int)) == spec_apply_impacts(
                    old(self).bugs@,
                    ims,
                ),
                self.props == old(self).props,
                self.ticks == old(self).ticks,
                self.turns == old(self).turns,
                self.queued_turns == old(self).queued_turns,
                self.capture_radius == old(self).capture_radius,
                self.capture_progress == old(self).capture_progress,
                self.bug_collisions@ == spec_valid_contacts(old(self).bugs@, contacts@),
            decreases total - k,
        {
            let im: Impact = self.bug_impacts[k];
            proof {
                assert(ims.skip(k as int)[0] == im);
                assert(ims.skip(k as int).drop_first() =~= ims.skip(k as int + 1));
            }
            let ghost bugs0: Seq<BugData> = self.bugs@;
            let a: usize = im.attacker - 1;
            let v: usize = im.victim - 1;
            self.bugs[a].add_health(-1);
            let attacker_is_ant: bool = match self.bugs[a].sort {
                BugSort::Ant => true,
                _ => false,
            };
            self.bugs[v].add_health(-1);
            if attacker_is_ant {
                self.bugs[v].add_health(-1);
            }
            proof {
                assert(self.bugs@ =~= spec_apply_impact(bugs0, im));
            }
            k = k + 1;
        }
        proof {
            assert(ims.skip(total as int) =~= Seq::<Impact>::empty());
        }
    }

    /// One scheduler step. At a wrap-around instant the front queued turn is
    /// popped and offered to `execute_turn` (the tick counter stalls instead
    /// when the queue is empty); at the boundary instant a resolve action is
    /// emitted; at every other instant a physics substep is requested.
    fn tick_step(&mut self, actions: &mut Vec<TickAction>)
        requires
            old(self).wf(),
            old(self).ticks < u64::MAX,
        ensures
            final(self).wf(),
            spec_apply_queue(final(self).history(), final(self).queued()) == spec_apply_queue(
                old(self).history(),
                old(self).queued(),
            ),
            spec_at_wrap(old(self).ticks) && old(self).queued_turns@.len() == 0 ==> *final(self)
                == *old(self),
            spec_at_wrap(old(self).ticks) && old(self).queued_turns@.len() > 0 ==> (
            final(self).ticks == old(self).ticks + 1
                && final(self).queued_turns@ == old(self).queued_turns@.drop_first()
                && final(self).history() == spec_apply_one_history(
                old(self).history(),
                old(self).queued_turns@[0]@,
            ) && (spec_accepts(old(self).history(), old(self).queued_turns@[0]@) ==> final(self).bugs@ == spec_zero_intents(old(self).bugs@)) && (!spec_accepts(
                old(self).history(),
                old(self).queued_turns@[0]@,
            ) ==> final(self).bugs == old(self).bugs)),
            !spec_at_wrap(old(self).ticks) ==> (final(self).ticks == old(self).ticks + 1
                && final(self).queued_turns == old(self).queued_turns
                && final(self).turns == old(self).turns
                && final(self).bugs == old(self).bugs),
            final(self).queued_turns@.len() <= old(self).queued_turns@.len(),
            final(self).ticks >= old(self).ticks,
            final(self).props == old(self).props,
            final(self).capture_radius == old(self).capture_radius,
            final(self).capture_progress == old(self).capture_progress,
            final(self).bug_collisions == old(self).bug_collisions,
            final(self).bug_impacts == old(self).bug_impacts,
    {
        self.ticks = self.ticks + 1;
        let turn_ticks: u64 = self.ticks % TURN_TICK_COUNT;
        if turn_ticks == 0 {
            if self.queued_turns.len() > 0 {
                let ghost q0: Seq<Turn> = self.queued_turns@;
                let qt: Turn = self.queued_turns.remove(0);
                proof {
                    assert(q0.remove(0) =~= q0.drop_first());
                    assert(spec_history(q0.drop_first()).len() == q0.len() - 1);
                    assert(spec_history(q0).drop_first().len() == q0.len() - 1);
                    assert forall|k: int|
                        0 <= k < q0.len() - 1 implies #[trigger] spec_history(q0.drop_first())[k]
                        == spec_history(q0).drop_first()[k] by {
                        assert(spec_history(q0.drop_first())[k] == q0.drop_first()[k]@);
                        assert(spec_history(q0)[k + 1] == q0[k + 1]@);
                    }
                    assert(spec_history(q0.drop_first()) =~= spec_history(q0).drop_first());
                    assert(spec_history(q0)[0] == q0[0]@);
                }
                match self.execute_turn(&qt) {
                    Some(imps) => {
                        actions.push(TickAction::ApplyImpulses(imps));
                    },
                    None => {},
                }
                proof {
                    assert(old(self).queued().len() > 0);
                    assert(spec_apply_queue(old(self).history(), old(self).queued())
                        == spec_apply_queue(
                        spec_apply_one_history(old(self).history(), old(self).queued()[0]),
                        old(self).queued().drop_first(),
                    ));
                }
            } else {
                self.ticks = self.ticks - 1;
                proof {
                    assert(*self =~= *old(self));
                }
            }
        } else if turn_ticks == TURN_TICK_COUNT_HALF {
            actions.push(TickAction::ResolveBoundary);
        } else {
            actions.push(TickAction::StepPhysics);
        }
    }

    /// Advances the simulation by one wall-clock tick and returns, in order,
    /// the physics work the host must perform. At a wrap-around instant with
    /// an empty queue the tick counter does not advance (the scheduler
    /// stalls until a turn arrives); otherwise the counter advances, and
    /// while turns remain queued the scheduler catches up by repeating its
    /// own step until the backlog is drained. On return the pending queue is
    /// always empty and the history equals the old history with the old
    /// queue offered first-come-first-applied.
    pub fn tick(&mut self) -> (actions: Vec<TickAction>)
        requires
            old(self).wf(),
            old(self).ticks + (old(self).queued_turns@.len() + 1) * (TURN_TICK_COUNT as int)
                <= u64::MAX,
        ensures
            final(self).wf(),
            final(self).queued_turns@.len() == 0,
            final(self).history() == spec_apply_queue(old(self).history(), old(self).queued()),
            spec_at_wrap(old(self).ticks) && old(self).queued_turns@.len() == 0 ==> *final(self)
                == *old(self),
            !spec_at_wrap(old(self).ticks) ==> final(self).ticks > old(self).ticks,
            spec_at_wrap(old(self).ticks) && old(self).queued_turns@.len() > 0 ==> 
                final(self).ticks > old(self).ticks,
            final(self).ticks >= old(self).ticks,
            final(self).bugs@ == old(self).bugs@ || final(self).bugs@ == spec_zero_intents(
                old(self).bugs@,
            ),
            final(self).props == old(self).props,
            final(self).capture_radius == old(self).capture_radius,
            final(self).capture_progress == old(self).capture_progress,
            final(self).bug_collisions == old(self).bug_collisions,
            final(self).bug_impacts == old(self).bug_impacts,
    {
        let mut actions: Vec<TickAction> = Vec::new();
        proof {
            lemma_sched_measure_bounds(old(self).ticks, old(self).queued_turns@.len() as int);
        }
        self.tick_step(&mut actions);
        while self.queued_turns.len() > 0
            invariant
                self.wf(),
                spec_apply_queue(self.history(), self.queued()) == spec_apply_queue(
                    old(self).history(),
                    old(self).queued(),
                ),
                self.ticks as int + spec_sched_measure(
                    self.ticks,
                    self.queued_turns@.len() as int,
                ) <= old(self).ticks as int + spec_sched_measure(
                    old(self).ticks,
                    old(self).queued_turns@.len() as int,
                ),
                old(self).ticks as int + spec_sched_measure(
                    old(self).ticks,
                    old(self).queued_turns@.len() as int,
                ) < u64::MAX,
                self.ticks >= old(self).ticks,
                spec_at_wrap(old(self).ticks) && old(self).queued_turns@.len() == 0 ==> *self
                    == *old(self),
                !spec_at_wrap(old(self).ticks) ==> self.ticks > old(self).ticks,
                spec_at_wrap(old(self).ticks) && old(self).queued_turns@.len() > 0 ==> self.ticks
                    > old(self).ticks,
                self.bugs@ == old(self).bugs@ || self.bugs@ == spec_zero_intents(old(self).bugs@),
                self.props == old(self).props,
                self.capture_radius == old(self).capture_radius,
                self.capture_progress == old(self).capture_progress,
                self.bug_collisions == old(self).bug_collisions,
                self.bug_impacts == old(self).bug_impacts,
            decreases spec_sched_measure(self.ticks, self.queued_turns@.len() as int),
        {
            proof {
                lemma_sched_measure_bounds(self.ticks, self.queued_turns@.len() as int);
                lemma_sched_step_measure(self.ticks, self.queued_turns@.len() as int);
                lemma_zero_intents_idempotent(old(self).bugs@);
            }
            self.tick_step(&mut actions);
        }
        actions
    }

    /// Processes a [`Message`] for one player during the aiming window: a
    /// `Move` message sets the impulse intents of the entries that name the
    /// player's own living bugs (unknown or foreign entries are silently
    /// ignored); every other message leaves the game untouched.
    pub fn act_player(&mut self, player: &Player, message: Message)
        requires
            old(self).wf(),
        ensures
            final(self).wf(),
            final(self).bugs@ == (match message {
                Message::Move(t) => spec_act_entries(
                    old(self).bugs@,
                    t@.impulse_intents,
                    player.team,
                ),
                _ => old(self).bugs@,
            }),
            final(self).props == old(self).props,
            final(self).ticks == old(self).ticks,
            final(self).turns == old(self).turns,
            final(self).queued_turns == old(self).queued_turns,
            final(self).capture_radius == old(self).capture_radius,
            final(self).capture_progress == old(self).capture_progress,
            final(self).bug_collisions == old(self).bug_collisions,
            final(self).bug_impacts == old(self).bug_impacts,
    {
        match message {
            Message::Move(turn) => {
                let n: usize = self.bugs.len();
                let m: usize = turn.impulse_intents.len();
                let ghost es: Seq<(usize, Vec2)> = turn.impulse_intents@;
                let mut k: usize = 0;
                proof {
                    assert(es.skip(0) =~= es);
                }
                while k < m
                    invariant
                        0 <= k <= m,
                        m == es.len(),
                        turn.impulse_intents@ == es,
                        n == self.bugs@.len(),
                        forall|t: int| 0 <= t < n ==> (#[trigger] self.bugs@[t]).wf(),
                        spec_act_entries(self.bugs@, es.skip(k as int), player.team)
                            == spec_act_entries(old(self).bugs@, es, player.team),
                        self.props == old(self).props,
                        self.ticks == old(self).ticks,
                        self.turns == old(self).turns,
                        self.queued_turns == old(self).queued_turns,
                        self.capture_radius == old(self).capture_radius,
                        self.capture_progress == old(self).capture_progress,
                        self.bug_collisions == old(self).bug_collisions,
                        self.bug_impacts == old(self).bug_impacts,
                    decreases m - k,
                {
                    let entry: (usize, Vec2) = turn.impulse_intents[k];
                    proof {
                        assert(es.skip(k as int)[0] == entry);
                        assert(es.skip(k as int).drop_first() =~= es.skip(k as int + 1));
                    }
                    let ghost bugs0: Seq<BugData> = self.bugs@;
                    let id: usize = entry.0;
                    if 1 <= id && id <= n {
                        let same_team: bool = match (self.bugs[id - 1].team, player.team) {
                            (Team::Red, Team::Red) => true,
                            (Team::Blue, Team::Blue) => true,
                            _ => false,
                        };
                        if same_team && self.bugs[id - 1].health > 1 {
                            self.bugs[id - 1].set_impulse_intent(entry.1);
                        }
                    }
                    proof {
                        assert(self.bugs@ =~= spec_act_entry(bugs0, entry, player.team));
                    }
                    k = k + 1;
                }
                proof {
                    assert(es.skip(m as int) =~= Seq::<(usize, Vec2)>::empty());
                }
            },
            _ => {},
        }
    }

    /// Appends externally-arrived turns to the back of the pending queue,
    /// preserving arrival order.
    pub fn queue_turns(&mut self, turns: Vec<Turn>)
        ensures
            final(self).queued_turns@ == old(self).queued_turns@ + turns@,
            final(self).bugs == old(self).bugs,
            final(self).props == old(self).props,
            final(self).ticks == old(self).ticks,
            final(self).turns == old(self).turns,
            final(self).capture_radius == old(self).capture_radius,
            final(self).capture_progress == old(self).capture_progress,
            final(self).bug_collisions == old(self).bug_collisions,
            final(self).bug_impacts == old(self).bug_impacts,
    {
        let mut incoming: Vec<Turn> = turns;
        let ghost pre: Seq<Turn> = self.queued_turns@;
        while incoming.len() > 0
            invariant
                self.queued_turns@ + incoming@ == pre + turns@,
                self.bugs == old(self).bugs,
                self.props == old(self).props,
                self.ticks == old(self).ticks,
                self.turns == old(self).turns,
                self.capture_radius == old(self).capture_radius,
                self.capture_progress == old(self).capture_progress,
                self.bug_collisions == old(self).bug_collisions,
                self.bug_impacts == old(self).bug_impacts,
            decreases incoming@.len(),
        {
            let t: Turn = incoming.remove(0);
            self.queued_turns.push(t);
            proof {
                assert(self.queued_turns@ + incoming@ =~= pre + turns@);
            }
        }
        proof {
            assert(final(self).queued_turns@ =~= pre + turns@);
        }
    }
}

impl Default for Game {
    /// A fresh arena: twelve bugs in two symmetric team arcs, thirty-four
    /// props, an empty history and queue, and a capture radius of four world
    /// units.
    fn default() -> (g: Game)
        ensures
            g.bugs@.len() == 12,
            forall|i: int| 0 <= i < 12 ==> #[trigger] g.bugs@[i] == spec_starting_bug(i),
            g.props@.len() == 34,
            g.ticks == 0,
            g.turns@.len() == 0,
            g.queued_turns@.len() == 0,
            g.capture_radius == 4000,
            g.capture_progress == 0,
            g.bug_collisions@.len() == 0,
            g.bug_impacts@.len() == 0,
            g.wf(),
    {
        let mut game = Game {
            bugs: Vec::new(),
            props: Vec::new(),
            ticks: 0,
            turns: Vec::new(),
            queued_turns: Vec::new(),
            capture_radius: 4000,
            capture_progress: 0,
            bug_collisions: Vec::new(),
            bug_impacts: Vec::new(),
        };
        let mut i: usize = 0;
        while i < 12
            invariant
                0 <= i <= 12,
                game.bugs@.len() == i,
                forall|k: int| 0 <= k < i ==> #[trigger] game.bugs@[k] == spec_starting_bug(k),
                game.props@.len() == 0,
                game.ticks == 0,
                game.turns@.len() == 0,
                game.queued_turns@.len() == 0,
                game.capture_radius == 4000,
                game.capture_progress == 0,
                game.bug_collisions@.len() == 0,
                game.bug_impacts@.len() == 0,
            decreases 12 - i,
        {
            let team: Team = if i < 6 {
                Team::Red
            } else {
                Team::Blue
            };
            let sort: BugSort = if i % 3 == 0 {
                BugSort::Beetle
            } else if i % 3 == 1 {
                BugSort::Ladybug
            } else {
                BugSort::Ant
            };
            let _ = game.insert_bug(BugData::new(sort, team));
            i = i + 1;
        }
        let mut k: usize = 0;
        while k < 34
            invariant
                0 <= k <= 34,
                game.props@.len() == k,
                game.bugs@.len() == 12,
                forall|j: int| 0 <= j < 12 ==> #[trigger] game.bugs@[j] == spec_starting_bug(j),
                game.ticks == 0,
                game.turns@.len() == 0,
                game.queued_turns@.len() == 0,
                game.capture_radius == 4000,
                game.capture_progress == 0,
                game.bug_collisions@.len() == 0,
                game.bug_impacts@.len() == 0,
            decreases 34 - k,
        {
            let _ = game.insert_prop();
            k = k + 1;
        }
        game
    }
}

} // verus!

