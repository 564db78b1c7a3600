use vstd::prelude::*;
use crate::vec2::Vec2;

verus! {

/// An ordered, indexed batch of per-entity impulse intents with a timestamp
/// (milliseconds). Immutable once constructed; consumed exactly once by the
/// scheduler, after which it is appended verbatim to the turn history.
#[derive(Debug)]
pub struct Turn {
    /// Per-entity intents, as `(entity id, intent)` pairs with unique keys.
    pub impulse_intents: Vec<(usize, Vec2)>,
    /// When the turn was formed, in milliseconds.
    pub timestamp: u64,
    /// The turn's position in the authoritative order; a turn is accepted
    /// only if its index exceeds that of the last applied turn.
    pub index: usize,
}

/// The mathematical content of a [`Turn`]: its intents as a sequence of
/// pairs, its timestamp and its index.
#[verifier::ext_equal]
pub ghost struct TurnView {
    /// Per-entity intents, in order.
    pub impulse_intents: Seq<(usize, Vec2)>,
    /// When the turn was formed, in milliseconds.
    pub timestamp: u64,
    /// The turn's position in the authoritative order.
    pub index: usize,
}

impl View for Turn {
    type V = TurnView;

    open spec fn view(&self) -> TurnView {
        TurnView {
            impulse_intents: self.impulse_intents@,
            timestamp: self.timestamp,
            index: self.index,
        }
    }
}

/// The first intent recorded for `id`, if any.
pub open spec fn spec_lookup_intent(intents: Seq<(usize, Vec2)>, id: usize) -> Option<Vec2>
    decreases intents.len(),
{
    if intents.len() == 0 {
        None
    } else if intents[0].0 == id {
        Some(intents[0].1)
    } else {
        spec_lookup_intent(intents.drop_first(), id)
    }
}

impl Turn {
    /// Keys are unique: no entity appears twice in one turn.
    pub open spec fn wf(self) -> bool {
        forall|i: int, j: int|
            0 <= i < j < self.impulse_intents@.len() ==> self.impulse_intents@[i].0
                != self.impulse_intents@[j].0
    }

    /// The intent this turn carries for entity `id`, if any.
    pub fn intent_for(&self, id: usize) -> (r: Option<Vec2>)
        ensures
            r == spec_lookup_intent(self.impulse_intents@, id),
    {
        let n: usize = self.impulse_intents.len();
        let mut i: usize = 0;
        proof {
            assert(self.impulse_intents@.skip(0) =~= self.impulse_intents@);
        }
        while i < n
            invariant
                0 <= i <= n,
                n == self.impulse_intents@.len(),
                spec_lookup_intent(self.impulse_intents@, id) == spec_lookup_intent(
                    self.impulse_intents@.skip(i as int),
                    id,
                ),
            decreases n - i,
        {
            let (key, value): (usize, Vec2) = self.impulse_intents[i];
            if key == id {
                proof {
                    assert(self.impulse_intents@.skip(i as int)[0] == (key, value));
                }
                return Some(value);
            }
            proof {
                assert(self.impulse_intents@.skip(i as int).drop_first() =~= self.impulse_intents@.skip(
                    i as int + 1,
                ));
            }
            i = i + 1;
        }
        proof {
            assert(self.impulse_intents@.skip(n as int) =~= Seq::<(usize, Vec2)>::empty());
        }
        None
    }
}

impl Clone for Turn {
    /// A clone keeps the intents, timestamp and index exactly.
    fn clone(&self) -> (r: Turn)
        ensures
            r.impulse_intents@ == self.impulse_intents@,
            r.timestamp == self.timestamp,
            r.index == self.index,
    {
        let n: usize = self.impulse_intents.len();
        let mut intents: Vec<(usize, Vec2)> = Vec::new();
        let mut i: usize = 0;
        while i < n
            invariant
                0 <= i <= n,
                n == self.impulse_intents@.len(),
                intents@ == self.impulse_intents@.subrange(0, i as int),
            decreases n - i,
        {
            let entry: (usize, Vec2) = self.impulse_intents[i];
            intents.push(entry);
            proof {
                assert(intents@ =~= self.impulse_intents@.subrange(0, i as int + 1));
            }
            i = i + 1;
        }
        proof {
            assert(intents@ =~= self.impulse_intents@);
        }
        Turn { impulse_intents: intents, timestamp: self.timestamp, index: self.index }
    }
}

} // verus!
